//! Benchmarks of the compositor's bookkeeping, and the statistics of
//! their timings.
use std::time::Instant;

use vstd::prelude::*;
use vstd::relations::sorted_by;

use crate::compositor::frame::FrameLoop;
use crate::scene::VisualId;

verus! {

/// `Instant`: a reading of the system's monotonic clock.
#[verifier::external_type_specification]
#[verifier::external_body]
pub struct ExInstant(Instant);

/// Calls `Instant::now`. Trusted: nothing is claimed of the reading.
#[verifier::external_body]
fn now() -> (r: Instant) {
    Instant::now()
}

/// Calls `Instant::elapsed`, as whole nanoseconds. Trusted: nothing is
/// claimed of how much time passed.
#[verifier::external_body]
fn nanos_since(start: &Instant) -> (r: u64) {
    start.elapsed().as_nanos() as u64
}

/// Calls `<[u64]>::sort_unstable`. Trusted: the same numbers come back,
/// none before a smaller one.
#[verifier::external_body]
fn sort_unstable(v: &mut Vec<u64>)
    ensures
        final(v)@.to_multiset() == old(v)@.to_multiset(),
        forall|i: int, j: int| 0 <= i < j < final(v)@.len() ==> final(v)@[i] <= final(v)@[j],
{
    v.sort_unstable()
}

/// Statistics of one scenario.
#[derive(Debug)]
pub struct BenchmarkResult {
    pub name: String,
    pub iterations: u64,
    pub avg_frame_time_ns: u64,
    pub p99_frame_time_ns: u64,
    pub min_frame_time_ns: u64,
    pub max_frame_time_ns: u64,
    pub total_frames: u64,
}

pub open spec fn sum_of(s: Seq<u64>) -> int
    decreases s.len(),
{
    if s.len() == 0 {
        0
    } else {
        sum_of(s.drop_last()) + s.last()
    }
}

/// Not before a larger one.
pub open spec fn ascending() -> spec_fn(u64, u64) -> bool {
    |a: u64, b: u64| a <= b
}

/// The timings from the shortest to the longest.
pub open spec fn ranked(s: Seq<u64>) -> Seq<u64> {
    s.sort_by(ascending())
}

/// The timing of this rank; nothing was timed, nothing it took.
pub open spec fn of_rank(s: Seq<u64>, i: int) -> u64 {
    if s.len() == 0 {
        0
    } else {
        ranked(s)[i]
    }
}

/// At least one.
pub open spec fn at_least_one(n: u64) -> int {
    if n == 0 {
        1
    } else {
        n as int
    }
}

/// The result holds the statistics of these timings.
pub open spec fn describes(r: BenchmarkResult, name: Seq<char>, iterations: u64, times: Seq<u64>) -> bool {
    &&& r.name@ == name
    &&& r.iterations == iterations
    &&& r.total_frames == iterations
    &&& r.avg_frame_time_ns == sum_of(times) / at_least_one(iterations)
    &&& r.min_frame_time_ns == of_rank(times, 0)
    &&& r.max_frame_time_ns == of_rank(times, times.len() - 1)
    &&& r.p99_frame_time_ns == of_rank(times, times.len() as int * 99 / 100)
}

proof fn lemma_sum_bounds(s: Seq<u64>)
    ensures
        0 <= sum_of(s) <= s.len() * u64::MAX,
    decreases s.len(),
{
    if s.len() > 0 {
        lemma_sum_bounds(s.drop_last());
        assert((s.len() - 1) * u64::MAX + u64::MAX == s.len() * u64::MAX) by (nonlinear_arith);
    }
}

fn total(times: &[u64]) -> (r: u128)
    ensures
        r == sum_of(times@),
{
    let mut sum: u128 = 0;
    let mut i: usize = 0;
    while i < times.len()
        invariant
            i <= times@.len(),
            sum == sum_of(times@.take(i as int)),
            sum <= i * u64::MAX,
        decreases times@.len() - i,
    {
        assert(times@.take(i + 1).drop_last() =~= times@.take(i as int));
        assert(times@.take(i + 1).last() == times@[i as int]);
        assert(i * u64::MAX + u64::MAX == (i + 1) * u64::MAX) by (nonlinear_arith);
        assert((i + 1) * u64::MAX <= u64::MAX * u64::MAX) by (nonlinear_arith)
            requires
                i + 1 <= u64::MAX,
        ;
        sum = sum + times[i] as u128;
        i = i + 1;
    }
    assert(times@.take(i as int) =~= times@);
    sum
}

fn sorted(times: &[u64]) -> (r: Vec<u64>)
    ensures
        r@ == ranked(times@),
        r@.len() == times@.len(),
{
    let mut v: Vec<u64> = Vec::new();
    let mut i: usize = 0;
    while i < times.len()
        invariant
            i <= times@.len(),
            v@ == times@.take(i as int),
        decreases times@.len() - i,
    {
        v.push(times[i]);
        assert(v@ =~= times@.take(i + 1));
        i = i + 1;
    }
    assert(v@ =~= times@);
    sort_unstable(&mut v);
    proof {
        times@.lemma_sort_by_ensures(ascending());
        assert(sorted_by(v@, ascending()));
        vstd::seq_lib::lemma_sorted_unique(v@, ranked(times@), ascending());
        times@.to_multiset_ensures();
        v@.to_multiset_ensures();
    }
    v
}

/// The statistics of timings: their mean over the iterations, the
/// shortest and longest, and the one that ninety-nine of a hundred do not
/// exceed.
pub fn compute_stats(name: &str, iterations: u64, times: &[u64]) -> (r: BenchmarkResult)
    requires
        sum_of(times@) / at_least_one(iterations) <= u64::MAX,
    ensures
        describes(r, name@, iterations, times@),
{
    let sum: u128 = total(times);
    let over: u64 = if iterations == 0 {
        1
    } else {
        iterations
    };
    let avg: u64 = (sum / over as u128) as u64;
    let v = sorted(times);
    let n: usize = v.len();
    let (min, max, p99): (u64, u64, u64) = if n == 0 {
        (0, 0, 0)
    } else {
        let rank: usize = n / 100 * 99 + n % 100 * 99 / 100;
        assert(rank == n as int * 99 / 100);
        (v[0], v[n - 1], v[rank])
    };
    BenchmarkResult {
        name: name.to_owned(),
        iterations,
        avg_frame_time_ns: avg,
        p99_frame_time_ns: p99,
        min_frame_time_ns: min,
        max_frame_time_ns: max,
        total_frames: iterations,
    }
}

proof fn lemma_mean_fits(s: Seq<u64>, n: u64)
    requires
        s.len() == n,
    ensures
        sum_of(s) / at_least_one(n) <= u64::MAX,
{
    lemma_sum_bounds(s);
    let sum = sum_of(s);
    let over = at_least_one(n);
    assert(sum / over <= u64::MAX) by (nonlinear_arith)
        requires
            0 <= sum <= n * u64::MAX,
            over == n || (n == 0 && over == 1),
            over > 0,
    ;
}

/// The statistics of some timings, one for each iteration.
pub open spec fn timed(r: BenchmarkResult, name: Seq<char>, iterations: u64) -> bool {
    exists|times: Seq<u64>|
        times.len() == iterations && #[trigger] describes(r, name, iterations, times)
}

/// Times how long the members of a large scene take to count.
pub fn bench_scene_traversal() -> (r: BenchmarkResult)
    ensures
        timed(r, "scene_traversal_1000_visuals"@, 1000),
{
    let mut ids: Vec<VisualId> = Vec::new();
    let mut k: u64 = 0;
    while k < 1000
        invariant
            k <= 1000,
        decreases 1000 - k,
    {
        ids.push(VisualId(k));
        k = k + 1;
    }
    let iterations: u64 = 1000;
    let mut times: Vec<u64> = Vec::new();
    let mut i: u64 = 0;
    while i < iterations
        invariant
            i <= iterations,
            times@.len() == i,
        decreases iterations - i,
    {
        let start = now();
        let _count: usize = ids.len();
        times.push(nanos_since(&start));
        i = i + 1;
    }
    proof {
        lemma_mean_fits(times@, iterations);
    }
    compute_stats("scene_traversal_1000_visuals", iterations, times.as_slice())
}

/// Times a round of asking for a frame and having it done.
pub fn bench_scheduler_overhead() -> (r: BenchmarkResult)
    ensures
        timed(r, "scheduler_overhead"@, 10000),
{
    let mut frames = FrameLoop::new(false, None);
    let iterations: u64 = 10000;
    let mut times: Vec<u64> = Vec::new();
    let mut i: u64 = 0;
    while i < iterations
        invariant
            i <= iterations,
            times@.len() == i,
        decreases iterations - i,
    {
        let start = now();
        if i % 2 == 0 {
            frames.schedule_render();
        }
        let _due = frames.needs_render();
        frames.dirty = false;
        times.push(nanos_since(&start));
        i = i + 1;
    }
    proof {
        lemma_mean_fits(times@, iterations);
    }
    compute_stats("scheduler_overhead", iterations, times.as_slice())
}

/// Times the check that an idle compositor makes.
pub fn bench_idle() -> (r: BenchmarkResult)
    ensures
        timed(r, "idle_scheduler_check"@, 10000),
{
    let iterations: u64 = 10000;
    let mut times: Vec<u64> = Vec::new();
    let mut i: u64 = 0;
    while i < iterations
        invariant
            i <= iterations,
            times@.len() == i,
        decreases iterations - i,
    {
        let start = now();
        let frames = FrameLoop::new(false, None);
        let _due = frames.needs_render();
        times.push(nanos_since(&start));
        i = i + 1;
    }
    proof {
        lemma_mean_fits(times@, iterations);
    }
    compute_stats("idle_scheduler_check", iterations, times.as_slice())
}

/// Runs all benchmarks.
pub fn run_benchmarks() -> (r: Vec<BenchmarkResult>)
    ensures
        r@.len() == 3,
        timed(r@[0], "scene_traversal_1000_visuals"@, 1000),
        timed(r@[1], "scheduler_overhead"@, 10000),
        timed(r@[2], "idle_scheduler_check"@, 10000),
{
    let mut results: Vec<BenchmarkResult> = Vec::new();
    results.push(bench_scene_traversal());
    results.push(bench_scheduler_overhead());
    results.push(bench_idle());
    results
}

/// Of any timings, the shortest is no longer than the one of rank
/// ninety-nine in a hundred, nor that longer than the longest.
pub proof fn law_ranks_are_ordered(
    r: BenchmarkResult,
    name: Seq<char>,
    iterations: u64,
    times: Seq<u64>,
)
    requires
        describes(r, name, iterations, times),
    ensures
        r.min_frame_time_ns <= r.p99_frame_time_ns <= r.max_frame_time_ns,
{
    times.lemma_sort_by_ensures(ascending());
    let s = ranked(times);
    times.to_multiset_ensures();
    s.to_multiset_ensures();
    let n = times.len() as int;
    let k = n * 99 / 100;
    if n > 0 {
        assert(0 < n ==> 0 <= k < n);
        assert(0 < k ==> ascending()(s[0], s[k]));
        assert(k < n - 1 ==> ascending()(s[k], s[n - 1]));
    }
}

} // verus!
