use veyra::bench::{
    bench_idle, bench_scene_traversal, bench_scheduler_overhead, compute_stats, run_benchmarks,
};

#[test]
fn run_benchmarks_no_crash() {
    let results = run_benchmarks();
    assert!(!results.is_empty());
    for r in &results {
        assert!(r.iterations > 0);
        assert!(r.avg_frame_time_ns > 0 || r.avg_frame_time_ns == 0);
    }
}

#[test]
fn scheduler_overhead_reasonable() {
    let r = compute_stats("test", 5, &[1, 2, 3, 4, 5]);
    assert_eq!(r.iterations, 5);
    assert!(r.avg_frame_time_ns > 0);
}

#[test]
fn compute_stats_handles_empty() {
    let r = compute_stats("empty", 0, &[]);
    assert_eq!(r.avg_frame_time_ns, 0);
}

#[test]
fn empty_timings_have_zero_ranks() {
    let r = compute_stats("empty", 0, &[]);
    assert_eq!(r.min_frame_time_ns, 0);
    assert_eq!(r.max_frame_time_ns, 0);
    assert_eq!(r.p99_frame_time_ns, 0);
    assert_eq!(r.total_frames, 0);
    assert_eq!(r.name, "empty");
}

#[test]
fn statistics_are_exact() {
    let r = compute_stats("test", 5, &[5, 1, 4, 2, 3]);
    assert_eq!(r.avg_frame_time_ns, 3);
    assert_eq!(r.min_frame_time_ns, 1);
    assert_eq!(r.max_frame_time_ns, 5);
    assert_eq!(r.p99_frame_time_ns, 5);
    assert_eq!(r.total_frames, 5);
}

#[test]
fn the_ninety_ninth_rank_is_found_in_unsorted_timings() {
    let times: Vec<u64> = (0..200).map(|i| (i * 37) % 200).collect();
    let r = compute_stats("ranks", 200, &times);
    assert_eq!(r.p99_frame_time_ns, 198);
    assert_eq!(r.min_frame_time_ns, 0);
    assert_eq!(r.max_frame_time_ns, 199);
    assert!(r.min_frame_time_ns <= r.p99_frame_time_ns);
    assert!(r.p99_frame_time_ns <= r.max_frame_time_ns);
}

#[test]
fn a_mean_over_more_iterations_than_timings_is_divided_by_them() {
    let r = compute_stats("few", 10, &[30, 40]);
    assert_eq!(r.avg_frame_time_ns, 7);
}

#[test]
fn benchmarks_are_named_after_what_they_time() {
    assert_eq!(bench_scene_traversal().name, "scene_traversal_1000_visuals");
    assert_eq!(bench_scheduler_overhead().iterations, 10000);
    let idle = bench_idle();
    assert_eq!(idle.name, "idle_scheduler_check");
    assert!(idle.min_frame_time_ns <= idle.max_frame_time_ns);
}
