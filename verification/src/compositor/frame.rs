//! Frames: when one is due, what its producers delivered, which camera it
//! has, and what becomes of a backend that fails.
use vstd::prelude::*;

use crate::compositor::ledger::{ClientLedger, LedgerModel};
use crate::compositor::state::{
    Effect, GlassModel, LookingGlass, SpatialView, SurfaceId, SurfaceLifecycle, ToplevelInfo,
};
use crate::compositor::terms::{is_visual, lemma_visual, same_but};
use crate::focus::CameraMode;
use crate::id_list::{add_id, contains_id, copy_ids, with_member};
use crate::input::{straight_view, view_of, Camera, CameraView, FLAT_DISTANCE};
use crate::scene::{Scalar, Scene, SceneModel, Visual, VisualId, WindowState};
use crate::table::{bound, dropped, value_of, values, Table};

verus! {

/// Consecutive failures to begin a frame after which the backend is
/// dropped.
pub const BEGIN_FRAME_FAILURE_LIMIT: u32 = 3;

/// Consecutive failures after which a producer is disconnected. One that
/// fails now and then is tolerated.
pub const PRODUCER_ERROR_LIMIT: u32 = 60;

/// Milliseconds between attempts to get a backend back.
pub const BACKEND_RETRY_MS: u64 = 2000;

/// How the backend was made, which decides whether it can be made again.
#[derive(Debug, Clone, Copy, PartialEq, Eq, Structural)]
pub enum BackendOrigin {
    Winit,
    Drm,
}

/// What a frame producer delivered.
#[derive(Debug, Clone, Copy, PartialEq, Eq, Structural)]
pub enum FrameResult {
    Updated,
    Unchanged,
    Resized(u32, u32),
    Error,
    Finished,
}

/// What became of a frame that was handed to the display.
#[derive(Debug, Clone, Copy, PartialEq, Eq, Structural)]
pub enum FrameOutcome {
    Presented,
    ContextLost,
    /// It was not shown this time.
    Failed,
}

/// The number after this one; numbers start over after the last.
pub open spec fn next_number(n: u64) -> u64 {
    if n == u64::MAX {
        0
    } else {
        (n + 1) as u64
    }
}

/// The seat session that owns the display device.
#[derive(Debug, Clone, Copy, PartialEq, Eq, Structural)]
pub enum SeatSession {
    Absent,
    Inactive,
    Active,
}

/// What is to be done about a missing backend.
#[derive(Debug, Clone, Copy, PartialEq, Eq, Structural)]
pub enum Recreation {
    /// Nothing now.
    Leave,
    /// Say once that it cannot be brought back.
    ReportLost,
    /// Try to make it again.
    Attempt,
}

/// The state of the render loop.
#[derive(Debug)]
pub struct FrameLoop {
    pub backend: bool,
    pub backend_origin: Option<BackendOrigin>,
    pub begin_frame_failures: u32,
    pub backend_lost_logged: bool,
    /// When a backend was last tried for.
    pub last_backend_attempt: Option<u64>,
    /// Whether the session is paused; nothing is presented then.
    pub session_paused: bool,
    pub dirty: bool,
    pub animating: bool,
    /// Whether the pacing timer will fire again.
    pub pacing_active: bool,
    pub presentation_seq: u64,
    /// The visuals of the frame producers.
    pub producers: Vec<VisualId>,
    /// Consecutive failures of each producer.
    pub errors: Table,
}

/// The state of the render loop, as a mathematical value.
#[verifier::ext_equal]
pub ghost struct FrameModel {
    pub backend: bool,
    pub backend_origin: Option<BackendOrigin>,
    pub begin_frame_failures: u32,
    pub backend_lost_logged: bool,
    pub last_backend_attempt: Option<u64>,
    pub session_paused: bool,
    pub dirty: bool,
    pub animating: bool,
    pub pacing_active: bool,
    pub presentation_seq: u64,
    pub producers: Seq<VisualId>,
    pub errors: Seq<(u64, u64)>,
}

impl View for FrameLoop {
    type V = FrameModel;

    open spec fn view(&self) -> FrameModel {
        FrameModel {
            backend: self.backend,
            backend_origin: self.backend_origin,
            begin_frame_failures: self.begin_frame_failures,
            backend_lost_logged: self.backend_lost_logged,
            last_backend_attempt: self.last_backend_attempt,
            session_paused: self.session_paused,
            dirty: self.dirty,
            animating: self.animating,
            pacing_active: self.pacing_active,
            presentation_seq: self.presentation_seq,
            producers: self.producers@,
            errors: self.errors@,
        }
    }
}

/// The element at a position replaced by the last one, which goes.
pub open spec fn swapped_out(s: Seq<VisualId>, i: int) -> Seq<VisualId> {
    s.update(i, s.last()).drop_last()
}

/// Milliseconds passed since `then` on a clock that does not go back.
pub open spec fn elapsed(now: u64, then: u64) -> int {
    if now >= then {
        now - then
    } else {
        0
    }
}

impl FrameModel {
    /// A frame wanted.
    pub open spec fn scheduled(self) -> FrameModel {
        FrameModel { dirty: true, ..self }
    }

    /// The session left the front or came back to it. A frame is wanted
    /// when it is back.
    pub open spec fn session_changed(self, active: bool) -> FrameModel {
        if active != self.session_paused {
            self
        } else {
            FrameModel { session_paused: !active, dirty: self.dirty || active, ..self }
        }
    }

    /// What to do about a missing backend now.
    pub open spec fn recreation(self, session: SeatSession, now: u64) -> Recreation {
        if self.backend {
            Recreation::Leave
        } else {
            match self.backend_origin {
                None => Recreation::Leave,
                Some(BackendOrigin::Winit) => if self.backend_lost_logged {
                    Recreation::Leave
                } else {
                    Recreation::ReportLost
                },
                Some(BackendOrigin::Drm) => if self.throttled(now) {
                    Recreation::Leave
                } else {
                    match session {
                        SeatSession::Absent => if self.backend_lost_logged {
                            Recreation::Leave
                        } else {
                            Recreation::ReportLost
                        },
                        SeatSession::Inactive => Recreation::Leave,
                        SeatSession::Active => Recreation::Attempt,
                    }
                },
            }
        }
    }

    /// A backend was tried for too short a while ago.
    pub open spec fn throttled(self, now: u64) -> bool {
        match self.last_backend_attempt {
            Some(t) => elapsed(now, t) < BACKEND_RETRY_MS,
            None => false,
        }
    }

    /// After deciding: the attempt is dated, the report is made once.
    pub open spec fn recreation_decided(self, session: SeatSession, now: u64) -> FrameModel {
        let r = self.recreation(session, now);
        FrameModel {
            last_backend_attempt: if !self.backend && self.backend_origin == Some(
                BackendOrigin::Drm,
            ) && !self.throttled(now) {
                Some(now)
            } else {
                self.last_backend_attempt
            },
            backend_lost_logged: self.backend_lost_logged || r == Recreation::ReportLost,
            ..self
        }
    }

    /// A new backend in place.
    pub open spec fn backend_back(self) -> FrameModel {
        FrameModel {
            backend: true,
            backend_lost_logged: false,
            last_backend_attempt: None,
            ..self
        }
    }

    /// The backend gone with its context; it can be tried for at once.
    pub open spec fn backend_lost(self) -> FrameModel {
        FrameModel { backend: false, last_backend_attempt: None, dirty: false, ..self }
    }

    /// A frame could not begin. The backend goes when that persists.
    pub open spec fn begin_failed(self) -> FrameModel {
        let n = if self.begin_frame_failures == u32::MAX {
            u32::MAX
        } else {
            (self.begin_frame_failures + 1) as u32
        };
        let m = FrameModel { begin_frame_failures: n, dirty: false, ..self };
        if n >= BEGIN_FRAME_FAILURE_LIMIT {
            m.backend_lost()
        } else {
            m
        }
    }

    /// Failures in a row of the producer.
    pub open spec fn failures(self, vid: VisualId) -> int {
        match value_of(self.errors, vid.0) {
            Some(n) => n as int,
            None => 0,
        }
    }

    /// The count after one more failure.
    pub open spec fn failures_after(self, vid: VisualId) -> int {
        if self.failures(vid) < u32::MAX {
            self.failures(vid) + 1
        } else {
            u32::MAX as int
        }
    }

    /// One more producer.
    pub open spec fn with_producer(self, vid: VisualId) -> FrameModel {
        FrameModel { producers: self.producers.push(vid), ..self }
    }

    /// The producer at `i` gone; the last one takes its place.
    pub open spec fn producer_dropped(self, i: int) -> FrameModel {
        FrameModel {
            producers: swapped_out(self.producers, i),
            errors: dropped(self.errors, self.producers[i].0),
            ..self
        }
    }

    /// What the producer at `i` delivered.
    pub open spec fn produced(self, i: int, result: FrameResult) -> FrameModel {
        let vid = self.producers[i];
        match result {
            FrameResult::Updated | FrameResult::Unchanged | FrameResult::Resized(_, _) => {
                FrameModel { errors: dropped(self.errors, vid.0), ..self }
            },
            FrameResult::Error => if self.failures_after(vid) >= PRODUCER_ERROR_LIMIT {
                self.producer_dropped(i)
            } else {
                FrameModel {
                    errors: bound(self.errors, vid.0, self.failures_after(vid) as u64),
                    ..self
                }
            },
            FrameResult::Finished => self.producer_dropped(i),
        }
    }

    /// The producer at `i` is gone after what it delivered.
    pub open spec fn gives_out(self, i: int, result: FrameResult) -> bool {
        match result {
            FrameResult::Error => self.failures_after(self.producers[i]) >= PRODUCER_ERROR_LIMIT,
            FrameResult::Finished => true,
            _ => false,
        }
    }

    /// The scene after what the producer at `i` delivered: a new size is
    /// adopted, and a producer that is gone leaves its visual without a
    /// source.
    pub open spec fn produced_scene(self, scene: SceneModel, i: int, result: FrameResult) -> SceneModel {
        let vid = self.producers[i];
        match result {
            FrameResult::Resized(w, h) => scene.resized(vid, w as i32, h as i32),
            _ => if self.gives_out(i, result) {
                scene.disconnected(vid)
            } else {
                scene
            },
        }
    }

    /// A frame is due without anybody asking again.
    pub open spec fn needs_render(self) -> bool {
        self.dirty || self.animating
    }
}

/// The producer's texture has to be shown anew.
pub open spec fn is_fresh(result: FrameResult) -> bool {
    match result {
        FrameResult::Updated | FrameResult::Resized(_, _) => true,
        _ => false,
    }
}

/// A delivery: the producer is kept, and what failed before it no longer
/// counts.
pub open spec fn is_accepted(result: FrameResult) -> bool {
    match result {
        FrameResult::Updated | FrameResult::Unchanged | FrameResult::Resized(_, _) => true,
        FrameResult::Error | FrameResult::Finished => false,
    }
}

/// Whether a producer is kept after its first delivery.
pub fn producer_accepted(result: FrameResult) -> (r: bool)
    ensures
        r == is_accepted(result),
{
    match result {
        FrameResult::Updated => true,
        FrameResult::Unchanged => true,
        FrameResult::Resized(_, _) => true,
        FrameResult::Error => false,
        FrameResult::Finished => false,
    }
}

/// Pixels between the benchmark visuals.
pub const BENCH_SPACING: i32 = 160;

/// Where the benchmark visual `index` of `total` stands in a grid of
/// `columns`, and whether its row is turned.
pub open spec fn bench_cell(index: int, total: int, columns: int) -> (int, int, bool) {
    (
        (index % columns) * BENCH_SPACING - (columns * BENCH_SPACING) / 2,
        (index / columns) * BENCH_SPACING - (total / columns * BENCH_SPACING) / 2,
        (index / columns) % 2 == 1,
    )
}

/// Where a benchmark visual stands. `columns` is the square root of the
/// total, rounded up.
pub fn benchmark_cell(index: usize, total: usize, columns: i32) -> (r: (i32, i32, bool))
    requires
        0 < columns <= 46340,
        index < total <= columns * columns,
    ensures
        (r.0 as int, r.1 as int, r.2) == bench_cell(index as int, total as int, columns as int),
{
    assert(columns * columns <= 46340 * 46340) by (nonlinear_arith)
        requires
            0 < columns <= 46340,
    ;
    let i: i32 = index as i32;
    let n: i32 = total as i32;
    assert(0 <= i / columns <= columns && 0 <= n / columns <= columns) by (nonlinear_arith)
        requires
            0 <= i < n <= columns * columns,
            0 < columns,
    ;
    let x: i32 = (i % columns) * BENCH_SPACING - (columns * BENCH_SPACING) / 2;
    let y: i32 = (i / columns) * BENCH_SPACING - (n / columns * BENCH_SPACING) / 2;
    (x, y, (i / columns) % 2 == 1)
}

/// Nanoseconds reported between frames of a mode.
pub open spec fn refresh_nanos(refresh_mhz: i32) -> int {
    if refresh_mhz > 0 {
        1_000_000_000int / (refresh_mhz as int)
    } else {
        16_000_000
    }
}

pub fn refresh_interval(refresh_mhz: i32) -> (r: u64)
    ensures
        r == refresh_nanos(refresh_mhz),
{
    if refresh_mhz > 0 {
        let ns: u64 = 1_000_000_000;
        ns / (refresh_mhz as u64)
    } else {
        16_000_000
    }
}

/// Toplevels that wait for a frame: mapped or about to be, with an
/// unanswered callback.
pub open spec fn some_wait(s: Seq<ToplevelInfo>, waiting: Seq<SurfaceId>) -> bool {
    exists|i: int|
        0 <= i < s.len() && ((#[trigger] s[i]).lifecycle == SurfaceLifecycle::Mapped
            || s[i].lifecycle == SurfaceLifecycle::Configured) && waiting.contains(s[i].surface)
}

/// Visuals of the workspace that layout moves.
pub open spec fn is_fitted(detached: Seq<VisualId>, members: Seq<VisualId>) -> spec_fn(
    Visual,
) -> bool {
    |v: Visual| !detached.contains(v.id) && members.contains(v.id)
}

/// Visuals of the workspace that are there to be seen.
pub open spec fn is_framed(members: Seq<VisualId>) -> spec_fn(Visual) -> bool {
    |v: Visual| v.window_state != WindowState::Minimized && members.contains(v.id)
}

/// What the pacing timer does after it fired.
#[derive(Debug, Clone, Copy, PartialEq, Eq, Structural)]
pub enum PacingStep {
    FireAgain,
    Drop,
}

impl FrameLoop {
    pub fn new(backend: bool, backend_origin: Option<BackendOrigin>) -> (r: Self)
        ensures
            r@ == (FrameModel {
                backend,
                backend_origin,
                begin_frame_failures: 0,
                backend_lost_logged: false,
                last_backend_attempt: None,
                session_paused: false,
                dirty: false,
                animating: false,
                pacing_active: false,
                presentation_seq: 0,
                producers: Seq::empty(),
                errors: Seq::empty(),
            }),
    {
        FrameLoop {
            backend,
            backend_origin,
            begin_frame_failures: 0,
            backend_lost_logged: false,
            last_backend_attempt: None,
            session_paused: false,
            dirty: false,
            animating: false,
            pacing_active: false,
            presentation_seq: 0,
            producers: Vec::new(),
            errors: Table::new(),
        }
    }

    /// A frame is wanted.
    pub fn schedule_render(&mut self)
        ensures
            final(self)@ == old(self)@.scheduled(),
    {
        self.dirty = true;
    }

    /// Takes in whether the seat's session is in front.
    pub fn session_changed(&mut self, active: bool)
        ensures
            final(self)@ == old(self)@.session_changed(active),
    {
        if active == self.session_paused {
            self.session_paused = !active;
            if active {
                self.schedule_render();
            }
        }
    }

    pub fn needs_render(&self) -> (r: bool)
        ensures
            r == self@.needs_render(),
    {
        self.dirty || self.animating
    }

    /// Begins to render. Returns false while the session is paused: the
    /// display is not ours then. Otherwise a selection whose owner died
    /// is offered anew, and focus on a visual that is gone is given up.
    pub fn begin_render(&mut self, glass: &mut LookingGlass, ledger: &mut ClientLedger) -> (r: bool)
        ensures
            r == !old(self)@.session_paused,
            final(self)@ == (FrameModel { dirty: false, ..old(self)@ }),
            final(ledger)@ == if r {
                LedgerModel { refresh_pending: false, ..old(ledger)@ }
            } else {
                old(ledger)@
            },
            final(glass)@ == if r {
                let m = if old(ledger)@.refresh_pending {
                    old(glass)@.ordering(Effect::OfferSelections)
                } else {
                    old(glass)@
                };
                m.stale_focus_cleared()
            } else {
                old(glass)@
            },
    {
        self.dirty = false;
        if self.session_paused {
            return false;
        }
        if ledger.take_refresh() {
            glass.order(Effect::OfferSelections);
        }
        glass.clear_stale_focus();
        true
    }

    fn throttled(&self, now: u64) -> (r: bool)
        ensures
            r == self@.throttled(now),
    {
        match self.last_backend_attempt {
            Some(t) => {
                let passed: u64 = now.saturating_sub(t);
                passed < BACKEND_RETRY_MS
            },
            None => false,
        }
    }

    /// Decides what to do about a missing backend. A nested window cannot
    /// be made again and that is reported once; a display device is tried
    /// for again, not too often, while the seat is ours.
    pub fn try_recreate_backend(&mut self, session: SeatSession, now: u64) -> (r: Recreation)
        ensures
            r == old(self)@.recreation(session, now),
            final(self)@ == old(self)@.recreation_decided(session, now),
    {
        if self.backend {
            return Recreation::Leave;
        }
        match self.backend_origin {
            None => Recreation::Leave,
            Some(BackendOrigin::Winit) => {
                if self.backend_lost_logged {
                    return Recreation::Leave;
                }
                self.backend_lost_logged = true;
                Recreation::ReportLost
            },
            Some(BackendOrigin::Drm) => {
                if self.throttled(now) {
                    return Recreation::Leave;
                }
                self.last_backend_attempt = Some(now);
                match session {
                    SeatSession::Absent => {
                        if self.backend_lost_logged {
                            return Recreation::Leave;
                        }
                        self.backend_lost_logged = true;
                        Recreation::ReportLost
                    },
                    SeatSession::Inactive => Recreation::Leave,
                    SeatSession::Active => Recreation::Attempt,
                }
            },
        }
    }

    /// A new backend is in place.
    pub fn backend_recreated(&mut self)
        ensures
            final(self)@ == old(self)@.backend_back(),
    {
        self.backend = true;
        self.backend_lost_logged = false;
        self.last_backend_attempt = None;
    }

    /// The backend's context was lost.
    pub fn context_lost(&mut self)
        ensures
            final(self)@ == old(self)@.backend_lost(),
    {
        self.backend = false;
        self.last_backend_attempt = None;
        self.dirty = false;
    }

    /// A frame could not begin. Returns whether the backend was dropped
    /// for it: a failure may pass, but not for ever.
    pub fn begin_frame_failed(&mut self) -> (r: bool)
        ensures
            final(self)@ == old(self)@.begin_failed(),
            r == (final(self)@.begin_frame_failures >= BEGIN_FRAME_FAILURE_LIMIT),
    {
        self.begin_frame_failures = self.begin_frame_failures.saturating_add(1);
        self.dirty = false;
        if self.begin_frame_failures >= BEGIN_FRAME_FAILURE_LIMIT {
            self.context_lost();
            true
        } else {
            false
        }
    }

    /// A frame began.
    pub fn begin_frame_succeeded(&mut self)
        ensures
            final(self)@ == (FrameModel { begin_frame_failures: 0, ..old(self)@ }),
    {
        self.begin_frame_failures = 0;
    }

    /// A frame was handed to the display. The number it is answered with,
    /// unless the context was lost; a display that was merely busy does
    /// not keep clients waiting.
    pub fn finish_frame(&mut self, outcome: FrameOutcome) -> (r: Option<u64>)
        ensures
            r == if outcome == FrameOutcome::ContextLost {
                None
            } else {
                Some(next_number(old(self)@.presentation_seq))
            },
            final(self)@ == match r {
                Some(n) => FrameModel { presentation_seq: n, ..old(self)@ },
                None => old(self)@.backend_lost(),
            },
    {
        match outcome {
            FrameOutcome::ContextLost => {
                self.context_lost();
                None
            },
            FrameOutcome::Presented | FrameOutcome::Failed => {
                self.presentation_seq = self.presentation_seq.wrapping_add(1);
                Some(self.presentation_seq)
            },
        }
    }

    fn drop_producer(&mut self, i: usize)
        requires
            i < old(self)@.producers.len(),
        ensures
            final(self)@ == old(self)@.producer_dropped(i as int),
    {
        let vid = self.producers[i];
        self.errors.remove(vid.0);
        self.producers.swap_remove(i);
        assert(self.producers@ =~= swapped_out(old(self)@.producers, i as int));
    }

    /// A producer joins with the visual of its first delivery, unless that
    /// failed or there is no backend. `has_sink` tells whether it takes
    /// input.
    pub fn add_producer(
        &mut self,
        glass: &mut LookingGlass,
        result: FrameResult,
        visual: Visual,
        has_sink: bool,
    ) -> (r: Option<VisualId>)
        requires
            old(glass)@.wf(),
        ensures
            r == if old(self)@.backend && is_accepted(result) {
                Some(visual.id)
            } else {
                None
            },
            final(self)@ == if r is Some {
                old(self)@.with_producer(visual.id)
            } else {
                old(self)@
            },
            final(glass)@ == if r is Some {
                old(glass)@.with_producer(visual, has_sink)
            } else {
                old(glass)@
            },
    {
        if !self.backend || !producer_accepted(result) {
            return None;
        }
        if has_sink {
            add_id(&mut glass.input_sinks, visual.id);
        }
        glass.scene.add(visual);
        let here: usize = glass.workspace_manager.active_id();
        glass.workspace_manager.join(here, visual.id);
        self.producers.push(visual.id);
        Some(visual.id)
    }

    /// A benchmark's producer joins, off every workspace, if its texture
    /// is ready at once.
    pub fn add_benchmark_visual(
        &mut self,
        scene: &mut Scene,
        result: FrameResult,
        visual: Visual,
    ) -> (r: bool)
        ensures
            r == (old(self)@.backend && result == FrameResult::Unchanged),
            final(self)@ == if r {
                old(self)@.with_producer(visual.id)
            } else {
                old(self)@
            },
            final(scene)@ == if r {
                old(scene)@.added(visual)
            } else {
                old(scene)@
            },
    {
        if !self.backend || result != FrameResult::Unchanged {
            return false;
        }
        scene.add(visual);
        self.producers.push(visual.id);
        true
    }

    /// Takes in what the producer at `i` delivered. Returns the position
    /// of the next producer, and whether this one's texture is new.
    pub fn producer_result(&mut self, scene: &mut Scene, i: usize, result: FrameResult) -> (r: (
        usize,
        bool,
    ))
        requires
            i < old(self)@.producers.len(),
        ensures
            r.0 == if old(self)@.gives_out(i as int, result) {
                i as int
            } else {
                i + 1
            },
            r.1 == is_fresh(result),
            final(self)@ == old(self)@.produced(i as int, result),
            final(scene)@ == old(self)@.produced_scene(old(scene)@, i as int, result),
    {
        assert(i < self.producers.len());
        let vid = self.producers[i];
        match result {
            FrameResult::Updated => {
                self.errors.remove(vid.0);
                (i + 1, true)
            },
            FrameResult::Unchanged => {
                self.errors.remove(vid.0);
                (i + 1, false)
            },
            FrameResult::Resized(w, h) => {
                scene.set_size(vid, w as i32, h as i32);
                self.errors.remove(vid.0);
                (i + 1, true)
            },
            FrameResult::Error => {
                let before: u64 = match self.errors.get(vid.0) {
                    Some(n) => n,
                    None => 0,
                };
                let count: u64 = if before < u32::MAX as u64 {
                    before + 1
                } else {
                    u32::MAX as u64
                };
                if count >= PRODUCER_ERROR_LIMIT as u64 {
                    scene.disconnect(vid);
                    self.drop_producer(i);
                    (i, false)
                } else {
                    self.errors.insert(vid.0, count);
                    (i + 1, false)
                }
            },
            FrameResult::Finished => {
                scene.disconnect(vid);
                self.drop_producer(i);
                (i, false)
            },
        }
    }

    /// Whether a frame must be produced now: something changed, something
    /// moves, or a client waits for one.
    pub fn should_render(&self, glass: &LookingGlass, waiting: &Vec<SurfaceId>) -> (r: bool)
        ensures
            r == (self@.needs_render() || some_wait(glass@.toplevels, waiting@)),
    {
        self.needs_render() || glass.has_pending_frame_callbacks(waiting)
    }

    /// The tail of the render loop's pump, after a dirty frame was
    /// rendered: arms the pacing timer while there is work and it is not
    /// armed. Returns whether a timer has to be set.
    pub fn pump_render_loop(&mut self, should_render: bool) -> (r: bool)
        ensures
            r == (should_render && !old(self)@.pacing_active),
            final(self)@ == (FrameModel {
                pacing_active: old(self)@.pacing_active || should_render,
                ..old(self)@
            }),
    {
        if should_render && !self.pacing_active {
            self.pacing_active = true;
            true
        } else {
            false
        }
    }

    /// The pacing timer fired. It fires again only while there is work,
    /// so that an idle compositor wakes for nothing.
    pub fn pacing_fired(&mut self, should_render: bool) -> (r: PacingStep)
        ensures
            r == if should_render {
                PacingStep::FireAgain
            } else {
                PacingStep::Drop
            },
            final(self)@ == (FrameModel {
                pacing_active: old(self)@.pacing_active && should_render,
                ..old(self)@
            }),
    {
        if should_render {
            PacingStep::FireAgain
        } else {
            self.pacing_active = false;
            PacingStep::Drop
        }
    }

    /// Animation goes on while the camera is on its way or orbits.
    pub fn note_animation(&mut self, glass: &LookingGlass)
        requires
            glass@.wf(),
        ensures
            final(self)@ == (FrameModel {
                animating: glass@.focus_manager.transition is Some
                    || glass@.workspaces.current().auto_orbit,
                ..old(self)@
            }),
    {
        self.animating = glass.focus_manager.transition.is_some()
            || glass.workspace_manager.active().auto_orbit;
    }
}

impl GlassModel {
    /// The camera as a frame has it, and the glide, if any, towards it. In
    /// the flat view nothing glides.
    pub open spec fn camera_prepared(
        self,
        orbit: (Scalar, Scalar),
        fitted: CameraView,
    ) -> GlassModel {
        let m = self.camera_set(orbit, fitted);
        GlassModel {
            focus_manager: if m.spatial.spatial_mode {
                m.focus_manager.aimed_at(m.camera)
            } else {
                m.focus_manager.arrived()
            },
            ..m
        }
    }

    /// The camera as a frame has it: pinned in the flat view, turned by
    /// the orbit, or fitted once when spatial mode is first seen.
    pub open spec fn camera_set(self, orbit: (Scalar, Scalar), fitted: CameraView) -> GlassModel {
        if !self.spatial.spatial_mode {
            self.looking(straight_view(FLAT_DISTANCE))
        } else if self.workspaces.current().auto_orbit {
            GlassModel {
                camera: Camera { yaw: orbit.0, pitch: orbit.1, ..self.camera },
                ..self
            }
        } else if !self.spatial.spatial_cam_adapted && self.spatial.spatial_cam_pose is None
            && self.focus_manager.transition is None {
            GlassModel {
                spatial: SpatialView { spatial_cam_adapted: true, ..self.spatial },
                ..self
            }.looking(fitted)
        } else {
            self
        }
    }

    /// A producer's visual in the scene, on the shown workspace.
    pub open spec fn with_producer(self, v: Visual, has_sink: bool) -> GlassModel {
        GlassModel {
            sinks: if has_sink {
                with_member(self.sinks, v.id)
            } else {
                self.sinks
            },
            scene: self.scene.added(v),
            workspaces: self.workspaces.joined(self.workspaces.active, v.id),
            ..self
        }
    }

    /// The visuals a frame shows; everything in the overview of the
    /// workspaces.
    pub open spec fn frame_visuals(self) -> Option<Seq<VisualId>> {
        if self.focus_manager.camera_mode == CameraMode::WorkspaceOverview {
            None
        } else {
            Some(self.workspaces.current().visual_ids)
        }
    }
}

impl LookingGlass {
    /// Whether a mapped client waits for a frame; `waiting` holds the
    /// surfaces with an unanswered callback.
    pub fn has_pending_frame_callbacks(&self, waiting: &Vec<SurfaceId>) -> (r: bool)
        ensures
            r == some_wait(self@.toplevels, waiting@),
    {
        let mut i: usize = 0;
        while i < self.toplevels.len()
            invariant
                i <= self.toplevels@.len(),
                forall|j: int|
                    0 <= j < i ==> !(((#[trigger] self.toplevels@[j]).lifecycle
                        == SurfaceLifecycle::Mapped || self.toplevels@[j].lifecycle
                        == SurfaceLifecycle::Configured) && waiting@.contains(
                        self.toplevels@[j].surface,
                    )),
            decreases self.toplevels@.len() - i,
        {
            let shown = match self.toplevels[i].lifecycle {
                SurfaceLifecycle::Mapped => true,
                SurfaceLifecycle::Configured => true,
                _ => false,
            };
            if shown && contains_surface(waiting, self.toplevels[i].surface) {
                assert(waiting@.contains(self@.toplevels[i as int].surface));
                return true;
            }
            i = i + 1;
        }
        false
    }

    /// The surfaces whose clients a frame answers: every one that is
    /// shown.
    pub fn answered_surfaces(&self) -> (r: Vec<SurfaceId>)
        ensures
            r@ == values(self@.surfaces),
    {
        self.wayland_surfaces.values()
    }

    /// Input of the visual goes to its own sink from now on.
    pub fn register_input_sink(&mut self, vid: VisualId)
        ensures
            final(self)@ == (GlassModel {
                sinks: with_member(old(self)@.sinks, vid),
                ..old(self)@
            }),
    {
        add_id(&mut self.input_sinks, vid);
    }

    /// The visuals that an automatic fit has to bring into view: those of
    /// the shown workspace that layout moves.
    pub fn fitted_visuals(&self) -> (r: Vec<Visual>)
        requires
            self@.wf(),
        ensures
            r@ == self@.scene.visuals.filter(
                is_fitted(self@.scene.detached_set, self@.workspaces.current().visual_ids),
            ),
    {
        let ghost s = self@.scene.visuals;
        let ghost p = is_fitted(self@.scene.detached_set, self@.workspaces.current().visual_ids);
        let mut out: Vec<Visual> = Vec::new();
        let mut i: usize = 0;
        assert(s.take(0).filter(p) =~= Seq::empty()) by {
            reveal(Seq::filter);
        }
        while i < self.scene.visuals.len()
            invariant
                self@.wf(),
                i <= self.scene.visuals@.len(),
                s == self.scene.visuals@,
                p == is_fitted(self@.scene.detached_set, self@.workspaces.current().visual_ids),
                out@ == s.take(i as int).filter(p),
            decreases self.scene.visuals@.len() - i,
        {
            let v = self.scene.visuals[i];
            proof {
                reveal(Seq::filter);
                assert(s.take(i + 1).drop_last() =~= s.take(i as int));
                assert(s.take(i + 1).last() == v);
            }
            if !contains_id(&self.scene.detached_set, v.id) && contains_id(
                &self.workspace_manager.active().visual_ids,
                v.id,
            ) {
                assert(p(v));
                out.push(v);
            } else {
                assert(!p(v));
            }
            i = i + 1;
        }
        assert(s.take(i as int) =~= s);
        out
    }

    /// The visuals that the whole room is: those of the shown workspace
    /// that are not minimized.
    pub fn framed_visuals(&self) -> (r: Vec<Visual>)
        requires
            self@.wf(),
        ensures
            r@ == self@.scene.visuals.filter(is_framed(self@.workspaces.current().visual_ids)),
    {
        let ghost s = self@.scene.visuals;
        let ghost p = is_framed(self@.workspaces.current().visual_ids);
        let mut out: Vec<Visual> = Vec::new();
        let mut i: usize = 0;
        assert(s.take(0).filter(p) =~= Seq::empty()) by {
            reveal(Seq::filter);
        }
        while i < self.scene.visuals.len()
            invariant
                self@.wf(),
                i <= self.scene.visuals@.len(),
                s == self.scene.visuals@,
                p == is_framed(self@.workspaces.current().visual_ids),
                out@ == s.take(i as int).filter(p),
            decreases self.scene.visuals@.len() - i,
        {
            let v = self.scene.visuals[i];
            proof {
                reveal(Seq::filter);
                assert(s.take(i + 1).drop_last() =~= s.take(i as int));
                assert(s.take(i + 1).last() == v);
            }
            if v.window_state != WindowState::Minimized && contains_id(
                &self.workspace_manager.active().visual_ids,
                v.id,
            ) {
                assert(p(v));
                out.push(v);
            } else {
                assert(!p(v));
            }
            i = i + 1;
        }
        assert(s.take(i as int) =~= s);
        out
    }

    /// Sets the camera for a frame. `orbit` is the yaw and pitch of the
    /// orbit now, `fitted` the view that fits the workspace plane.
    pub fn prepare_camera(&mut self, orbit: (Scalar, Scalar), fitted: CameraView)
        requires
            old(self)@.wf(),
        ensures
            final(self)@ == old(self)@.camera_prepared(orbit, fitted),
    {
        if !self.spatial.spatial_mode {
            self.camera.move_to(CameraView::straight(FLAT_DISTANCE));
        } else if self.workspace_manager.active().auto_orbit {
            self.camera.yaw = orbit.0;
            self.camera.pitch = orbit.1;
        } else if !self.spatial.spatial_cam_adapted && self.spatial.spatial_cam_pose.is_none()
            && self.focus_manager.transition.is_none() {
            self.spatial.spatial_cam_adapted = true;
            self.camera.move_to(fitted);
        }
        if self.spatial.spatial_mode {
            let camera = self.camera;
            self.focus_manager.aim(&camera);
        } else {
            self.focus_manager.arrive();
        }
    }

    /// The visuals that a frame shows; nothing stands for all of them.
    pub fn frame_visuals(&self) -> (r: Option<Vec<VisualId>>)
        requires
            self@.wf(),
        ensures
            match (r, self@.frame_visuals()) {
                (Some(v), Some(s)) => v@ == s,
                (None, None) => true,
                _ => false,
            },
    {
        match self.focus_manager.camera_mode {
            CameraMode::WorkspaceOverview => None,
            _ => Some(copy_ids(&self.workspace_manager.active().visual_ids)),
        }
    }
}

fn contains_surface(s: &Vec<SurfaceId>, surface: SurfaceId) -> (r: bool)
    ensures
        r == s@.contains(surface),
{
    let mut i: usize = 0;
    while i < s.len()
        invariant
            i <= s@.len(),
            forall|j: int| 0 <= j < i ==> s@[j] != surface,
        decreases s@.len() - i,
    {
        if s[i] == surface {
            assert(s@[i as int] == surface);
            return true;
        }
        i = i + 1;
    }
    false
}

/// A producer that delivers between its failures is never disconnected
/// for them: a delivery starts the count anew.
pub proof fn law_delivery_forgives_failures(m: FrameModel, i: int, result: FrameResult)
    requires
        0 <= i < m.producers.len(),
        is_accepted(result),
    ensures
        m.produced(i, result).failures(m.producers[i]) == 0,
        m.produced(i, result).producers == m.producers,
{
    crate::table::law_dropped_key_is_gone(m.errors, m.producers[i].0, 0);
}

/// Each failure counts one more, and the last one that is tolerated is
/// the one before the limit.
pub proof fn law_failures_add_up(m: FrameModel, i: int)
    requires
        0 <= i < m.producers.len(),
        m.failures(m.producers[i]) < PRODUCER_ERROR_LIMIT - 1,
    ensures
        m.produced(i, FrameResult::Error).failures(m.producers[i]) == m.failures(m.producers[i])
            + 1,
        m.produced(i, FrameResult::Error).producers == m.producers,
        !m.gives_out(i, FrameResult::Error),
{
    crate::table::law_bound_key_is_found(
        m.errors,
        m.producers[i].0,
        m.failures_after(m.producers[i]) as u64,
        0,
    );
}

/// The producer at `i` failed this many times in a row.
pub open spec fn failing(m: FrameModel, i: int, times: nat) -> FrameModel
    decreases times,
{
    if times == 0 {
        m
    } else {
        failing(m, i, (times - 1) as nat).produced(i, FrameResult::Error)
    }
}

/// A producer that has delivered stays through any number of failures in a
/// row below the limit, and goes with the one that reaches it.
pub proof fn law_producer_goes_at_the_limit(m: FrameModel, i: int, times: nat)
    requires
        0 <= i < m.producers.len(),
        m.failures(m.producers[i]) == 0,
        times <= PRODUCER_ERROR_LIMIT,
    ensures
        times < PRODUCER_ERROR_LIMIT ==> failing(m, i, times).producers == m.producers && failing(
            m,
            i,
            times,
        ).failures(m.producers[i]) == times,
        times == PRODUCER_ERROR_LIMIT ==> failing(m, i, times).producers == swapped_out(
            m.producers,
            i,
        ) && failing(m, i, times).failures(m.producers[i]) == 0,
    decreases times,
{
    if times > 0 {
        let before = failing(m, i, (times - 1) as nat);
        law_producer_goes_at_the_limit(m, i, (times - 1) as nat);
        if times < PRODUCER_ERROR_LIMIT {
            law_failures_add_up(before, i);
        } else {
            crate::table::law_dropped_key_is_gone(before.errors, before.producers[i].0, 0);
        }
    }
}

/// A backend that was lost is tried for at once, and then not again until
/// the interval has passed.
pub proof fn law_attempts_are_spaced(m: FrameModel, now: u64, later: u64)
    requires
        m.backend_origin == Some(BackendOrigin::Drm),
        now <= later < now + BACKEND_RETRY_MS,
    ensures
        m.backend_lost().recreation(SeatSession::Active, now) == Recreation::Attempt,
        m.backend_lost().recreation_decided(SeatSession::Active, now).recreation(
            SeatSession::Active,
            later,
        ) == Recreation::Leave,
{
}

/// A lost nested window is reported once.
pub proof fn law_loss_is_reported_once(m: FrameModel, session: SeatSession, now: u64, later: u64)
    requires
        m.backend_origin == Some(BackendOrigin::Winit),
        !m.backend,
    ensures
        m.recreation_decided(session, now).recreation(session, later) == Recreation::Leave,
{
}

/// The backend survives failures to begin a frame up to the limit, and
/// goes with the one that reaches it.
pub proof fn law_backend_goes_at_the_limit(m: FrameModel)
    requires
        m.backend,
        m.begin_frame_failures < BEGIN_FRAME_FAILURE_LIMIT,
    ensures
        m.begin_failed().backend <==> m.begin_frame_failures + 1 < BEGIN_FRAME_FAILURE_LIMIT,
{
}

/// In the flat view the camera is pinned and nothing glides.
pub proof fn law_flat_view_is_pinned(m: GlassModel, orbit: (Scalar, Scalar), fitted: CameraView)
    requires
        !m.spatial.spatial_mode,
    ensures
        !m.camera_prepared(orbit, fitted).focus_manager.gliding(),
        view_of(m.camera_prepared(orbit, fitted).camera) == straight_view(FLAT_DISTANCE),
{
}

/// A glide heads for the camera wherever that is by now, so that it ends
/// without a jump.
pub proof fn law_glide_heads_for_the_camera(
    m: GlassModel,
    orbit: (Scalar, Scalar),
    fitted: CameraView,
)
    requires
        m.spatial.spatial_mode,
        m.focus_manager.gliding(),
    ensures
        ({
            let n = m.camera_prepared(orbit, fitted);
            &&& n.focus_manager.gliding()
            &&& n.focus_manager.transition.unwrap().target_camera == n.camera
            &&& n.focus_manager.transition.unwrap().progress
                == m.focus_manager.transition.unwrap().progress
        }),
{
}

/// A session that comes back to the front gets a frame, and one that left
/// it presents nothing until then.
pub proof fn law_session_comes_back(m: FrameModel)
    ensures
        m.session_changed(false).session_paused,
        !m.session_changed(false).session_changed(true).session_paused,
        m.session_changed(false).session_changed(true).dirty,
{
}

/// A missing backend is left be while it is there or nothing is known of
/// where it came from; a nested window is reported lost, once; a display
/// device is tried for while the seat is ours, two seconds after the
/// last try or later.
pub proof fn law_missing_backend_is_seen_to(m: FrameModel, session: SeatSession, now: u64)
    ensures
        m.backend ==> m.recreation(session, now) == Recreation::Leave && m.recreation_decided(
            session,
            now,
        ) == m,
        m.backend_origin is None ==> m.recreation(session, now) == Recreation::Leave,
        !m.backend && m.backend_origin == Some(BackendOrigin::Winit) && !m.backend_lost_logged
            ==> m.recreation(session, now) == Recreation::ReportLost && m.recreation_decided(
            session,
            now,
        ).backend_lost_logged,
        !m.backend && m.backend_origin == Some(BackendOrigin::Drm) && (m.last_backend_attempt
            matches Some(t) ==> now >= t + 2000) ==> {
            &&& m.recreation_decided(session, now).last_backend_attempt == Some(now)
            &&& session == SeatSession::Active ==> m.recreation(session, now)
                == Recreation::Attempt
            &&& session == SeatSession::Inactive ==> m.recreation(session, now)
                == Recreation::Leave
            &&& session == SeatSession::Absent && !m.backend_lost_logged ==> m.recreation(
                session,
                now,
            ) == Recreation::ReportLost
        },
        !m.backend && m.backend_origin == Some(BackendOrigin::Drm) && (m.last_backend_attempt
            matches Some(t) && t <= now < t + 2000) ==> m.recreation(session, now)
            == Recreation::Leave && m.recreation_decided(session, now) == m,
{
}

/// A new size that a producer delivers is its visual's, width first; a
/// producer that is done leaves its visual without a source; and any other
/// delivery leaves the scene as it is.
pub proof fn law_delivery_changes_its_visual(
    m: FrameModel,
    scene: SceneModel,
    k: int,
    i: int,
    w: u32,
    h: u32,
)
    requires
        0 <= k < m.producers.len(),
        is_visual(scene, m.producers[k], i),
    ensures
        ({
            let r = m.produced_scene(scene, k, FrameResult::Resized(w, h));
            let d = m.produced_scene(scene, k, FrameResult::Finished);
            &&& r.visuals[i] == (Visual { width: w as i32, height: h as i32, ..scene.visuals[i] })
            &&& same_but(scene, r, i)
            &&& !d.visuals[i].connected
            &&& d.visuals[i].transform == scene.visuals[i].transform
            &&& same_but(scene, d, i)
            &&& m.produced_scene(scene, k, FrameResult::Updated) == scene
            &&& m.produced_scene(scene, k, FrameResult::Unchanged) == scene
        }),
{
    lemma_visual(scene, m.producers[k], i);
}

/// A producer joins with its visual on the shown workspace, last in the
/// scene, and takes input where it has a sink.
pub proof fn law_producer_joins_with_its_visual(m: GlassModel, v: Visual, has_sink: bool)
    requires
        m.wf(),
        !m.sinks.contains(v.id),
    ensures
        ({
            let n = m.with_producer(v, has_sink);
            &&& n.scene.visuals == m.scene.visuals.push(v)
            &&& n.workspaces.active == m.workspaces.active
            &&& n.workspaces.all[m.workspaces.active].visual_ids.contains(v.id)
            &&& n.sinks.contains(v.id) == has_sink
        }),
{
    let ids = m.workspaces.all[m.workspaces.active].visual_ids;
    let joined = with_member(ids, v.id);
    assert(joined.contains(v.id)) by {
        if !ids.contains(v.id) {
            assert(joined[joined.len() - 1] == v.id);
        }
    }
    let sinks = with_member(m.sinks, v.id);
    assert(sinks[sinks.len() - 1] == v.id);
}

/// The time between frames and the rate make up a second: the time is the
/// whole part of their quotient.
pub proof fn law_refresh_makes_up_a_second(refresh_mhz: i32)
    ensures
        refresh_mhz > 0 ==> refresh_nanos(refresh_mhz) * refresh_mhz <= 1_000_000_000 < (
        refresh_nanos(refresh_mhz) + 1) * refresh_mhz,
        refresh_mhz <= 0 ==> refresh_nanos(refresh_mhz) == 16_000_000,
{
    if refresh_mhz > 0 {
        let q = 1_000_000_000int / (refresh_mhz as int);
        vstd::arithmetic::div_mod::lemma_fundamental_div_mod(1_000_000_000, refresh_mhz as int);
        vstd::arithmetic::div_mod::lemma_mod_bound(1_000_000_000, refresh_mhz as int);
        assert(q * refresh_mhz == refresh_mhz * q) by (nonlinear_arith);
        assert((q + 1) * refresh_mhz == refresh_mhz * q + refresh_mhz) by (nonlinear_arith);
    }
}

/// The third failure in a row to begin a frame takes the backend, the
/// sixtieth of a producer takes the producer, and none before it does.
pub proof fn law_patience_has_its_limits(m: FrameModel, k: int)
    requires
        m.backend,
        0 <= k < m.producers.len(),
    ensures
        m.begin_frame_failures < 2 ==> m.begin_failed().backend
            && m.begin_failed().begin_frame_failures == m.begin_frame_failures + 1,
        m.begin_frame_failures >= 2 ==> !m.begin_failed().backend,
        m.failures(m.producers[k]) < 59 ==> m.produced(k, FrameResult::Error).producers
            == m.producers,
        m.failures(m.producers[k]) >= 59 ==> m.produced(k, FrameResult::Error).producers.len()
            == m.producers.len() - 1,
{
}

/// What a view of the workspace frames is on it and not hidden, and what
/// it is fitted to is on it and placed by layout.
pub proof fn law_frames_are_of_the_workspace(
    members: Seq<VisualId>,
    detached: Seq<VisualId>,
    v: Visual,
)
    ensures
        is_framed(members)(v) <==> members.contains(v.id) && v.window_state == WindowState::Normal,
        is_fitted(detached, members)(v) <==> members.contains(v.id) && !detached.contains(v.id),
{
}

} // verus!
