//! One frame, step by step: what happened last decides what is done next.
use vstd::prelude::*;

use crate::compositor::frame::{
    next_number, FrameLoop, FrameModel, FrameOutcome, FrameResult, Recreation, SeatSession,
    BEGIN_FRAME_FAILURE_LIMIT,
};
use crate::compositor::ledger::{ClientLedger, LedgerModel};
use crate::compositor::state::{Effect, GlassModel, LookingGlass, SurfaceId};
use crate::compositor::terms::is_fresh_id;
use crate::input::CameraView;
use crate::scene::{Scalar, VisualId};
use crate::table::values;

verus! {

/// What happened to a frame.
#[derive(Debug, Clone, Copy, PartialEq, Eq)]
pub enum RenderEvent {
    /// It is due. The seat session and the time are as they are now.
    Due { session: SeatSession, now: u64 },
    /// A new backend was tried for.
    Recreated { made: bool },
    /// The producer at this position delivered.
    Produced { index: usize, result: FrameResult },
    /// The layout was applied. With it come the yaw and pitch of the
    /// orbit now, and the view that fits the workspace plane.
    LaidOut { orbit: (Scalar, Scalar), fitted: CameraView },
    /// The backend was asked to begin.
    Begun { ready: bool },
    /// The scene was drawn.
    Drawn { context_lost: bool },
    /// What was drawn was handed to the display.
    Finished { outcome: FrameOutcome },
}

/// What is done next for a frame.
#[derive(Debug, Clone, Copy, PartialEq, Eq, Structural)]
pub enum RenderAction {
    /// Nothing; there is no more to this frame.
    Stop,
    /// Say that the backend cannot be brought back; then nothing.
    ReportLost,
    /// Try to make a new backend.
    Recreate,
    /// Have the producer at this position deliver.
    Produce { index: usize },
    /// Apply the layout.
    LayOut,
    /// Begin with the backend.
    Begin,
    /// Draw the scene.
    Draw,
    /// Hand what was drawn to the display.
    Finish,
    /// Let the backend go, with what lives in its context.
    DropBackend,
    /// Answer every shown surface with this frame's number.
    Answer { number: u64 },
}

/// The next producer, or the layout after the last.
pub open spec fn producing(m: FrameModel, index: int) -> RenderAction {
    if index < m.producers.len() {
        RenderAction::Produce { index: index as usize }
    } else {
        RenderAction::LayOut
    }
}

/// The action a decision about the backend leads to.
pub open spec fn pursuing(m: FrameModel, r: Recreation) -> RenderAction {
    match r {
        Recreation::ReportLost => RenderAction::ReportLost,
        Recreation::Attempt => RenderAction::Recreate,
        Recreation::Leave => if m.backend {
            producing(m, 0)
        } else {
            RenderAction::Stop
        },
    }
}

impl FrameModel {
    /// The render loop after an event; `m` is the compositor then.
    pub open spec fn stepped(self, m: GlassModel, e: RenderEvent) -> FrameModel {
        match e {
            RenderEvent::Due { session, now } => {
                let f = FrameModel { dirty: false, ..self };
                if self.session_paused {
                    f
                } else {
                    f.recreation_decided(session, now)
                }
            },
            RenderEvent::Recreated { made } => if made {
                self.backend_back()
            } else {
                self
            },
            RenderEvent::Produced { index, result } => self.produced(index as int, result),
            RenderEvent::LaidOut { .. } => FrameModel {
                animating: m.focus_manager.transition is Some
                    || m.workspaces.current().auto_orbit,
                ..self
            },
            RenderEvent::Begun { ready } => if ready {
                FrameModel { begin_frame_failures: 0, ..self }
            } else {
                self.begin_failed()
            },
            RenderEvent::Drawn { context_lost } => if context_lost {
                self.backend_lost()
            } else {
                self
            },
            RenderEvent::Finished { outcome } => if outcome == FrameOutcome::ContextLost {
                self.backend_lost()
            } else {
                FrameModel { presentation_seq: next_number(self.presentation_seq), ..self }
            },
        }
    }

    /// What an event leads to.
    pub open spec fn answer(self, e: RenderEvent) -> RenderAction {
        match e {
            RenderEvent::Due { session, now } => if self.session_paused {
                RenderAction::Stop
            } else {
                pursuing(self, self.recreation(session, now))
            },
            RenderEvent::Recreated { made } => if made {
                producing(self, 0)
            } else {
                RenderAction::Stop
            },
            RenderEvent::Produced { index, result } => producing(
                self.produced(index as int, result),
                if self.gives_out(index as int, result) {
                    index as int
                } else {
                    index + 1
                },
            ),
            RenderEvent::LaidOut { .. } => RenderAction::Begin,
            RenderEvent::Begun { ready } => if ready {
                RenderAction::Draw
            } else if self.begin_failed().begin_frame_failures >= BEGIN_FRAME_FAILURE_LIMIT {
                RenderAction::DropBackend
            } else {
                RenderAction::Stop
            },
            RenderEvent::Drawn { context_lost } => if context_lost {
                RenderAction::DropBackend
            } else {
                RenderAction::Finish
            },
            RenderEvent::Finished { outcome } => if outcome == FrameOutcome::ContextLost {
                RenderAction::DropBackend
            } else {
                RenderAction::Answer { number: next_number(self.presentation_seq) }
            },
        }
    }
}

impl GlassModel {
    /// The compositor after an event of a frame. `f` is the render loop
    /// and `l` the ledger before it.
    pub open spec fn rendered(self, f: FrameModel, l: LedgerModel, e: RenderEvent) -> GlassModel {
        match e {
            RenderEvent::Due { .. } => if f.session_paused {
                self
            } else if l.refresh_pending {
                self.ordering(Effect::OfferSelections).stale_focus_cleared()
            } else {
                self.stale_focus_cleared()
            },
            RenderEvent::Produced { index, result } => GlassModel {
                scene: f.produced_scene(self.scene, index as int, result),
                ..self
            },
            RenderEvent::LaidOut { orbit, fitted } => self.camera_prepared(orbit, fitted),
            _ => self,
        }
    }
}

impl LedgerModel {
    /// The ledger after an event of a frame: a refresh that was pending
    /// was asked for.
    pub open spec fn rendered(self, f: FrameModel, e: RenderEvent) -> LedgerModel {
        if e is Due && !f.session_paused {
            LedgerModel { refresh_pending: false, ..self }
        } else {
            self
        }
    }
}

impl FrameLoop {
    fn next_producer(&self, index: usize) -> (r: RenderAction)
        ensures
            r == producing(self@, index as int),
    {
        if index < self.producers.len() {
            RenderAction::Produce { index }
        } else {
            RenderAction::LayOut
        }
    }

    fn render_due(
        &mut self,
        glass: &mut LookingGlass,
        ledger: &mut ClientLedger,
        session: SeatSession,
        now: u64,
    ) -> (r: RenderAction)
        ensures
            r == old(self)@.answer(RenderEvent::Due { session, now }),
            final(self)@ == old(self)@.stepped(
                old(glass)@,
                RenderEvent::Due { session, now },
            ),
            final(glass)@ == old(glass)@.rendered(
                old(self)@,
                old(ledger)@,
                RenderEvent::Due { session, now },
            ),
            final(ledger)@ == old(ledger)@.rendered(
                old(self)@,
                RenderEvent::Due { session, now },
            ),
    {
        if !self.begin_render(glass, ledger) {
            return RenderAction::Stop;
        }
        match self.try_recreate_backend(session, now) {
            Recreation::ReportLost => RenderAction::ReportLost,
            Recreation::Attempt => RenderAction::Recreate,
            Recreation::Leave => if self.backend {
                self.next_producer(0)
            } else {
                RenderAction::Stop
            },
        }
    }

    /// Takes in what happened to a frame and says what to do next.
    pub fn render(
        &mut self,
        glass: &mut LookingGlass,
        ledger: &mut ClientLedger,
        event: RenderEvent,
    ) -> (r: RenderAction)
        requires
            old(glass)@.wf(),
            event matches RenderEvent::Produced { index, .. } ==> index < old(
                self,
            )@.producers.len(),
        ensures
            r == old(self)@.answer(event),
            final(self)@ == old(self)@.stepped(final(glass)@, event),
            final(glass)@ == old(glass)@.rendered(old(self)@, old(ledger)@, event),
            final(ledger)@ == old(ledger)@.rendered(old(self)@, event),
    {
        match event {
            RenderEvent::Due { session, now } => self.render_due(glass, ledger, session, now),
            RenderEvent::Recreated { made } => if made {
                self.backend_recreated();
                self.next_producer(0)
            } else {
                RenderAction::Stop
            },
            RenderEvent::Produced { index, result } => {
                let (next, _) = self.producer_result(&mut glass.scene, index, result);
                self.next_producer(next)
            },
            RenderEvent::LaidOut { orbit, fitted } => {
                glass.prepare_camera(orbit, fitted);
                self.note_animation(glass);
                RenderAction::Begin
            },
            RenderEvent::Begun { ready } => if ready {
                self.begin_frame_succeeded();
                RenderAction::Draw
            } else if self.begin_frame_failed() {
                RenderAction::DropBackend
            } else {
                RenderAction::Stop
            },
            RenderEvent::Drawn { context_lost } => if context_lost {
                self.context_lost();
                RenderAction::DropBackend
            } else {
                RenderAction::Finish
            },
            RenderEvent::Finished { outcome } => match self.finish_frame(outcome) {
                Some(number) => RenderAction::Answer { number },
                None => RenderAction::DropBackend,
            },
        }
    }
}

/// While the session is paused nothing is drawn, and nothing but the
/// request for a frame is forgotten.
pub proof fn law_paused_session_presents_nothing(
    f: FrameModel,
    m: GlassModel,
    l: LedgerModel,
    session: SeatSession,
    now: u64,
)
    requires
        f.session_paused,
    ensures
        ({
            let e = RenderEvent::Due { session, now };
            &&& f.answer(e) == RenderAction::Stop
            &&& f.stepped(m, e) == (FrameModel { dirty: false, ..f })
            &&& m.rendered(f, l, e) == m
            &&& l.rendered(f, e) == l
        }),
{
}

/// A client whose surface is shown is answered by every frame that was
/// drawn, shown or not, unless the context was lost with it.
pub proof fn law_drawn_frame_answers_its_clients(
    f: FrameModel,
    m: GlassModel,
    vid: VisualId,
    surface: SurfaceId,
    outcome: FrameOutcome,
)
    requires
        m.surface_of(vid) == Some(surface),
        outcome != FrameOutcome::ContextLost,
    ensures
        f.answer(RenderEvent::Drawn { context_lost: false }) == RenderAction::Finish,
        f.answer(RenderEvent::Finished { outcome }) == (RenderAction::Answer {
            number: f.stepped(m, RenderEvent::Finished { outcome }).presentation_seq,
        }),
        values(m.surfaces).contains(surface),
{
    crate::table::lemma_value_is_listed(m.surfaces, vid.0);
}

/// A lost context takes the backend along, however it is noticed, and
/// the next frame that is due tries for a new one at once where one can
/// be made.
pub proof fn law_lost_context_is_recovered_from(
    f: FrameModel,
    m: GlassModel,
    e: RenderEvent,
    now: u64,
)
    requires
        e == (RenderEvent::Drawn { context_lost: true }) || e == (RenderEvent::Finished {
            outcome: FrameOutcome::ContextLost,
        }),
        f.backend_origin == Some(crate::compositor::frame::BackendOrigin::Drm),
        !f.session_paused,
    ensures
        f.answer(e) == RenderAction::DropBackend,
        !f.stepped(m, e).backend,
        f.stepped(m, e).answer(RenderEvent::Due { session: SeatSession::Active, now })
            == RenderAction::Recreate,
{
}

/// Every producer is asked before anything is laid out: the positions ask
/// for each in turn, and one that gave out leaves its position to another.
pub proof fn law_every_producer_is_asked(f: FrameModel, index: usize, result: FrameResult)
    requires
        index < f.producers.len() <= usize::MAX,
    ensures
        ({
            let e = RenderEvent::Produced { index, result };
            let left = f.produced(index as int, result).producers.len();
            match f.answer(e) {
                RenderAction::Produce { index: next } => next < left && left - next
                    == f.producers.len() - index - 1,
                RenderAction::LayOut => index + 1 == f.producers.len(),
                _ => false,
            }
        }),
{
    assert(crate::compositor::frame::swapped_out(f.producers, index as int).len()
        == f.producers.len() - 1);
}

/// A frame goes its way: the producers are asked from the first on, the
/// layout is applied, the backend begins, the scene is drawn and handed
/// over, and the clients are answered with the number after the last. It
/// goes on where there is a backend or one was made, and no further.
pub proof fn law_frame_goes_its_way(
    f: FrameModel,
    m: GlassModel,
    session: SeatSession,
    now: u64,
    orbit: (Scalar, Scalar),
    fitted: CameraView,
)
    requires
        !f.session_paused,
        f.producers.len() <= usize::MAX,
    ensures
        ({
            let due = f.answer(RenderEvent::Due { session, now });
            let made = f.answer(RenderEvent::Recreated { made: true });
            &&& f.backend && f.producers.len() > 0 ==> due == (RenderAction::Produce { index: 0 })
            &&& f.backend && f.producers.len() == 0 ==> due == RenderAction::LayOut
            &&& !f.backend && f.backend_origin is None ==> due == RenderAction::Stop
            &&& f.producers.len() > 0 ==> made == (RenderAction::Produce { index: 0 })
            &&& f.producers.len() == 0 ==> made == RenderAction::LayOut
            &&& f.answer(RenderEvent::Recreated { made: false }) == RenderAction::Stop
            &&& f.answer(RenderEvent::LaidOut { orbit, fitted }) == RenderAction::Begin
            &&& f.answer(RenderEvent::Begun { ready: true }) == RenderAction::Draw
            &&& f.answer(RenderEvent::Drawn { context_lost: false }) == RenderAction::Finish
            &&& f.presentation_seq < u64::MAX ==> f.answer(
                RenderEvent::Finished { outcome: FrameOutcome::Presented },
            ) == (RenderAction::Answer { number: (f.presentation_seq + 1) as u64 })
            &&& f.presentation_seq < u64::MAX ==> f.answer(
                RenderEvent::Finished { outcome: FrameOutcome::Failed },
            ) == (RenderAction::Answer { number: (f.presentation_seq + 1) as u64 })
            &&& !f.stepped(m, RenderEvent::Due { session, now }).dirty
            &&& f.stepped(m, RenderEvent::Recreated { made: true }).backend
            &&& f.stepped(m, RenderEvent::Recreated { made: false }) == f
            &&& f.stepped(m, RenderEvent::Begun { ready: true }).begin_frame_failures == 0
            &&& f.stepped(m, RenderEvent::LaidOut { orbit, fitted }).animating
                == (m.focus_manager.transition is Some
                || m.workspaces.all[m.workspaces.active].auto_orbit)
        }),
{
}

/// A frame that is due offers the selections anew where their owner died,
/// and only then, and takes the keyboard from a visual that is gone.
pub proof fn law_due_frame_tidies_up(
    f: FrameModel,
    m: GlassModel,
    l: LedgerModel,
    session: SeatSession,
    now: u64,
)
    requires
        !f.session_paused,
    ensures
        ({
            let e = RenderEvent::Due { session, now };
            let n = m.rendered(f, l, e);
            &&& !l.rendered(f, e).refresh_pending
            &&& l.refresh_pending ==> n.outbox[m.outbox.len() as int] == Effect::OfferSelections
            &&& !l.refresh_pending && m.scene.focused_id is None ==> n == m
            &&& m.scene.focused_id matches Some(v) ==> {
                &&& is_fresh_id(m.scene, v) ==> n.scene.focused_id is None
                &&& !is_fresh_id(m.scene, v) ==> n.scene == m.scene
            }
        }),
{
}

} // verus!
