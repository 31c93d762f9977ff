use veyra::compositor::frame::{
    BackendOrigin, FrameLoop, FrameOutcome, FrameResult, SeatSession,
};
use veyra::compositor::ledger::ClientLedger;
use veyra::compositor::rendering::{RenderAction, RenderEvent};
use veyra::compositor::state::{Effect, LookingGlass};
use veyra::input::CameraView;
use veyra::scene::{Vec3, VisualId};

fn fitted() -> CameraView {
    CameraView {
        position: Vec3 {
            x: 0,
            y: 0,
            z: 869.0f32.to_bits(),
        },
        yaw: 0,
        pitch: 0,
    }
}

fn due(now: u64) -> RenderEvent {
    RenderEvent::Due {
        session: SeatSession::Active,
        now,
    }
}

#[test]
fn frame_goes_from_step_to_step() {
    let mut frames = FrameLoop::new(true, Some(BackendOrigin::Winit));
    let mut glass = LookingGlass::new(3, true);
    let mut ledger = ClientLedger::new();
    frames.producers.push(VisualId(7));
    frames.schedule_render();
    let mut step = |event: RenderEvent| frames.render(&mut glass, &mut ledger, event);
    assert_eq!(step(due(0)), RenderAction::Produce { index: 0 });
    assert_eq!(
        step(RenderEvent::Produced {
            index: 0,
            result: FrameResult::Updated
        }),
        RenderAction::LayOut
    );
    assert_eq!(
        step(RenderEvent::LaidOut {
            orbit: (0, 0),
            fitted: fitted()
        }),
        RenderAction::Begin
    );
    assert_eq!(step(RenderEvent::Begun { ready: true }), RenderAction::Draw);
    assert_eq!(
        step(RenderEvent::Drawn {
            context_lost: false
        }),
        RenderAction::Finish
    );
    assert_eq!(
        step(RenderEvent::Finished {
            outcome: FrameOutcome::Failed
        }),
        RenderAction::Answer { number: 1 }
    );
    assert_eq!(
        step(RenderEvent::Finished {
            outcome: FrameOutcome::Presented
        }),
        RenderAction::Answer { number: 2 }
    );
    assert!(!frames.needs_render());
    assert_eq!(glass.camera.position, fitted().position);
    assert!(glass.spatial.spatial_cam_adapted);
}

#[test]
fn paused_session_stops_the_frame() {
    let mut frames = FrameLoop::new(true, Some(BackendOrigin::Drm));
    let mut glass = LookingGlass::new(1, true);
    let mut ledger = ClientLedger::new();
    frames.session_paused = true;
    frames.schedule_render();
    ledger.refresh_pending = true;
    assert_eq!(
        frames.render(&mut glass, &mut ledger, due(0)),
        RenderAction::Stop
    );
    assert!(!frames.needs_render());
    assert!(ledger.refresh_pending);
    assert!(glass.take_effects().is_empty());
    frames.session_paused = false;
    assert_eq!(
        frames.render(&mut glass, &mut ledger, due(0)),
        RenderAction::LayOut
    );
    assert!(!ledger.refresh_pending);
    assert_eq!(glass.take_effects(), vec![Effect::OfferSelections]);
}

#[test]
fn lost_context_is_made_again() {
    let mut frames = FrameLoop::new(true, Some(BackendOrigin::Drm));
    let mut glass = LookingGlass::new(1, true);
    let mut ledger = ClientLedger::new();
    let mut step = |event: RenderEvent| frames.render(&mut glass, &mut ledger, event);
    assert_eq!(
        step(RenderEvent::Drawn { context_lost: true }),
        RenderAction::DropBackend
    );
    assert_eq!(step(due(10)), RenderAction::Recreate);
    assert_eq!(step(RenderEvent::Recreated { made: false }), RenderAction::Stop);
    assert_eq!(step(due(2009)), RenderAction::Stop);
    assert_eq!(step(due(2010)), RenderAction::Recreate);
    assert_eq!(
        step(RenderEvent::Recreated { made: true }),
        RenderAction::LayOut
    );
    assert_eq!(
        step(RenderEvent::Finished {
            outcome: FrameOutcome::ContextLost
        }),
        RenderAction::DropBackend
    );
    assert!(!frames.backend);
}

#[test]
fn lost_window_is_reported_once() {
    let mut frames = FrameLoop::new(false, Some(BackendOrigin::Winit));
    let mut glass = LookingGlass::new(1, true);
    let mut ledger = ClientLedger::new();
    assert_eq!(
        frames.render(&mut glass, &mut ledger, due(0)),
        RenderAction::ReportLost
    );
    assert_eq!(
        frames.render(&mut glass, &mut ledger, due(5000)),
        RenderAction::Stop
    );
}

#[test]
fn third_failure_to_begin_drops_the_backend() {
    let mut frames = FrameLoop::new(true, Some(BackendOrigin::Drm));
    let mut glass = LookingGlass::new(1, true);
    let mut ledger = ClientLedger::new();
    let refused = RenderEvent::Begun { ready: false };
    let mut step = |event: RenderEvent| frames.render(&mut glass, &mut ledger, event);
    assert_eq!(step(refused), RenderAction::Stop);
    assert_eq!(step(refused), RenderAction::Stop);
    assert_eq!(step(RenderEvent::Begun { ready: true }), RenderAction::Draw);
    assert_eq!(step(refused), RenderAction::Stop);
    assert_eq!(step(refused), RenderAction::Stop);
    assert_eq!(step(refused), RenderAction::DropBackend);
}

#[test]
fn finished_producer_leaves_its_place() {
    let mut frames = FrameLoop::new(true, Some(BackendOrigin::Winit));
    let mut glass = LookingGlass::new(1, true);
    let mut ledger = ClientLedger::new();
    frames.producers.push(VisualId(1));
    frames.producers.push(VisualId(2));
    assert_eq!(
        frames.render(
            &mut glass,
            &mut ledger,
            RenderEvent::Produced {
                index: 0,
                result: FrameResult::Finished
            }
        ),
        RenderAction::Produce { index: 0 }
    );
    assert_eq!(frames.producers, vec![VisualId(2)]);
    assert_eq!(
        frames.render(
            &mut glass,
            &mut ledger,
            RenderEvent::Produced {
                index: 0,
                result: FrameResult::Error
            }
        ),
        RenderAction::LayOut
    );
}
