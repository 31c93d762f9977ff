use veyra::drm_backend::{
    DrmBackendError, DrmGraphicsBackend, FlipEvent, FrameStateError, OutputFrameState,
    OutputPresentation, Retirement,
};
use veyra::drm_topology::TopologyAssignment;

fn presentation(crtc: u32, frame_state: OutputFrameState) -> OutputPresentation {
    OutputPresentation { crtc, frame_state, current_buffer: None, width: 640, height: 480 }
}

fn backend(outputs: Vec<OutputPresentation>) -> DrmGraphicsBackend {
    DrmGraphicsBackend { outputs, assignment: TopologyAssignment::default(), frame_seq: 0 }
}

fn fake_outputs() -> Vec<OutputPresentation> {
    vec![
        presentation(37, OutputFrameState::FlipPending),
        presentation(42, OutputFrameState::Idle),
    ]
}

#[test]
fn legal_chain_idle_to_flip_pending_to_idle() {
    let s = OutputFrameState::Idle;
    let s = s.begin().expect("begin from Idle");
    assert_eq!(s, OutputFrameState::Rendering);
    let s = s.submit().expect("submit from Rendering");
    assert_eq!(s, OutputFrameState::Submitted);
    let s = s.arm_flip().expect("arm from Submitted");
    assert_eq!(s, OutputFrameState::FlipPending);
    assert!(s.flip_complete(), "flip event completes FlipPending");
    assert_eq!(s.force_idle(), OutputFrameState::Idle);
}

#[test]
fn begin_from_idle_directly_allowed() {
    let s = OutputFrameState::Idle.begin().expect("begin");
    let s = s.submit().expect("submit");
    let s = s.arm_flip().expect("arm");
    assert_eq!(s, OutputFrameState::FlipPending);
}

#[test]
fn illegal_transitions_rejected() {
    // Double begin.
    assert_eq!(OutputFrameState::Rendering.begin(), Err(FrameStateError::DoubleBegin));
    // Begin while a flip is outstanding.
    assert_eq!(OutputFrameState::FlipPending.begin(), Err(FrameStateError::BeginDuringFlip));
    // Submit without begin.
    assert_eq!(OutputFrameState::Idle.submit(), Err(FrameStateError::SubmitWithoutBegin));
    // Arm without submit.
    assert_eq!(OutputFrameState::Idle.arm_flip(), Err(FrameStateError::SubmitWithoutBegin));
    assert_eq!(OutputFrameState::Rendering.arm_flip(), Err(FrameStateError::SubmitWithoutBegin));
}

#[test]
fn spurious_flip_event_is_noop() {
    assert!(!OutputFrameState::Idle.flip_complete());
    assert!(!OutputFrameState::Rendering.flip_complete());
}

#[test]
fn force_idle_from_every_state() {
    for s in [
        OutputFrameState::Idle,
        OutputFrameState::Rendering,
        OutputFrameState::Submitted,
        OutputFrameState::FlipPending,
    ] {
        assert_eq!(s.force_idle(), OutputFrameState::Idle);
    }
}

#[test]
fn flip_a_does_not_retire_b() {
    let mut b = backend(fake_outputs());
    assert_eq!(b.output_index_for_crtc(37), Some(0));
    // A completes.
    let done = b.handle_flip_events(&vec![FlipEvent { crtc: 37, retirement: Retirement::Retired }]);
    assert!(done);
    // B is untouched.
    assert_eq!(b.outputs[0].frame_state, OutputFrameState::Idle);
    assert_eq!(b.outputs[1].frame_state, OutputFrameState::Idle);
}

#[test]
fn attribution_uses_crtc_not_position() {
    // The event's CRTC decides, regardless of the order of the outputs.
    let mut outs = fake_outputs();
    outs.reverse();
    let b = backend(outs);
    let idx = b.output_index_for_crtc(37).unwrap();
    assert_eq!(idx, 1, "A now sits at index 1");
    assert_eq!(b.outputs[idx].frame_state, OutputFrameState::FlipPending);
}

#[test]
fn unknown_crtc_event_is_dropped() {
    let mut b = backend(fake_outputs());
    assert_eq!(b.output_index_for_crtc(999), None);
    let done =
        b.handle_flip_events(&vec![FlipEvent { crtc: 999, retirement: Retirement::Retired }]);
    assert!(!done);
    assert_eq!(b.outputs, fake_outputs());
}

#[test]
fn mixed_pending_and_completed() {
    // A pending, B completed: A's event completes A; B already idle.
    let outs = fake_outputs();
    assert!(outs[0].frame_state.flip_complete());
    assert!(!outs[1].frame_state.flip_complete());
}

#[test]
fn disconnect_forces_idle_over_pending_flip() {
    let mut b = backend(vec![presentation(37, OutputFrameState::FlipPending)]);
    b.force_output_idle(0);
    assert_eq!(b.outputs[0].frame_state, OutputFrameState::Idle);
    assert!(b.unplug_output(0));
    assert!(!b.unplug_output(0));
    assert!(b.outputs.is_empty());
}

#[test]
fn drm_backend_error_display_is_actionable() {
    let e = DrmBackendError::NoDevice.message();
    assert!(e.contains("/dev/dri/card"), "error should name the searched paths: {e}");
    let e = DrmBackendError::Egl("ctx dead".into()).message();
    assert!(e.contains("EGL"), "error should name the subsystem: {e}");
}
