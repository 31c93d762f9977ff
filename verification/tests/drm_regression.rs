use std::collections::HashMap;

use veyra::drm_backend::{FrameStateError, OutputFrameState};
use veyra::drm_topology::{
    global_positions, AssignedOutput, ConnectorState, DrmTopology, TopologyConnector,
    TopologyCrtc, TopologyMode, UnassignedReason,
};
use veyra::input::Camera;
use veyra::outputs::{OutputBindings, OutputId, OutputManager, OutputState, OutputViewport};

fn mode(w: u32, h: u32, refresh: i32) -> TopologyMode {
    TopologyMode { width: w, height: h, refresh_mhz: refresh, preferred: true }
}

#[test]
fn l1_connector_assignment_deterministic() {
    let mut t = DrmTopology::new();
    t.add_connector(TopologyConnector {
        id: 42,
        state: ConnectorState::Connected,
        modes: vec![mode(1920, 1080, 60000)],
        encoder_candidates: vec![10],
    });
    t.add_connector(TopologyConnector {
        id: 7,
        state: ConnectorState::Connected,
        modes: vec![mode(1280, 720, 60000)],
        encoder_candidates: vec![11],
    });
    t.add_crtc(TopologyCrtc { id: 99, encoder_candidates: vec![11] });
    t.add_crtc(TopologyCrtc { id: 55, encoder_candidates: vec![10] });
    let a1 = t.assign();
    let a2 = t.assign();
    assert_eq!(a1, a2, "same topology gives an identical assignment");
    assert_eq!(a1.outputs[0].connector_id, 7);
    assert_eq!(a1.outputs[0].crtc_id, 99);
    assert_eq!(a1.outputs[1].connector_id, 42);
    assert_eq!(a1.outputs[1].crtc_id, 55);
}

#[test]
fn l1_unassigned_reasons_are_precise() {
    let mut t = DrmTopology::new();
    t.add_connector(TopologyConnector {
        id: 7,
        state: ConnectorState::Disconnected,
        modes: vec![mode(1280, 720, 60000)],
        encoder_candidates: vec![11],
    });
    t.add_connector(TopologyConnector {
        id: 42,
        state: ConnectorState::Connected,
        modes: vec![mode(1920, 1080, 60000)],
        encoder_candidates: vec![10],
    });
    t.add_crtc(TopologyCrtc { id: 99, encoder_candidates: vec![11] });
    let a = t.assign();
    assert_eq!(a.outputs.len(), 0, "42 has no compatible CRTC; 7 is disconnected");
    let un42 = a.unassigned.iter().find(|u| u.connector_id == 42).expect("42 unassigned");
    assert_eq!(un42.reason, UnassignedReason::NoCompatibleEncoder);
    let un7 = a.unassigned.iter().find(|u| u.connector_id == 7).unwrap();
    assert_eq!(un7.reason, UnassignedReason::Disconnected);
}

#[test]
fn l2_outputid_to_backend_index_stable() {
    let mut b = OutputBindings::new();
    b.bind(OutputId(9001), 0);
    b.bind(OutputId(4), 1);
    assert_eq!(b.index_for(OutputId(9001)), Some(0));
    assert_eq!(b.index_for(OutputId(4)), Some(1));
    assert_eq!(b.index_for(OutputId(5)), None);
}

#[test]
fn l2_reordering_backend_outputs_preserves_identity() {
    let mut b = OutputBindings::new();
    b.bind(OutputId(10), 0);
    b.bind(OutputId(20), 1);
    let affected = b.backend_removed(0);
    assert_eq!(affected, vec![OutputId(10)]);
    assert_eq!(b.index_for(OutputId(20)), Some(0), "identity preserved");
}

#[test]
fn l3_frame_state_is_independent_per_output() {
    let mut a = OutputFrameState::Idle;
    let mut b = OutputFrameState::Idle;
    a = a.begin().expect("A begins");
    assert_eq!(b, OutputFrameState::Idle, "B unaffected by A's begin");
    a = a.submit().expect("A submits");
    a = a.arm_flip().expect("A arms");
    assert_eq!(b, OutputFrameState::Idle);
    assert_eq!(a, OutputFrameState::FlipPending);
    b = b.begin().expect("B begins during A's flip");
    b = b.submit().expect("B submits");
    let _ = b.arm_flip().expect("B arms");
    assert_eq!(a, OutputFrameState::FlipPending, "A untouched by B");
}

#[test]
fn l3_double_begin_is_a_bug_not_silence() {
    let s = OutputFrameState::Idle.begin().expect("first begin");
    assert_eq!(s.begin(), Err(FrameStateError::DoubleBegin));
}

#[test]
fn l4_crtc_attribution_is_unique_and_by_handle() {
    let crtcs: [u32; 3] = [37, 42, 55];
    let mut owners = HashMap::new();
    for (i, h) in crtcs.iter().enumerate() {
        owners.insert(*h, i);
    }
    assert_eq!(owners.get(&37u32), Some(&0));
    assert_eq!(owners.get(&55u32), Some(&2));
    assert_eq!(owners.get(&999u32), None, "unknown CRTC dropped");
    assert_eq!(owners.len(), crtcs.len(), "each CRTC has one output");
}

#[test]
fn l4_flip_a_cannot_complete_b() {
    let mut a_state = OutputFrameState::FlipPending;
    let b_state = OutputFrameState::FlipPending;
    let a_crtc: u32 = 37;
    let is_a = a_crtc == 37;
    assert!(is_a);
    if a_state.flip_complete() {
        a_state = OutputFrameState::Idle;
    }
    assert_eq!(a_state, OutputFrameState::Idle);
    assert_eq!(b_state, OutputFrameState::FlipPending, "B not retired");
}

fn screen(name: &str, mode: (u32, u32), refresh_mhz: i32, global_pos: (i32, i32)) -> OutputState {
    OutputState {
        name: name.to_string(),
        mode,
        refresh_mhz,
        scale: 1.0f64.to_bits(),
        global_pos,
        camera: Camera::new(),
    }
}

fn registry_with_two() -> (OutputManager, OutputId, OutputId) {
    let mut m = OutputManager::new();
    let a = m.add(screen("DP-1", (1920, 1080), 60000, (0, 0)));
    let b = m.add(screen("DP-2", (2560, 1440), 144000, (1920, 0)));
    (m, a, b)
}

#[test]
fn l5_disconnect_b_primary_a_continues() {
    let (mut m, a, b) = registry_with_two();
    let eff = m.unplug_output(b).expect("unplug B");
    assert!(!eff.was_primary);
    assert_eq!(m.primary_id(), Some(a), "A keeps rendering");
    assert_eq!(m.outputs().len(), 1);
}

#[test]
fn l5_disconnect_primary_promotes_b() {
    let (mut m, a, b) = registry_with_two();
    let eff = m.unplug_output(a).expect("unplug A");
    assert!(eff.was_primary);
    assert_eq!(eff.promoted, Some(b));
    assert_eq!(m.primary_id(), Some(b));
}

#[test]
fn l5_pending_flip_then_disconnect_quiesces_only_that_output() {
    let (mut m, a, _b) = registry_with_two();
    let mut a_frame = OutputFrameState::FlipPending;
    let mut b_frame = OutputFrameState::FlipPending;
    m.unplug_output(a).expect("unplug");
    a_frame = a_frame.force_idle();
    assert_eq!(a_frame, OutputFrameState::Idle);
    assert!(b_frame.flip_complete());
    b_frame = OutputFrameState::Idle;
    assert_eq!(b_frame, OutputFrameState::Idle);
}

#[test]
fn l5_disconnect_cannot_destroy_windows() {
    let (mut m, a, b) = registry_with_two();
    let mut bindings = OutputBindings::new();
    bindings.bind(a, 0);
    bindings.bind(b, 1);
    m.unplug_output(a).expect("unplug primary");
    let _ = bindings.backend_removed(0);
    assert_eq!(m.outputs().len(), 1);
    assert_eq!(bindings.index_for(b), Some(0));
}

#[test]
fn l5_replug_new_identity_fresh_binding() {
    let (mut m, _a, b) = registry_with_two();
    m.unplug_output(b).expect("unplug");
    let b2 = m.replug_output(screen("DP-2", (1024, 768), 60000, (0, 0)));
    assert_ne!(b2, b, "new connector session = new output identity");
    assert_eq!(m.outputs().len(), 2);
}

#[test]
fn l5_geometry_recompute_after_unplug() {
    let (mut m, _a, b) = registry_with_two();
    assert_eq!(m.global_extents(), (1920 + 2560, 1440));
    m.unplug_output(b).expect("unplug B");
    assert_eq!(m.global_extents(), (1920, 1080));
    let plans = m.build_frame_plans();
    assert_eq!(plans.len(), 1);
    assert_eq!(plans[0].viewport, OutputViewport { x: 0, y: 0, width: 1920, height: 1080 });
}

#[test]
fn full_chain_topology_to_plans_with_reordered_ids() {
    let mut t = DrmTopology::new();
    t.add_connector(TopologyConnector {
        id: 77,
        state: ConnectorState::Connected,
        modes: vec![mode(2560, 1440, 144000)],
        encoder_candidates: vec![21],
    });
    t.add_connector(TopologyConnector {
        id: 12,
        state: ConnectorState::Connected,
        modes: vec![mode(1920, 1080, 60000)],
        encoder_candidates: vec![20],
    });
    t.add_crtc(TopologyCrtc { id: 91, encoder_candidates: vec![21] });
    t.add_crtc(TopologyCrtc { id: 44, encoder_candidates: vec![20] });
    let assignment = t.assign();
    assert_eq!(assignment.outputs.len(), 2);
    let positions = global_positions(&assignment.outputs);
    let mut m = OutputManager::new();
    for ((conn_id, pos), assigned) in positions.iter().zip(&assignment.outputs) {
        m.add(screen(
            &format!("DP-{conn_id}"),
            (assigned.mode.width, assigned.mode.height),
            assigned.mode.refresh_mhz,
            *pos,
        ));
    }
    let plans = m.build_frame_plans();
    assert_eq!(plans[0].viewport, OutputViewport { x: 0, y: 0, width: 1920, height: 1080 });
    assert_eq!(plans[1].viewport, OutputViewport { x: 1920, y: 0, width: 2560, height: 1440 });
    let _ = AssignedOutput { connector_id: 0, crtc_id: 0, mode: mode(1, 1, 60) };
}

#[test]
fn an_unknown_output_cannot_be_unplugged() {
    let (mut m, a, _b) = registry_with_two();
    assert!(m.unplug_output(OutputId(77)).is_none());
    assert_eq!(m.primary_id(), Some(a));
    assert_eq!(m.outputs().len(), 2);
}

#[test]
fn positions_on_the_desktop_belong_to_the_output_that_covers_them() {
    let (m, a, b) = registry_with_two();
    assert_eq!(m.to_local(10, 20), Some((a, 10, 20)));
    assert_eq!(m.to_local(1920, 5), Some((b, 0, 5)));
    assert_eq!(m.to_local(5, 1200), None);
}

#[test]
fn mode_changes_are_told_once() {
    let (mut m, _a, _b) = registry_with_two();
    assert!(!m.sync_output_mode(Some(((1920, 1080), 60000)), 1920, 1080, 60000, "X".to_string()));
    assert_eq!(m.outputs()[0].state.name, "DP-1");
    assert!(m.sync_output_mode(Some(((1920, 1080), 60000)), 1920, 1080, 75000, "X".to_string()));
    assert_eq!(m.outputs()[0].state.refresh_mhz, 75000);
    assert_eq!(m.outputs()[0].state.name, "X");
    assert!(m.sync_output_mode(None, 800, 600, 60000, "Y".to_string()));
    assert_eq!(m.primary_size(), Some((800, 600)));
}
