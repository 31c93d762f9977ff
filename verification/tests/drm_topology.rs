use veyra::drm_topology::{
    global_positions, AssignedOutput, ConnectorState, DrmTopology, TopologyConnector, TopologyCrtc,
    TopologyMode, UnassignedReason,
};

fn mode(w: u32, h: u32, refresh: i32, preferred: bool) -> TopologyMode {
    TopologyMode {
        width: w,
        height: h,
        refresh_mhz: refresh,
        preferred,
    }
}

fn connector(id: u32, encoders: &[u32], modes: Vec<TopologyMode>) -> TopologyConnector {
    TopologyConnector {
        id,
        state: ConnectorState::Connected,
        modes,
        encoder_candidates: encoders.to_vec(),
    }
}

fn crtc(id: u32, encoders: &[u32]) -> TopologyCrtc {
    TopologyCrtc {
        id,
        encoder_candidates: encoders.to_vec(),
    }
}

#[test]
fn one_connector_one_crtc() {
    let mut t = DrmTopology::new();
    t.add_connector(connector(31, &[10], vec![mode(1920, 1080, 60000, true)]));
    t.add_crtc(crtc(50, &[10]));
    let a = t.assign();
    assert_eq!(a.outputs.len(), 1);
    assert_eq!(a.outputs[0].connector_id, 31);
    assert_eq!(a.outputs[0].crtc_id, 50);
    assert_eq!(a.outputs[0].mode.width, 1920);
    assert!(a.unassigned.is_empty());
}

#[test]
fn two_connectors_two_crtcs() {
    let mut t = DrmTopology::new();
    t.add_connector(connector(31, &[10], vec![mode(1920, 1080, 60000, true)]));
    t.add_connector(connector(34, &[11], vec![mode(2560, 1440, 144000, true)]));
    t.add_crtc(crtc(50, &[10]));
    t.add_crtc(crtc(51, &[11]));
    let a = t.assign();
    assert_eq!(a.outputs.len(), 2);
    // Deterministic: lowest connector id first, lowest crtc id first.
    assert_eq!(a.outputs[0], AssignedOutput {
        connector_id: 31,
        crtc_id: 50,
        mode: mode(1920, 1080, 60000, true),
    });
    assert_eq!(a.outputs[1], AssignedOutput {
        connector_id: 34,
        crtc_id: 51,
        mode: mode(2560, 1440, 144000, true),
    });
}

#[test]
fn two_connectors_one_crtc_second_unassigned() {
    let mut t = DrmTopology::new();
    t.add_connector(connector(31, &[10], vec![mode(1920, 1080, 60000, true)]));
    t.add_connector(connector(34, &[10], vec![mode(1920, 1080, 60000, true)]));
    t.add_crtc(crtc(50, &[10]));
    let a = t.assign();
    assert_eq!(a.outputs.len(), 1);
    assert_eq!(a.outputs[0].connector_id, 31, "lowest connector id wins");
    assert_eq!(a.unassigned.len(), 1);
    assert_eq!(a.unassigned[0].connector_id, 34);
    assert_eq!(a.unassigned[0].reason, UnassignedReason::NoFreeCrtc);
}

#[test]
fn disconnected_connector_is_never_assigned() {
    let mut t = DrmTopology::new();
    let mut c = connector(31, &[10], vec![mode(1920, 1080, 60000, true)]);
    c.state = ConnectorState::Disconnected;
    t.add_connector(c);
    t.add_crtc(crtc(50, &[10]));
    let a = t.assign();
    assert!(a.outputs.is_empty());
    assert_eq!(a.unassigned[0].reason, UnassignedReason::Disconnected);
}

#[test]
fn no_compatible_encoder_rejects_assignment() {
    let mut t = DrmTopology::new();
    t.add_connector(connector(31, &[10], vec![mode(1920, 1080, 60000, true)]));
    // CRTC only drives encoder 11 — no overlap with connector 31.
    t.add_crtc(crtc(50, &[11]));
    let a = t.assign();
    assert!(a.outputs.is_empty());
    assert_eq!(a.unassigned[0].reason, UnassignedReason::NoCompatibleEncoder);
}

#[test]
fn preferred_mode_wins_over_larger() {
    let mut t = DrmTopology::new();
    // 4K not preferred; EDID prefers the smaller mode.
    t.add_connector(connector(
        31,
        &[10],
        vec![
            mode(3840, 2160, 60000, false),
            mode(1920, 1080, 144000, true),
        ],
    ));
    t.add_crtc(crtc(50, &[10]));
    let a = t.assign();
    assert_eq!(a.outputs[0].mode, mode(1920, 1080, 144000, true));
}

#[test]
fn fallback_mode_is_largest_area_then_refresh() {
    let c = connector(
        31,
        &[10],
        vec![
            mode(1280, 720, 60000, false),
            mode(1920, 1080, 60000, false),
            mode(1920, 1080, 144000, false),
        ],
    );
    assert_eq!(
        c.preferred_mode(),
        Some(mode(1920, 1080, 144000, false)),
        "area tie → highest refresh"
    );
}

#[test]
fn assignment_is_deterministic_across_runs() {
    let mut t = DrmTopology::new();
    t.add_connector(connector(34, &[10, 11], vec![mode(1920, 1080, 60000, true)]));
    t.add_connector(connector(31, &[10, 11], vec![mode(2560, 1440, 60000, true)]));
    t.add_crtc(crtc(51, &[10, 11]));
    t.add_crtc(crtc(50, &[10, 11]));
    let a1 = t.assign();
    let a2 = t.assign();
    assert_eq!(a1, a2, "same topology → identical assignment");
    // Connector 31 sorts first and claims crtc 50.
    assert_eq!(a1.outputs[0].connector_id, 31);
    assert_eq!(a1.outputs[0].crtc_id, 50);
    assert_eq!(a1.outputs[1].crtc_id, 51);
}

#[test]
fn global_positions_tile_the_row() {
    let outputs = vec![
        AssignedOutput {
            connector_id: 31,
            crtc_id: 50,
            mode: mode(1920, 1080, 60000, true),
        },
        AssignedOutput {
            connector_id: 34,
            crtc_id: 51,
            mode: mode(2560, 1440, 60000, true),
        },
    ];
    let pos = global_positions(&outputs);
    assert_eq!(pos[0], (31, (0, 0)));
    assert_eq!(pos[1], (34, (1920, 0)));
    // Desktop spans 4480 px — the G-E5.5 oracle geometry.
    assert_eq!(1920 + 2560, 4480);
}

#[test]
fn crtc_freedom_is_per_pass() {
    // Two connectors sharing one compatible CRTC: assignment order
    // (ascending connector id) decides; the loser records NoFreeCrtc
    // and becomes assignable when the CRTC frees (G-E5.6.6).
    // Connector 34 shares encoder 10 with CRTC 50 (taken by 31) —
    // CRTC 51 only drives encoder 11, so 34's reason is NoFreeCrtc
    // (drivable, but its only compatible CRTC is busy).
    let mut t = DrmTopology::new();
    t.add_connector(connector(31, &[10], vec![mode(1920, 1080, 60000, true)]));
    t.add_connector(connector(34, &[10], vec![mode(1920, 1080, 60000, true)]));
    t.add_crtc(crtc(50, &[10]));
    t.add_crtc(crtc(51, &[11]));
    let a = t.assign();
    assert_eq!(a.outputs.len(), 1);
    assert_eq!(a.outputs[0].crtc_id, 50);
    assert_eq!(
        a.unassigned[0].reason,
        UnassignedReason::NoFreeCrtc,
        "drivable via crtc 50's encoder — busy, not incompatible"
    );
}

#[test]
fn fully_incompatible_connector_never_assignable() {
    // Connector 34 shares NO encoder with ANY crtc — NoCompatibleEncoder
    // even when all CRTCs are free.
    let mut t = DrmTopology::new();
    t.add_connector(connector(34, &[99], vec![mode(1920, 1080, 60000, true)]));
    t.add_crtc(crtc(50, &[10]));
    let a = t.assign();
    assert_eq!(a.unassigned[0].reason, UnassignedReason::NoCompatibleEncoder);
}
