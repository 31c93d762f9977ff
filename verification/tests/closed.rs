use veyra::closed::{app_id_matches_entry, ClosedWindow, ClosedWindowHistory};
use veyra::scene::{Quat, Transform3D, Vec3};

fn vec3(x: f32, y: f32, z: f32) -> Vec3 {
    Vec3 { x: x.to_bits(), y: y.to_bits(), z: z.to_bits() }
}

fn sample(app_id: &str, workspace: usize) -> ClosedWindow {
    ClosedWindow {
        app_id: app_id.to_string(),
        title: "window".to_string(),
        workspace,
        transform: Transform3D {
            position: vec3(1.0, 2.0, 3.0),
            rotation: Quat {
                s: 1.0f32.to_bits(),
                x: 0.0f32.to_bits(),
                y: 0.0f32.to_bits(),
                z: 0.0f32.to_bits(),
            },
            scale: vec3(1.0, 1.0, 1.0),
        },
        closed_at_ms: 42,
    }
}

#[test]
fn history_is_lifo() {
    let mut h = ClosedWindowHistory::new(5);
    h.record(sample("foot", 0));
    h.record(sample("gedit", 1));
    assert_eq!(h.len(), 2);
    assert_eq!(h.most_recent().unwrap().app_id, "gedit");
    let taken = h.take_most_recent().unwrap();
    assert_eq!(taken.app_id, "gedit");
    assert_eq!(taken.workspace, 1);
    assert_eq!(h.len(), 1);
}

#[test]
fn history_trims_to_capacity() {
    let mut h = ClosedWindowHistory::new(2);
    h.record(sample("a", 0));
    h.record(sample("b", 0));
    h.record(sample("c", 0));
    assert_eq!(h.len(), 2);
    assert_eq!(h.most_recent().unwrap().app_id, "c");
    // oldest ("a") was dropped
    assert!(h.most_recent_for_app("a").is_none());
}

#[test]
fn most_recent_for_app_skips_other_apps() {
    let mut h = ClosedWindowHistory::new(5);
    h.record(sample("foot", 2));
    h.record(sample("gedit", 0));
    h.record(sample("foot", 1));
    let m = h.most_recent_for_app("foot").unwrap();
    assert_eq!(m.workspace, 1);
    assert!(h.most_recent_for_app("nonexistent").is_none());
}

#[test]
fn app_id_matching_rules() {
    assert!(app_id_matches_entry("foot", "foot", "Foot"));
    assert!(app_id_matches_entry("Foot", "foot", "foot terminal"));
    assert!(app_id_matches_entry("firefox", "/usr/lib/firefox/firefox", "Firefox"));
    assert!(app_id_matches_entry("firefox", "org.mozilla.firefox", "Firefox"));
    // substring suffixes must NOT match
    assert!(!app_id_matches_entry("fox", "firefox", "Firefox"));
    assert!(!app_id_matches_entry("", "foot", "Foot"));
    assert!(!app_id_matches_entry("gedit", "other", "Other"));
}
