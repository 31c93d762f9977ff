use veyra::anchor::{
    bounded_by, resolve_anchor, resolve_anchor_or_default, AnchorPoint, Edge, SpatialAnchor,
};
use veyra::input::Camera;
use veyra::scene::{Scene, Transform3D, Vec3, Visual, VisualId, WindowState};

fn vec3(x: f32, y: f32, z: f32) -> Vec3 {
    Vec3 { x: x.to_bits(), y: y.to_bits(), z: z.to_bits() }
}

fn point(position: Vec3) -> AnchorPoint {
    AnchorPoint { position, edge: None }
}

fn visual(id: u64, position: Vec3) -> Visual {
    Visual {
        id: VisualId(id),
        width: 100,
        height: 80,
        transform: Transform3D { position, ..Transform3D::identity() },
        parent: None,
        window_state: WindowState::Normal,
        connected: true,
        chrome_focused: false,
    }
}

#[test]
fn workspace_origin_is_zero() {
    let scene = Scene::default();
    let pos = resolve_anchor(&scene, &SpatialAnchor::WorkspaceOrigin);
    assert_eq!(pos, Some(point(vec3(0.0, 0.0, 0.0))));
}

#[test]
fn invalid_visual_id_returns_none() {
    let scene = Scene::default();
    assert!(resolve_anchor(&scene, &SpatialAnchor::VisualCenter(VisualId(999))).is_none());
    assert!(
        resolve_anchor(&scene, &SpatialAnchor::VisualEdge(VisualId(999), Edge::Left)).is_none()
    );
}

#[test]
fn custom_anchor_returns_given_position() {
    let scene = Scene::default();
    let pos = resolve_anchor(&scene, &SpatialAnchor::Custom(vec3(42.0, 99.0, -10.0)));
    assert_eq!(pos, Some(point(vec3(42.0, 99.0, -10.0))));
}

#[test]
fn resolve_or_default_falls_back() {
    let scene = Scene::default();
    let pos = resolve_anchor_or_default(&scene, &SpatialAnchor::VisualCenter(VisualId(999)));
    assert_eq!(pos, point(vec3(0.0, 0.0, 0.0)));
}

#[test]
fn camera_independent_resolution_no_crash() {
    let scene = Scene::default();
    let anchor = SpatialAnchor::WorkspaceOrigin;
    let pos1 = resolve_anchor(&scene, &anchor);
    let mut cam = Camera::new();
    cam.position = vec3(999.0, 999.0, 999.0);
    cam.yaw = 1.5f32.to_bits();
    cam.pitch = 0.8f32.to_bits();
    let pos2 = resolve_anchor(&scene, &anchor);
    assert_eq!(pos1, pos2, "camera must not affect anchor position");
    assert_eq!(cam.position.x, 999.0f32.to_bits());
}

#[test]
fn visual_set_center_empty_returns_none() {
    let scene = Scene::default();
    assert!(bounded_by(&scene, &vec![VisualId(999)]).is_empty());
}

#[test]
fn an_anchor_on_a_visual_is_where_the_visual_is() {
    let mut scene = Scene::default();
    scene.add(visual(3, vec3(1.0, 2.0, 3.0)));
    assert_eq!(
        resolve_anchor(&scene, &SpatialAnchor::VisualCenter(VisualId(3))),
        Some(point(vec3(1.0, 2.0, 3.0)))
    );
    assert_eq!(
        resolve_anchor(&scene, &SpatialAnchor::VisualEdge(VisualId(3), Edge::Top)),
        Some(AnchorPoint { position: vec3(1.0, 2.0, 3.0), edge: Some(Edge::Top) })
    );
}

#[test]
fn only_visuals_of_the_scene_make_up_bounds() {
    let mut scene = Scene::default();
    scene.add(visual(3, vec3(1.0, 2.0, 3.0)));
    let ids = vec![VisualId(9), VisualId(3), VisualId(3)];
    assert_eq!(bounded_by(&scene, &ids), vec![VisualId(3), VisualId(3)]);
}
