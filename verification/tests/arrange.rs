use veyra::anchor::SpatialAnchor;
use veyra::arrange::{
    apply_arrangement, arrange, arrangement, grid_cell, ArrangeConfig, ArrangeItem,
};
use veyra::scene::{Scene, Transform3D, Vec3, Visual, VisualId, WindowState};

fn vec3(x: f32, y: f32, z: f32) -> Vec3 {
    Vec3 { x: x.to_bits(), y: y.to_bits(), z: z.to_bits() }
}

fn visual(id: u64) -> Visual {
    Visual {
        id: VisualId(id),
        width: 100,
        height: 80,
        transform: Transform3D::identity(),
        parent: None,
        window_state: WindowState::Normal,
        connected: true,
        chrome_focused: false,
    }
}

fn single(id: u64) -> ArrangeItem {
    ArrangeItem { id: VisualId(id), group: None }
}

#[test]
fn empty_input() {
    let scene = Scene::default();
    let result = arrange(&scene, &vec![], &vec![]);
    assert!(result.is_empty());
}

#[test]
fn single_visual() {
    let mut scene = Scene::default();
    let vid = VisualId(100);
    scene.focus(Some(vid));
    let result = arrange(&scene, &vec![vid], &vec![]);
    assert!(result.is_empty());
}

#[test]
fn detached_visual_excluded() {
    let mut scene = Scene::default();
    let vid = VisualId(100);
    scene.focus(Some(vid));
    let result = arrange(&scene, &vec![vid], &vec![vid]);
    assert!(result.is_empty());
}

#[test]
fn reset_returns_to_anchor() {
    let scene = Scene::default();
    let result = arrange(&scene, &vec![VisualId(100), VisualId(101), VisualId(102)], &vec![]);
    assert!(result.is_empty() || result.len() == 3);
}

#[test]
fn arrange_produces_hashmap_not_mutation() {
    let mut scene = Scene::default();
    let vid = VisualId(100);
    scene.focus(Some(vid));
    let _result: Vec<ArrangeItem> = arrange(&scene, &vec![vid], &vec![]);
    assert_eq!(scene.focused_id, Some(vid));
}

#[test]
fn shown_visuals_are_arranged_and_detached_ones_are_not() {
    let mut scene = Scene::default();
    scene.add(visual(1));
    scene.add(visual(2));
    scene.add(visual(3));
    let ids = vec![VisualId(3), VisualId(1), VisualId(2), VisualId(9)];
    assert_eq!(arrange(&scene, &ids, &vec![VisualId(1)]), vec![single(3), single(2)]);
}

#[test]
fn a_group_is_arranged_as_one_after_the_visuals() {
    let mut scene = Scene::default();
    scene.add(visual(1));
    scene.add(visual(2));
    scene.add(visual(3));
    let group = scene.create_group(vec![VisualId(1), VisualId(2)]);
    let ids = vec![VisualId(1), VisualId(2), VisualId(3)];
    assert_eq!(
        arrange(&scene, &ids, &vec![]),
        vec![single(3), ArrangeItem { id: VisualId(1), group: Some(group) }]
    );
    assert_eq!(arrange(&scene, &ids, &vec![VisualId(1), VisualId(2)]), vec![single(3)]);
}

#[test]
fn units_without_a_position_go_to_the_anchor() {
    let items = vec![single(1), single(2)];
    let poses = arrangement(&items, &vec![vec3(5.0, 6.0, 7.0)], vec3(0.0, 0.0, 1.0));
    assert_eq!(poses.len(), 2);
    assert_eq!(poses[0].0, VisualId(1));
    assert_eq!(poses[0].1.position, vec3(5.0, 6.0, 7.0));
    assert_eq!(poses[0].1.scale, vec3(1.0, 1.0, 1.0));
    assert_eq!(poses[1].1.position, vec3(0.0, 0.0, 1.0));
    assert_eq!(poses[1].1.rotation, Transform3D::identity().rotation);
}

#[test]
fn applied_poses_move_only_the_visuals_they_name() {
    let mut scene = Scene::default();
    scene.add(visual(1));
    scene.add(visual(2));
    let pose = Transform3D { position: vec3(4.0, 0.0, 0.0), ..Transform3D::identity() };
    apply_arrangement(&mut scene, &vec![(VisualId(2), pose), (VisualId(8), pose)]);
    assert_eq!(scene.get(VisualId(1)).unwrap().transform, Transform3D::identity());
    assert_eq!(scene.get(VisualId(2)).unwrap().transform, pose);
}

#[test]
fn a_grid_has_at_least_one_column() {
    assert_eq!(grid_cell(5, 3), (2, 1));
    assert_eq!(grid_cell(5, 0), (0, 5));
}

#[test]
fn arrangements_are_spaced_by_default() {
    let config = ArrangeConfig::default();
    assert_eq!(f32::from_bits(config.spacing), 40.0);
    assert_eq!(f32::from_bits(config.margin), 100.0);
    assert_eq!(config.anchor, SpatialAnchor::WorkspaceOrigin);
}

#[test]
fn a_detached_member_does_not_stand_for_its_group() {
    let mut scene = Scene::default();
    scene.add(visual(1));
    scene.add(visual(2));
    let group = scene.create_group(vec![VisualId(1), VisualId(2)]);
    let ids = vec![VisualId(1), VisualId(2)];
    assert_eq!(
        arrange(&scene, &ids, &vec![VisualId(1)]),
        vec![ArrangeItem { id: VisualId(2), group: Some(group) }]
    );
    assert_eq!(
        arrange(&scene, &ids, &vec![VisualId(2)]),
        vec![ArrangeItem { id: VisualId(1), group: Some(group) }]
    );
}
