use veyra::group::{GroupId, GroupIds, SpatialGroup};
use veyra::scene::{Scene, VisualId};

fn make_scene_with_visuals(count: usize) -> Scene {
    let mut scene = Scene::default();
    for i in 0..count {
        let vid = VisualId(1000 + i as u64);
        scene.focus(Some(vid));
        // Focus tracks the id alone; no visual is needed for it.
    }
    scene
}

#[test]
fn create_group_returns_valid_id() {
    let mut scene = make_scene_with_visuals(3);
    let ids = vec![VisualId(1000), VisualId(1001)];
    let gid = scene.create_group(ids);
    assert!(scene.groups.iter().any(|g| g.id == gid));
}

#[test]
fn create_group_accepts_any_visual_id() {
    let mut scene = Scene::default();
    // Groups accept any VisualId — they don't validate existence
    let ids = vec![VisualId(1000), VisualId(9999)];
    let gid = scene.create_group(ids);
    let members = scene.group_visuals(gid).unwrap();
    assert_eq!(members.len(), 2);
}

#[test]
fn add_to_group_and_verify_members() {
    let mut scene = make_scene_with_visuals(5);
    let ids = vec![VisualId(1000), VisualId(1001)];
    let gid = scene.create_group(ids);
    scene.add_to_group(gid, VisualId(1002));
    let members = scene.group_visuals(gid).unwrap();
    assert_eq!(members.len(), 3);
}

#[test]
fn remove_from_group() {
    let mut scene = make_scene_with_visuals(3);
    let ids = vec![VisualId(1000), VisualId(1001), VisualId(1002)];
    let gid = scene.create_group(ids);
    scene.remove_from_group(gid, VisualId(1001));
    let members = scene.group_visuals(gid).unwrap();
    assert_eq!(members.len(), 2);
    assert!(members.contains(&VisualId(1000)));
    assert!(members.contains(&VisualId(1002)));
}

#[test]
fn dissolve_group_does_not_destroy_visuals() {
    let mut scene = make_scene_with_visuals(3);
    let ids = vec![VisualId(1000), VisualId(1001)];
    let gid = scene.create_group(ids);
    assert!(scene.remove_group(gid));
    assert!(!scene.groups.iter().any(|g| g.id == gid));
    // Visuals survive (their focus state in Scene persists)
    assert_eq!(scene.focused_id, Some(VisualId(1002)));
}

#[test]
fn add_to_nonexistent_group_returns_false() {
    let mut scene = Scene::default();
    assert!(!scene.add_to_group(GroupId(999), VisualId(1)));
}

#[test]
fn groups_for_visual() {
    let mut scene = make_scene_with_visuals(5);
    let gid1 = scene.create_group(vec![VisualId(1000), VisualId(1001)]);
    let gid2 = scene.create_group(vec![VisualId(1000), VisualId(1002)]);

    let groups = scene.groups_for_visual(VisualId(1000));
    assert_eq!(groups.len(), 2);
    assert!(groups.contains(&gid1));
    assert!(groups.contains(&gid2));
}

#[test]
fn remove_visual_from_all_groups() {
    let mut scene = make_scene_with_visuals(3);
    let gid = scene.create_group(vec![VisualId(1000), VisualId(1001)]);
    scene.remove_from_all_groups(VisualId(1000));
    let members = scene.group_visuals(gid).unwrap();
    assert_eq!(members.len(), 1);
    assert_eq!(members[0], VisualId(1001));
}

#[test]
fn create_empty_group() {
    let mut scene = Scene::default();
    let gid = scene.create_group(vec![]);
    let members = scene.group_visuals(gid).unwrap();
    assert!(members.is_empty());
}

#[test]
fn group_id_is_unique() {
    let mut ids = GroupIds::new();
    let id1 = GroupId::next(&mut ids);
    let id2 = GroupId::next(&mut ids);
    assert_ne!(id1, id2);
}

#[test]
fn group_len_and_empty() {
    let g = SpatialGroup::new(GroupId(1), vec![VisualId(1), VisualId(2)]);
    assert_eq!(g.len(), 2);
    assert!(!g.is_empty());

    let empty = SpatialGroup::new(GroupId(2), vec![]);
    assert!(empty.is_empty());
    assert_eq!(empty.len(), 0);
}
