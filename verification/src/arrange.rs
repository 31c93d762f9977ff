//! Arrangement: which visuals are arranged, as which units, and the poses
//! they get. Nothing here changes the scene until the result is applied.
use vstd::prelude::*;

use crate::anchor::SpatialAnchor;
use crate::compositor::terms::{is_fresh_id, is_visual, lemma_visual};
use crate::group::{GroupId, GroupModel, SpatialGroup};
use crate::id_list::contains_id;
use crate::scene::{
    identity_rotation, lemma_visual_index, Quat, Scalar, Scene, SceneModel, Transform3D, Vec3,
    Visual, VisualId, ONE,
};

verus! {

/// How visuals are arranged.
#[derive(Debug, Clone, Copy, PartialEq, Eq, Structural)]
pub enum ArrangeMode {
    Grid { columns: usize },
    Row,
    Column,
    Radial,
    /// Everything to the anchor.
    Reset,
}

/// Distances of an arrangement, as the bits of single-precision numbers,
/// and what it is centred on.
#[derive(Debug, Clone, Copy, PartialEq, Eq, Structural)]
pub struct ArrangeConfig {
    pub spacing: Scalar,
    pub margin: Scalar,
    pub anchor: SpatialAnchor,
}

/// `40.0`.
pub const DEFAULT_SPACING: Scalar = 0x4220_0000;

/// `100.0`.
pub const DEFAULT_MARGIN: Scalar = 0x42c8_0000;

impl Default for ArrangeConfig {
    fn default() -> (r: Self)
        ensures
            r == (ArrangeConfig {
                spacing: DEFAULT_SPACING,
                margin: DEFAULT_MARGIN,
                anchor: SpatialAnchor::WorkspaceOrigin,
            }),
    {
        ArrangeConfig {
            spacing: DEFAULT_SPACING,
            margin: DEFAULT_MARGIN,
            anchor: SpatialAnchor::WorkspaceOrigin,
        }
    }
}

/// One unit of an arrangement: a visual, or a group that its first member
/// that is not detached stands for.
#[derive(Debug, Clone, Copy, PartialEq, Eq, Structural)]
pub struct ArrangeItem {
    pub id: VisualId,
    pub group: Option<GroupId>,
}

/// The visual is a member of one of the groups.
pub open spec fn is_grouped(groups: Seq<GroupModel>, v: VisualId) -> bool {
    exists|i: int| 0 <= i < groups.len() && (#[trigger] groups[i]).members.contains(v)
}

/// Visuals that are arranged by themselves.
pub open spec fn stands_alone(scene: SceneModel, detached: Seq<VisualId>) -> spec_fn(
    VisualId,
) -> bool {
    |v: VisualId| !detached.contains(v) && !is_grouped(scene.groups, v) && scene.has(v)
}

/// Some id of one list is in the other.
pub open spec fn share_some(a: Seq<VisualId>, b: Seq<VisualId>) -> bool {
    exists|i: int| 0 <= i < a.len() && b.contains(#[trigger] a[i])
}

/// Every id of one list is in the other.
pub open spec fn all_in(a: Seq<VisualId>, b: Seq<VisualId>) -> bool {
    forall|i: int| 0 <= i < a.len() ==> b.contains(#[trigger] a[i])
}

/// The group is arranged as a unit: some member is asked for, not all are
/// detached, and some is in the scene.
pub open spec fn moves_as_one(
    scene: SceneModel,
    ids: Seq<VisualId>,
    detached: Seq<VisualId>,
    g: GroupModel,
) -> bool {
    &&& share_some(g.members, ids)
    &&& !all_in(g.members, detached)
    &&& exists|i: int| 0 <= i < g.members.len() && scene.has(#[trigger] g.members[i])
}

pub open spec fn single(v: VisualId) -> ArrangeItem {
    ArrangeItem { id: v, group: None }
}

/// Position of the first id that is not in the other list, or the length.
pub open spec fn first_outside(a: Seq<VisualId>, b: Seq<VisualId>) -> int
    decreases a.len(),
{
    if a.len() == 0 || !b.contains(a[0]) {
        0
    } else {
        1 + first_outside(a.drop_first(), b)
    }
}

/// The group as a unit: its first member that is not detached stands for
/// it.
pub open spec fn unit(g: GroupModel, detached: Seq<VisualId>) -> ArrangeItem {
    ArrangeItem { id: g.members[first_outside(g.members, detached)], group: Some(g.id) }
}

proof fn lemma_first_outside(a: Seq<VisualId>, b: Seq<VisualId>, i: int)
    requires
        0 <= i <= a.len(),
        forall|j: int| 0 <= j < i ==> b.contains(#[trigger] a[j]),
        i < a.len() ==> !b.contains(a[i]),
    ensures
        first_outside(a, b) == i,
    decreases i,
{
    if i > 0 {
        let rest = a.drop_first();
        assert(b.contains(a[0]));
        assert forall|j: int| 0 <= j < i - 1 implies b.contains(#[trigger] rest[j]) by {
            assert(rest[j] == a[j + 1]);
        }
        lemma_first_outside(rest, b, i - 1);
    }
}

/// Unless all ids are in the other list, the first that is not is found.
proof fn lemma_outside_is_found(a: Seq<VisualId>, b: Seq<VisualId>)
    ensures
        0 <= first_outside(a, b) <= a.len(),
        first_outside(a, b) < a.len() ==> !b.contains(a[first_outside(a, b)]),
        !all_in(a, b) ==> first_outside(a, b) < a.len(),
    decreases a.len(),
{
    if a.len() > 0 && b.contains(a[0]) {
        let rest = a.drop_first();
        lemma_outside_is_found(rest, b);
        if !all_in(a, b) {
            let i = choose|i: int| 0 <= i < a.len() && !b.contains(#[trigger] a[i]);
            assert(rest[i - 1] == a[i]);
        }
    }
}

/// The units of the first `n` groups.
pub open spec fn units(
    scene: SceneModel,
    ids: Seq<VisualId>,
    detached: Seq<VisualId>,
    n: int,
) -> Seq<ArrangeItem>
    decreases n,
{
    if n <= 0 {
        Seq::empty()
    } else if moves_as_one(scene, ids, detached, scene.groups[n - 1]) {
        units(scene, ids, detached, n - 1).push(unit(scene.groups[n - 1], detached))
    } else {
        units(scene, ids, detached, n - 1)
    }
}

/// The units of an arrangement: visuals first, then groups.
pub open spec fn arranged(scene: SceneModel, ids: Seq<VisualId>, detached: Seq<VisualId>) -> Seq<
    ArrangeItem,
> {
    if ids.len() == 0 {
        Seq::empty()
    } else {
        ids.filter(stands_alone(scene, detached)).map_values(|v: VisualId| single(v)) + units(
            scene,
            ids,
            detached,
            scene.groups.len() as int,
        )
    }
}

fn grouped(scene: &Scene, v: VisualId) -> (r: bool)
    ensures
        r == is_grouped(scene@.groups, v),
{
    let mut i: usize = 0;
    while i < scene.groups.len()
        invariant
            i <= scene.groups@.len(),
            scene@.groups.len() == scene.groups@.len(),
            forall|j: int| 0 <= j < i ==> !(#[trigger] scene@.groups[j]).members.contains(v),
        decreases scene.groups@.len() - i,
    {
        assert(scene@.groups[i as int] == scene.groups@[i as int]@);
        if contains_id(&scene.groups[i].visual_ids, v) {
            return true;
        }
        i = i + 1;
    }
    false
}

fn any_in(a: &Vec<VisualId>, b: &Vec<VisualId>) -> (r: bool)
    ensures
        r == share_some(a@, b@),
{
    let mut i: usize = 0;
    while i < a.len()
        invariant
            i <= a@.len(),
            forall|j: int| 0 <= j < i ==> !b@.contains(#[trigger] a@[j]),
        decreases a@.len() - i,
    {
        if contains_id(b, a[i]) {
            assert(b@.contains(a@[i as int]));
            return true;
        }
        i = i + 1;
    }
    false
}

/// The first id that is not in the other list.
fn outside(a: &Vec<VisualId>, b: &Vec<VisualId>) -> (r: Option<VisualId>)
    ensures
        r == if all_in(a@, b@) {
            None
        } else {
            Some(a@[first_outside(a@, b@)])
        },
{
    let mut i: usize = 0;
    while i < a.len()
        invariant
            i <= a@.len(),
            forall|j: int| 0 <= j < i ==> b@.contains(#[trigger] a@[j]),
        decreases a@.len() - i,
    {
        if !contains_id(b, a[i]) {
            proof {
                lemma_first_outside(a@, b@, i as int);
            }
            assert(!b@.contains(a@[i as int]));
            return Some(a[i]);
        }
        i = i + 1;
    }
    None
}

fn some_shown(scene: &Scene, ids: &Vec<VisualId>) -> (r: bool)
    ensures
        r == (exists|i: int| 0 <= i < ids@.len() && scene@.has(#[trigger] ids@[i])),
{
    let mut i: usize = 0;
    while i < ids.len()
        invariant
            i <= ids@.len(),
            forall|j: int| 0 <= j < i ==> !scene@.has(#[trigger] ids@[j]),
        decreases ids@.len() - i,
    {
        if scene.get(ids[i]).is_some() {
            assert(scene@.has(ids@[i as int]));
            return true;
        }
        i = i + 1;
    }
    false
}

fn as_one(scene: &Scene, ids: &Vec<VisualId>, detached: &Vec<VisualId>, g: &SpatialGroup) -> (r:
    Option<ArrangeItem>)
    ensures
        r == if moves_as_one(scene@, ids@, detached@, g@) {
            Some(unit(g@, detached@))
        } else {
            None
        },
{
    if any_in(&g.visual_ids, ids) && some_shown(scene, &g.visual_ids) {
        match outside(&g.visual_ids, detached) {
            Some(id) => Some(ArrangeItem { id, group: Some(g.id) }),
            None => None,
        }
    } else {
        None
    }
}

fn add_singles(scene: &Scene, ids: &Vec<VisualId>, detached: &Vec<VisualId>) -> (r: Vec<
    ArrangeItem,
>)
    ensures
        r@ == ids@.filter(stands_alone(scene@, detached@)).map_values(|v: VisualId| single(v)),
{
    let ghost p = stands_alone(scene@, detached@);
    let ghost f = |v: VisualId| single(v);
    let mut out: Vec<ArrangeItem> = Vec::new();
    let mut i: usize = 0;
    assert(ids@.take(0).filter(p) =~= Seq::empty()) by {
        reveal(Seq::filter);
    }
    assert(out@ =~= ids@.take(0).filter(p).map_values(f));
    while i < ids.len()
        invariant
            i <= ids@.len(),
            p == stands_alone(scene@, detached@),
            f == (|v: VisualId| single(v)),
            out@ == ids@.take(i as int).filter(p).map_values(f),
        decreases ids@.len() - i,
    {
        let v = ids[i];
        let ghost before = ids@.take(i as int).filter(p);
        proof {
            reveal(Seq::filter);
            assert(ids@.take(i + 1).drop_last() =~= ids@.take(i as int));
            assert(ids@.take(i + 1).last() == v);
        }
        if !contains_id(detached, v) && !grouped(scene, v) && scene.get(v).is_some() {
            out.push(ArrangeItem { id: v, group: None });
            assert(p(v));
            assert(before.push(v).map_values(f) =~= before.map_values(f).push(single(v)));
        } else {
            assert(!p(v));
        }
        i = i + 1;
    }
    assert(ids@.take(i as int) =~= ids@);
    out
}

/// The units to arrange of these visuals. Detached ones are left out, also
/// those of a group; the other members of a group move as one.
pub fn arrange(scene: &Scene, visual_ids: &Vec<VisualId>, detached_set: &Vec<VisualId>) -> (r: Vec<
    ArrangeItem,
>)
    ensures
        r@ == arranged(scene@, visual_ids@, detached_set@),
{
    if visual_ids.len() == 0 {
        return Vec::new();
    }
    let mut out = add_singles(scene, visual_ids, detached_set);
    let ghost head = out@;
    let mut i: usize = 0;
    assert(out@ =~= head + units(scene@, visual_ids@, detached_set@, 0));
    while i < scene.groups.len()
        invariant
            i <= scene.groups@.len(),
            scene@.groups.len() == scene.groups@.len(),
            out@ == head + units(scene@, visual_ids@, detached_set@, i as int),
        decreases scene.groups@.len() - i,
    {
        assert(scene@.groups[i as int] == scene.groups@[i as int]@);
        if let Some(item) = as_one(scene, visual_ids, detached_set, &scene.groups[i]) {
            out.push(item);
        }
        i = i + 1;
        assert(out@ =~= head + units(scene@, visual_ids@, detached_set@, i as int));
    }
    out
}

/// The pose of an arranged unit.
pub open spec fn upright_at(position: Vec3) -> Transform3D {
    Transform3D {
        position,
        rotation: identity_rotation(),
        scale: Vec3 { x: ONE, y: ONE, z: ONE },
    }
}

/// The poses of an arrangement: each unit upright at its position, or at
/// the anchor when there are too few positions.
pub fn arrangement(items: &Vec<ArrangeItem>, positions: &Vec<Vec3>, anchor: Vec3) -> (r: Vec<
    (VisualId, Transform3D),
>)
    ensures
        r@.len() == items@.len(),
        forall|i: int|
            0 <= i < r@.len() ==> (#[trigger] r@[i]) == (
                items@[i].id,
                upright_at(
                    if i < positions@.len() {
                        positions@[i]
                    } else {
                        anchor
                    },
                ),
            ),
{
    let mut out: Vec<(VisualId, Transform3D)> = Vec::new();
    let mut i: usize = 0;
    while i < items.len()
        invariant
            i <= items@.len(),
            out@.len() == i,
            forall|j: int|
                0 <= j < i ==> (#[trigger] out@[j]) == (
                    items@[j].id,
                    upright_at(
                        if j < positions@.len() {
                            positions@[j]
                        } else {
                            anchor
                        },
                    ),
                ),
        decreases items@.len() - i,
    {
        let position = if i < positions.len() {
            positions[i]
        } else {
            anchor
        };
        let pose = Transform3D {
            position,
            rotation: Quat::identity(),
            scale: Vec3 { x: ONE, y: ONE, z: ONE },
        };
        out.push((items[i].id, pose));
        i = i + 1;
    }
    out
}

/// The scene after the poses were given in turn.
pub open spec fn applied(scene: SceneModel, poses: Seq<(VisualId, Transform3D)>) -> SceneModel
    decreases poses.len(),
{
    if poses.len() == 0 {
        scene
    } else {
        applied(scene, poses.drop_last()).posed(poses.last().0, poses.last().1)
    }
}

/// Gives the visuals their poses; one that is gone gets none.
pub fn apply_arrangement(scene: &mut Scene, poses: &Vec<(VisualId, Transform3D)>)
    ensures
        final(scene)@ == applied(old(scene)@, poses@),
{
    let mut i: usize = 0;
    assert(poses@.take(0) =~= Seq::empty());
    while i < poses.len()
        invariant
            i <= poses@.len(),
            scene@ == applied(old(scene)@, poses@.take(i as int)),
        decreases poses@.len() - i,
    {
        assert(poses@.take(i + 1).drop_last() =~= poses@.take(i as int));
        assert(poses@.take(i + 1).last() == poses@[i as int]);
        scene.set_transform(poses[i].0, poses[i].1);
        i = i + 1;
    }
    assert(poses@.take(i as int) =~= poses@);
}

/// Column and row of the unit `i` in a grid of at least one column.
pub fn grid_cell(i: usize, columns: usize) -> (r: (usize, usize))
    ensures
        columns > 0 ==> r.0 == i as int % columns as int && r.1 == i as int / columns as int,
        columns == 0 ==> r == (0usize, i),
{
    if columns == 0 {
        (0, i)
    } else {
        (i % columns, i / columns)
    }
}

/// A detached visual is in no arrangement, neither by itself nor for its
/// group.
pub proof fn law_detached_stays(
    scene: SceneModel,
    ids: Seq<VisualId>,
    detached: Seq<VisualId>,
    v: VisualId,
    i: int,
)
    requires
        detached.contains(v),
        0 <= i < arranged(scene, ids, detached).len(),
    ensures
        arranged(scene, ids, detached)[i].id != v,
{
    let p = stands_alone(scene, detached);
    let alone = ids.filter(p);
    let n = scene.groups.len() as int;
    lemma_units_are_attached(scene, ids, detached, n);
    let all = arranged(scene, ids, detached);
    if i < alone.len() {
        assert(all[i] == single(alone[i]));
        ids.lemma_filter_pred(p, i);
    } else {
        assert(all[i] == units(scene, ids, detached, n)[i - alone.len()]);
    }
}

/// Arranging never moves a detached visual.
pub proof fn law_arranging_leaves_detached_alone(
    scene: SceneModel,
    ids: Seq<VisualId>,
    detached: Seq<VisualId>,
    poses: Seq<(VisualId, Transform3D)>,
    v: VisualId,
)
    requires
        detached.contains(v),
        poses.len() == arranged(scene, ids, detached).len(),
        forall|i: int|
            0 <= i < poses.len() ==> (#[trigger] poses[i]).0 == arranged(scene, ids, detached)[i].id,
    ensures
        applied(scene, poses).has(v) == scene.has(v),
        scene.has(v) ==> applied(scene, poses).visual(v) == scene.visual(v),
{
    assert forall|i: int| 0 <= i < poses.len() implies (#[trigger] poses[i]).0 != v by {
        law_detached_stays(scene, ids, detached, v, i);
    }
    law_others_stay_put(scene, poses, v);
}

proof fn lemma_units_are_attached(
    scene: SceneModel,
    ids: Seq<VisualId>,
    detached: Seq<VisualId>,
    n: int,
)
    ensures
        forall|i: int|
            0 <= i < units(scene, ids, detached, n).len() ==> !detached.contains(
                (#[trigger] units(scene, ids, detached, n)[i]).id,
            ),
    decreases n,
{
    if n > 0 {
        lemma_units_are_attached(scene, ids, detached, n - 1);
        lemma_outside_is_found(scene.groups[n - 1].members, detached);
    }
}

/// A visual that the poses do not name stays as it is.
pub proof fn law_others_stay_put(scene: SceneModel, poses: Seq<(VisualId, Transform3D)>, v: VisualId)
    requires
        forall|i: int| 0 <= i < poses.len() ==> (#[trigger] poses[i]).0 != v,
    ensures
        applied(scene, poses).has(v) == scene.has(v),
        scene.has(v) ==> applied(scene, poses).visual(v) == scene.visual(v),
    decreases poses.len(),
{
    if poses.len() > 0 {
        assert(poses.last() == poses[poses.len() - 1]);
        assert forall|i: int| 0 <= i < poses.drop_last().len() implies (
        #[trigger] poses.drop_last()[i]).0 != v by {
            assert(poses.drop_last()[i] == poses[i]);
        }
        law_others_stay_put(scene, poses.drop_last(), v);
        crate::scene::lemma_posed_elsewhere(
            applied(scene, poses.drop_last()),
            poses.last().0,
            poses.last().1,
            v,
        );
    }
}

/// A visual that is asked for, there, not detached and in no group is
/// arranged by itself.
pub proof fn law_lone_visual_is_arranged(
    scene: SceneModel,
    ids: Seq<VisualId>,
    detached: Seq<VisualId>,
    v: VisualId,
)
    requires
        ids.contains(v),
        !detached.contains(v),
        !is_fresh_id(scene, v),
        forall|g: int|
            0 <= g < scene.groups.len() ==> !(#[trigger] scene.groups[g]).members.contains(v),
    ensures
        arranged(scene, ids, detached).contains(ArrangeItem { id: v, group: None }),
{
    broadcast use vstd::seq_lib::group_filter_ensures;

    let p = stands_alone(scene, detached);
    let f = ids.filter(p);
    assert(p(v));
    let k = choose|k: int| 0 <= k < ids.len() && ids[k] == v;
    assert(f.contains(ids[k]));
    let i = choose|i: int| 0 <= i < f.len() && f[i] == v;
    assert(arranged(scene, ids, detached)[i] == single(v));
}

/// A group is arranged as one where a member is asked for and a member is
/// there: the first member that is not detached stands for it.
pub proof fn law_group_is_arranged_as_one(
    scene: SceneModel,
    ids: Seq<VisualId>,
    detached: Seq<VisualId>,
    g: int,
    asked: VisualId,
    there: VisualId,
    first: int,
)
    requires
        0 <= g < scene.groups.len(),
        scene.groups[g].members.contains(asked),
        ids.contains(asked),
        scene.groups[g].members.contains(there),
        !is_fresh_id(scene, there),
        0 <= first < scene.groups[g].members.len(),
        !detached.contains(scene.groups[g].members[first]),
        forall|j: int|
            0 <= j < first ==> detached.contains(#[trigger] scene.groups[g].members[j]),
    ensures
        arranged(scene, ids, detached).contains(
            ArrangeItem {
                id: scene.groups[g].members[first],
                group: Some(scene.groups[g].id),
            },
        ),
{
    let members = scene.groups[g].members;
    let a = choose|a: int| 0 <= a < members.len() && members[a] == asked;
    let t = choose|t: int| 0 <= t < members.len() && members[t] == there;
    assert(ids.contains(members[a]));
    assert(scene.has(members[t]));
    assert(moves_as_one(scene, ids, detached, scene.groups[g]));
    lemma_first_outside(members, detached, first);
    let n = scene.groups.len() as int;
    lemma_unit_is_listed(scene, ids, detached, n, g);
    let u = units(scene, ids, detached, n);
    let i = choose|i: int| 0 <= i < u.len() && u[i] == unit(scene.groups[g], detached);
    let alone = ids.filter(stands_alone(scene, detached));
    assert(arranged(scene, ids, detached)[alone.len() + i] == u[i]);
}

proof fn lemma_unit_is_listed(
    scene: SceneModel,
    ids: Seq<VisualId>,
    detached: Seq<VisualId>,
    n: int,
    g: int,
)
    requires
        0 <= g < n,
        moves_as_one(scene, ids, detached, scene.groups[g]),
    ensures
        units(scene, ids, detached, n).contains(unit(scene.groups[g], detached)),
    decreases n,
{
    let u = units(scene, ids, detached, n);
    if g == n - 1 {
        assert(u[u.len() - 1] == unit(scene.groups[g], detached));
    } else {
        lemma_unit_is_listed(scene, ids, detached, n - 1, g);
        let before = units(scene, ids, detached, n - 1);
        let i = choose|i: int|
            0 <= i < before.len() && before[i] == unit(scene.groups[g], detached);
        assert(u[i] == before[i]);
    }
}

/// Nothing else is arranged: a visual by itself was asked for and is in no
/// group, and one that stands for a group is a member of it.
pub proof fn law_only_what_is_asked_for_is_arranged(
    scene: SceneModel,
    ids: Seq<VisualId>,
    detached: Seq<VisualId>,
    i: int,
)
    requires
        0 <= i < arranged(scene, ids, detached).len(),
    ensures
        ({
            let item = arranged(scene, ids, detached)[i];
            &&& item.group is None ==> ids.contains(item.id) && !is_fresh_id(scene, item.id)
                && forall|g: int|
                0 <= g < scene.groups.len() ==> !(#[trigger] scene.groups[g]).members.contains(
                    item.id,
                )
            &&& item.group matches Some(id) ==> exists|g: int|
                0 <= g < scene.groups.len() && (#[trigger] scene.groups[g]).id == id
                    && scene.groups[g].members.contains(item.id) && share_some(
                    scene.groups[g].members,
                    ids,
                )
        }),
{
    let p = stands_alone(scene, detached);
    let alone = ids.filter(p);
    let n = scene.groups.len() as int;
    let all = arranged(scene, ids, detached);
    if i < alone.len() {
        assert(all[i] == single(alone[i]));
        ids.lemma_filter_pred(p, i);
        assert(alone.contains(alone[i]));
        ids.lemma_filter_contains_rev(p, alone[i]);
    } else {
        assert(all[i] == units(scene, ids, detached, n)[i - alone.len()]);
        lemma_units_are_of_groups(scene, ids, detached, n, i - alone.len());
    }
}

proof fn lemma_units_are_of_groups(
    scene: SceneModel,
    ids: Seq<VisualId>,
    detached: Seq<VisualId>,
    n: int,
    i: int,
)
    requires
        0 <= n <= scene.groups.len(),
        0 <= i < units(scene, ids, detached, n).len(),
    ensures
        ({
            let item = units(scene, ids, detached, n)[i];
            item.group matches Some(id) && exists|g: int|
                0 <= g < scene.groups.len() && (#[trigger] scene.groups[g]).id == id
                    && scene.groups[g].members.contains(item.id) && share_some(
                    scene.groups[g].members,
                    ids,
                )
        }),
    decreases n,
{
    let group = scene.groups[n - 1];
    let u = units(scene, ids, detached, n);
    if moves_as_one(scene, ids, detached, group) && i == u.len() - 1 {
        lemma_outside_is_found(group.members, detached);
        assert(group.members.contains(u[i].id));
    } else {
        lemma_units_are_of_groups(scene, ids, detached, n - 1, i);
        assert(u[i] == units(scene, ids, detached, n - 1)[i]);
    }
}

/// A visual has the last pose that it was given, and nothing else of it
/// changes.
pub proof fn law_pose_is_given(
    scene: SceneModel,
    poses: Seq<(VisualId, Transform3D)>,
    k: int,
    i: int,
)
    requires
        0 <= k < poses.len(),
        is_visual(scene, poses[k].0, i),
        forall|j: int| k < j < poses.len() ==> (#[trigger] poses[j]).0 != poses[k].0,
    ensures
        applied(scene, poses).visuals.len() == scene.visuals.len(),
        applied(scene, poses).visuals[i] == (Visual {
            transform: poses[k].1,
            ..scene.visuals[i]
        }),
    decreases poses.len(),
{
    let rest = poses.drop_last();
    let before = applied(scene, rest);
    let v = poses[k].0;
    let last = poses.last();
    assert(last == poses[poses.len() - 1]);
    lemma_poses_keep_the_rest(scene, rest, v, i);
    if k < poses.len() - 1 {
        assert(rest[k] == poses[k]);
        assert forall|j: int| k < j < rest.len() implies (#[trigger] rest[j]).0 != rest[k].0 by {
            assert(rest[j] == poses[j]);
        }
        law_pose_is_given(scene, rest, k, i);
    }
    lemma_visual(before, v, i);
    lemma_visual_index(before.visuals, last.0);
}

proof fn lemma_poses_keep_the_rest(
    scene: SceneModel,
    poses: Seq<(VisualId, Transform3D)>,
    v: VisualId,
    i: int,
)
    requires
        is_visual(scene, v, i),
    ensures
        is_visual(applied(scene, poses), v, i),
        applied(scene, poses).visuals.len() == scene.visuals.len(),
        applied(scene, poses).visuals[i] == (Visual {
            transform: applied(scene, poses).visuals[i].transform,
            ..scene.visuals[i]
        }),
    decreases poses.len(),
{
    if poses.len() > 0 {
        lemma_poses_keep_the_rest(scene, poses.drop_last(), v, i);
        lemma_visual_index(applied(scene, poses.drop_last()).visuals, poses.last().0);
    }
}

} // verus!
