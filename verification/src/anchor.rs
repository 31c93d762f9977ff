//! Anchors: positions in the workspace that things are placed by. They
//! rest on the scene alone; no camera changes them.
use vstd::prelude::*;

use crate::compositor::terms::{is_fresh_id, is_visual, lemma_visual};
use crate::scene::{Scene, SceneModel, Vec3, VisualId, ZERO};

verus! {

/// An edge of a visual's bounds.
#[derive(Debug, Clone, Copy, PartialEq, Eq, Structural)]
pub enum Edge {
    Left,
    Right,
    Top,
    Bottom,
    Front,
    Back,
}

/// What a position is taken from.
#[derive(Debug, Clone, Copy, PartialEq, Eq, Structural)]
pub enum SpatialAnchor {
    WorkspaceOrigin,
    /// The centre of a visual.
    VisualCenter(VisualId),
    /// An edge of a visual.
    VisualEdge(VisualId, Edge),
    Custom(Vec3),
}

/// A resolved anchor: a position, and the edge to step to from it by half
/// the visual's extent.
#[derive(Debug, Clone, Copy, PartialEq, Eq, Structural)]
pub struct AnchorPoint {
    pub position: Vec3,
    pub edge: Option<Edge>,
}

/// The workspace origin.
pub open spec fn origin() -> Vec3 {
    Vec3 { x: ZERO, y: ZERO, z: ZERO }
}

/// Where the anchor is; nowhere when its visual is gone.
pub open spec fn anchored(scene: SceneModel, anchor: SpatialAnchor) -> Option<AnchorPoint> {
    match anchor {
        SpatialAnchor::WorkspaceOrigin => Some(AnchorPoint { position: origin(), edge: None }),
        SpatialAnchor::VisualCenter(vid) => if scene.has(vid) {
            Some(AnchorPoint { position: scene.visual(vid).transform.position, edge: None })
        } else {
            None
        },
        SpatialAnchor::VisualEdge(vid, edge) => if scene.has(vid) {
            Some(AnchorPoint { position: scene.visual(vid).transform.position, edge: Some(edge) })
        } else {
            None
        },
        SpatialAnchor::Custom(position) => Some(AnchorPoint { position, edge: None }),
    }
}

/// Where the anchor is; nowhere when its visual is gone.
pub fn resolve_anchor(scene: &Scene, anchor: &SpatialAnchor) -> (r: Option<AnchorPoint>)
    ensures
        r == anchored(scene@, *anchor),
{
    match *anchor {
        SpatialAnchor::WorkspaceOrigin => Some(
            AnchorPoint { position: Vec3 { x: ZERO, y: ZERO, z: ZERO }, edge: None },
        ),
        SpatialAnchor::VisualCenter(vid) => match scene.get(vid) {
            Some(v) => Some(AnchorPoint { position: v.transform.position, edge: None }),
            None => None,
        },
        SpatialAnchor::VisualEdge(vid, edge) => match scene.get(vid) {
            Some(v) => Some(AnchorPoint { position: v.transform.position, edge: Some(edge) }),
            None => None,
        },
        SpatialAnchor::Custom(position) => Some(AnchorPoint { position, edge: None }),
    }
}

/// Where the anchor is, or the origin.
pub fn resolve_anchor_or_default(scene: &Scene, anchor: &SpatialAnchor) -> (r: AnchorPoint)
    ensures
        r == match anchored(scene@, *anchor) {
            Some(p) => p,
            None => AnchorPoint { position: origin(), edge: None },
        },
{
    match resolve_anchor(scene, anchor) {
        Some(p) => p,
        None => AnchorPoint { position: Vec3 { x: ZERO, y: ZERO, z: ZERO }, edge: None },
    }
}

/// Visuals that are in the scene.
pub open spec fn is_in(scene: SceneModel) -> spec_fn(VisualId) -> bool {
    |v: VisualId| scene.has(v)
}

/// Those of the ids whose visuals make up the bounds of the set. Without
/// any, the set has no bounds.
pub fn bounded_by(scene: &Scene, ids: &Vec<VisualId>) -> (r: Vec<VisualId>)
    ensures
        r@ == ids@.filter(is_in(scene@)),
{
    let mut out: Vec<VisualId> = Vec::new();
    let mut i: usize = 0;
    assert(ids@.take(0).filter(is_in(scene@)) =~= Seq::empty()) by {
        reveal(Seq::filter);
    }
    while i < ids.len()
        invariant
            i <= ids@.len(),
            out@ == ids@.take(i as int).filter(is_in(scene@)),
        decreases ids@.len() - i,
    {
        let v = ids[i];
        proof {
            reveal(Seq::filter);
            assert(ids@.take(i + 1).drop_last() =~= ids@.take(i as int));
            assert(ids@.take(i + 1).last() == v);
        }
        if scene.get(v).is_some() {
            out.push(v);
        }
        i = i + 1;
    }
    assert(ids@.take(i as int) =~= ids@);
    out
}

/// An anchor at a visual is where the visual is, wherever it goes, and
/// keeps the edge it was given; one at a visual that is gone is nowhere.
/// The origin is where all coordinates are zero, and a place of its own is
/// itself.
pub proof fn law_anchor_is_where_its_visual_is(
    scene: SceneModel,
    vid: VisualId,
    i: int,
    edge: Edge,
    place: Vec3,
)
    ensures
        is_visual(scene, vid, i) ==> {
            &&& anchored(scene, SpatialAnchor::VisualCenter(vid)) == Some(
                AnchorPoint { position: scene.visuals[i].transform.position, edge: None },
            )
            &&& anchored(scene, SpatialAnchor::VisualEdge(vid, edge)) == Some(
                AnchorPoint { position: scene.visuals[i].transform.position, edge: Some(edge) },
            )
        },
        is_fresh_id(scene, vid) ==> {
            &&& anchored(scene, SpatialAnchor::VisualCenter(vid)) is None
            &&& anchored(scene, SpatialAnchor::VisualEdge(vid, edge)) is None
        },
        anchored(scene, SpatialAnchor::Custom(place)) == Some(
            AnchorPoint { position: place, edge: None },
        ),
        anchored(scene, SpatialAnchor::WorkspaceOrigin) matches Some(p) && p.position.x == 0
            && p.position.y == 0 && p.position.z == 0 && p.edge is None,
{
    if is_visual(scene, vid, i) {
        lemma_visual(scene, vid, i);
    }
}

/// Of the ids exactly those whose visuals are there make up the bounds.
pub proof fn law_bounds_are_of_visuals_that_are_there(
    scene: SceneModel,
    ids: Seq<VisualId>,
    v: VisualId,
)
    ensures
        ids.filter(is_in(scene)).contains(v) <==> ids.contains(v) && !is_fresh_id(scene, v),
{
    broadcast use vstd::seq_lib::group_filter_ensures;

    let f = ids.filter(is_in(scene));
    assert(is_in(scene)(v) <==> !is_fresh_id(scene, v));
    if f.contains(v) {
        ids.lemma_filter_contains_rev(is_in(scene), v);
        let k = choose|k: int| 0 <= k < f.len() && f[k] == v;
        ids.lemma_filter_pred(is_in(scene), k);
    }
    if ids.contains(v) && !is_fresh_id(scene, v) {
        let k = choose|k: int| 0 <= k < ids.len() && ids[k] == v;
        assert(f.contains(ids[k]));
    }
}

} // verus!
