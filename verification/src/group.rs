//! Spatial groups: visuals that move together.
//!
//! A group is presentation state only. Dissolving one leaves its members
//! where they are, and a member may be any id, whether or not the scene
//! holds a visual for it yet.
use vstd::prelude::*;

use crate::id_list::{add_id, contains_id, remove_id, with_member, without};
use crate::scene::{identity_transform, Scene, SceneModel, Transform3D, VisualId};

verus! {

/// A unique identifier for a spatial group.
#[derive(Debug, Clone, Copy, PartialEq, Eq, Hash, Structural)]
pub struct GroupId(pub u64);

/// Hands out group identifiers, counting up from one.
#[derive(Debug)]
pub struct GroupIds {
    pub next: u64,
}

impl GroupIds {
    pub fn new() -> (r: Self)
        ensures
            r.next == 1,
    {
        GroupIds { next: 1 }
    }
}

impl GroupId {
    /// The next identifier. The counter wraps at the end of its range.
    pub fn next(ids: &mut GroupIds) -> (r: Self)
        ensures
            r == GroupId(old(ids).next),
            final(ids).next as int == if old(ids).next == u64::MAX {
                0
            } else {
                old(ids).next + 1
            },
    {
        let id = GroupId(ids.next);
        ids.next = ids.next.wrapping_add(1);
        id
    }
}

/// A set of visuals that move together, and the transform they share.
#[derive(Debug)]
pub struct SpatialGroup {
    pub id: GroupId,
    pub visual_ids: Vec<VisualId>,
    pub transform: Transform3D,
}

/// A group, as a mathematical value.
#[verifier::ext_equal]
pub ghost struct GroupModel {
    pub id: GroupId,
    pub members: Seq<VisualId>,
    pub transform: Transform3D,
}

impl View for SpatialGroup {
    type V = GroupModel;

    open spec fn view(&self) -> GroupModel {
        GroupModel { id: self.id, members: self.visual_ids@, transform: self.transform }
    }
}

impl SpatialGroup {
    pub fn new(id: GroupId, visual_ids: Vec<VisualId>) -> (r: Self)
        ensures
            r@ == (GroupModel { id, members: visual_ids@, transform: identity_transform() }),
    {
        SpatialGroup { id, visual_ids, transform: Transform3D::identity() }
    }

    /// Add a visual to this group; a member stays a single member.
    pub fn add(&mut self, vid: VisualId)
        ensures
            final(self)@ == (GroupModel {
                members: with_member(old(self)@.members, vid),
                ..old(self)@
            }),
    {
        add_id(&mut self.visual_ids, vid);
    }

    /// Remove a visual from this group.
    pub fn remove(&mut self, vid: VisualId)
        ensures
            final(self)@ == (GroupModel { members: without(old(self)@.members, vid), ..old(self)@ }),
    {
        remove_id(&mut self.visual_ids, vid);
    }

    /// Check if a visual is in this group.
    pub fn contains(&self, vid: VisualId) -> (r: bool)
        ensures
            r == self@.members.contains(vid),
    {
        contains_id(&self.visual_ids, vid)
    }

    /// Number of members.
    pub fn len(&self) -> (r: usize)
        ensures
            r == self@.members.len(),
    {
        self.visual_ids.len()
    }

    pub fn is_empty(&self) -> (r: bool)
        ensures
            r == (self@.members.len() == 0),
    {
        self.visual_ids.len() == 0
    }
}

/// Position of the first group with this id, or the length.
pub open spec fn group_index(s: Seq<GroupModel>, id: GroupId) -> int
    decreases s.len(),
{
    if s.len() == 0 {
        0
    } else if s[0].id == id {
        0
    } else {
        1 + group_index(s.drop_first(), id)
    }
}

/// Position of the first group with this member, or the length.
pub open spec fn member_index(s: Seq<GroupModel>, vid: VisualId) -> int
    decreases s.len(),
{
    if s.len() == 0 {
        0
    } else if s[0].members.contains(vid) {
        0
    } else {
        1 + member_index(s.drop_first(), vid)
    }
}

/// `i` is the first group with this id.
pub proof fn lemma_group_index(s: Seq<GroupModel>, id: GroupId, i: int)
    requires
        0 <= i <= s.len(),
        forall|j: int| 0 <= j < i ==> (#[trigger] s[j]).id != id,
        i < s.len() ==> s[i].id == id,
    ensures
        group_index(s, id) == i,
    decreases s.len(),
{
    if s.len() > 0 && i > 0 {
        assert(s[0].id != id);
        let rest = s.drop_first();
        assert forall|j: int| 0 <= j < i - 1 implies (#[trigger] rest[j]).id != id by {
            assert(rest[j] == s[j + 1]);
        }
        lemma_group_index(rest, id, i - 1);
    }
}

/// `i` is the first group with this member.
pub proof fn lemma_member_index(s: Seq<GroupModel>, vid: VisualId, i: int)
    requires
        0 <= i <= s.len(),
        forall|j: int| 0 <= j < i ==> !(#[trigger] s[j]).members.contains(vid),
        i < s.len() ==> s[i].members.contains(vid),
    ensures
        member_index(s, vid) == i,
    decreases s.len(),
{
    if s.len() > 0 && i > 0 {
        assert(!s[0].members.contains(vid));
        let rest = s.drop_first();
        assert forall|j: int| 0 <= j < i - 1 implies !(#[trigger] rest[j]).members.contains(
            vid,
        ) by {
            assert(rest[j] == s[j + 1]);
        }
        lemma_member_index(rest, vid, i - 1);
    }
}

impl SceneModel {
    pub open spec fn has_group(self, id: GroupId) -> bool {
        group_index(self.groups, id) < self.groups.len()
    }

    /// The first group with this id.
    pub open spec fn group(self, id: GroupId) -> GroupModel {
        self.groups[group_index(self.groups, id)]
    }

    pub open spec fn with_group(self, id: GroupId, g: GroupModel) -> SceneModel {
        if self.has_group(id) {
            SceneModel { groups: self.groups.update(group_index(self.groups, id), g), ..self }
        } else {
            self
        }
    }

    pub open spec fn grouped(self, members: Seq<VisualId>) -> SceneModel {
        SceneModel {
            groups: self.groups.push(
                GroupModel {
                    id: GroupId(self.next_group),
                    members,
                    transform: identity_transform(),
                },
            ),
            next_group: if self.next_group == u64::MAX {
                0
            } else {
                (self.next_group + 1) as u64
            },
            ..self
        }
    }

    pub open spec fn dissolved(self, id: GroupId) -> SceneModel {
        SceneModel { groups: self.groups.filter(|g: GroupModel| g.id != id), ..self }
    }

    pub open spec fn ungrouped_everywhere(self, vid: VisualId) -> SceneModel {
        SceneModel {
            groups: self.groups.map_values(
                |g: GroupModel| GroupModel { members: without(g.members, vid), ..g },
            ),
            ..self
        }
    }
}

impl Scene {
    /// Index of the first group with this id.
    fn group_position(&self, group_id: GroupId) -> (r: Option<usize>)
        ensures
            match r {
                Some(i) => i < self.groups@.len() && i == group_index(self@.groups, group_id),
                None => !self@.has_group(group_id) && group_index(self@.groups, group_id)
                    == self@.groups.len(),
            },
    {
        let mut i: usize = 0;
        while i < self.groups.len()
            invariant
                i <= self.groups@.len(),
                forall|j: int| 0 <= j < i ==> (#[trigger] self@.groups[j]).id != group_id,
            decreases self.groups@.len() - i,
        {
            if self.groups[i].id == group_id {
                proof {
                    lemma_group_index(self@.groups, group_id, i as int);
                }
                return Some(i);
            }
            i = i + 1;
        }
        proof {
            lemma_group_index(self@.groups, group_id, i as int);
        }
        None
    }

    /// Create a new spatial group from the given visual ids.
    /// Every id is accepted, whether or not its visual exists.
    pub fn create_group(&mut self, visual_ids: Vec<VisualId>) -> (r: GroupId)
        ensures
            r == GroupId(old(self)@.next_group),
            final(self)@ == old(self)@.grouped(visual_ids@),
    {
        let id = GroupId::next(&mut self.group_ids);
        let group = SpatialGroup::new(id, visual_ids);
        self.groups.push(group);
        assert(self@.groups =~= old(self)@.grouped(visual_ids@).groups);
        id
    }

    /// Add a visual to an existing group.
    /// Returns true if the group exists.
    pub fn add_to_group(&mut self, group_id: GroupId, vid: VisualId) -> (r: bool)
        ensures
            r == old(self)@.has_group(group_id),
            final(self)@ == old(self)@.with_group(
                group_id,
                GroupModel {
                    members: with_member(old(self)@.group(group_id).members, vid),
                    ..old(self)@.group(group_id)
                },
            ),
    {
        match self.group_position(group_id) {
            Some(i) => {
                self.groups[i].add(vid);
                assert(self@.groups =~= old(self)@.groups.update(i as int, self.groups@[i as int]@));
                true
            },
            None => false,
        }
    }

    /// Remove a visual from a group. Does not destroy the visual.
    /// Returns true if the group existed.
    pub fn remove_from_group(&mut self, group_id: GroupId, vid: VisualId) -> (r: bool)
        ensures
            r == old(self)@.has_group(group_id),
            final(self)@ == old(self)@.with_group(
                group_id,
                GroupModel {
                    members: without(old(self)@.group(group_id).members, vid),
                    ..old(self)@.group(group_id)
                },
            ),
    {
        match self.group_position(group_id) {
            Some(i) => {
                self.groups[i].remove(vid);
                assert(self@.groups =~= old(self)@.groups.update(i as int, self.groups@[i as int]@));
                true
            },
            None => false,
        }
    }

    /// Remove a visual from all groups it belongs to.
    pub fn remove_from_all_groups(&mut self, vid: VisualId)
        ensures
            final(self)@ == old(self)@.ungrouped_everywhere(vid),
    {
        let ghost s = self@.groups;
        let mut i: usize = 0;
        while i < self.groups.len()
            invariant
                i <= self.groups@.len(),
                self.groups@.len() == s.len(),
                self.visuals == old(self).visuals,
                self.group_ids == old(self).group_ids,
                self.focused_id == old(self).focused_id,
                self.selected_id == old(self).selected_id,
                self.hovered_id == old(self).hovered_id,
                self.detached_set == old(self).detached_set,
                forall|j: int|
                    0 <= j < i ==> (#[trigger] self.groups@[j])@ == (GroupModel {
                        members: without(s[j].members, vid),
                        ..s[j]
                    }),
                forall|j: int| i <= j < s.len() ==> (#[trigger] self.groups@[j])@ == s[j],
            decreases self.groups@.len() - i,
        {
            self.groups[i].remove(vid);
            i = i + 1;
        }
        assert(self@.groups =~= old(self)@.ungrouped_everywhere(vid).groups);
    }

    /// Remove (dissolve) a group. Members survive with their local transforms.
    /// Returns true if the group existed.
    pub fn remove_group(&mut self, group_id: GroupId) -> (r: bool)
        ensures
            r == old(self)@.has_group(group_id),
            final(self)@ == old(self)@.dissolved(group_id),
    {
        let existed = match self.group_position(group_id) {
            Some(_) => true,
            None => false,
        };
        let ghost s = self@.groups;
        let ghost p = |g: GroupModel| g.id != group_id;
        let mut rest: Vec<SpatialGroup> = Vec::new();
        let mut kept: Vec<SpatialGroup> = Vec::new();
        // Taken from the back, so that each group is moved, not copied.
        let n: usize = self.groups.len();
        let mut k: usize = 0;
        while self.groups.len() > 0
            invariant
                self.groups@.len() + rest@.len() == n,
                forall|j: int| 0 <= j < self.groups@.len() ==> (#[trigger] self.groups@[j])@ == s[j],
                forall|j: int| 0 <= j < rest@.len() ==> (#[trigger] rest@[j])@ == s[n - 1 - j],
                n == s.len(),
                self.visuals == old(self).visuals,
                self.group_ids == old(self).group_ids,
                self.focused_id == old(self).focused_id,
                self.selected_id == old(self).selected_id,
                self.hovered_id == old(self).hovered_id,
                self.detached_set == old(self).detached_set,
            decreases self.groups@.len(),
        {
            if let Some(g) = self.groups.pop() {
                rest.push(g);
            }
        }
        while rest.len() > 0
            invariant
                k + rest@.len() == n,
                n == s.len(),
                p == (|g: GroupModel| g.id != group_id),
                forall|j: int| 0 <= j < rest@.len() ==> (#[trigger] rest@[j])@ == s[n - 1 - j],
                kept@.map_values(|g: SpatialGroup| g@) == s.take(k as int).filter(p),
                k <= n,
            decreases rest@.len(),
        {
            if let Some(g) = rest.pop() {
                proof {
                    reveal(Seq::filter);
                    assert(g@ == s[k as int]);
                    assert(s.take(k + 1).drop_last() =~= s.take(k as int));
                    assert(s.take(k + 1).last() == g@);
                }
                if g.id != group_id {
                    let ghost before = kept@;
                    kept.push(g);
                    assert(kept@.map_values(|g: SpatialGroup| g@) =~= before.map_values(
                        |g: SpatialGroup| g@,
                    ).push(g@));
                }
                k = k + 1;
            }
        }
        assert(s.take(k as int) =~= s);
        self.groups = kept;
        existed
    }

    /// Set a group's transform.
    /// Returns true if the group exists.
    pub fn set_group_transform(&mut self, group_id: GroupId, transform: Transform3D) -> (r: bool)
        ensures
            r == old(self)@.has_group(group_id),
            final(self)@ == old(self)@.with_group(
                group_id,
                GroupModel { transform, ..old(self)@.group(group_id) },
            ),
    {
        match self.group_position(group_id) {
            Some(i) => {
                self.groups[i].transform = transform;
                assert(self@.groups =~= old(self)@.groups.update(i as int, self.groups@[i as int]@));
                true
            },
            None => false,
        }
    }

    /// Get a group's transform.
    pub fn group_transform(&self, group_id: GroupId) -> (r: Option<Transform3D>)
        ensures
            r == if self@.has_group(group_id) {
                Some(self@.group(group_id).transform)
            } else {
                None
            },
    {
        match self.group_position(group_id) {
            Some(i) => Some(self.groups[i].transform),
            None => None,
        }
    }

    /// Get the visual ids in a group.
    pub fn group_visuals(&self, group_id: GroupId) -> (r: Option<&[VisualId]>)
        ensures
            match r {
                Some(ids) => self@.has_group(group_id) && ids@ == self@.group(group_id).members,
                None => !self@.has_group(group_id),
            },
    {
        match self.group_position(group_id) {
            Some(i) => Some(self.groups[i].visual_ids.as_slice()),
            None => None,
        }
    }

    /// Find the first group containing a visual.
    pub fn find_group_containing(&self, vid: VisualId) -> (r: Option<GroupId>)
        ensures
            r == if member_index(self@.groups, vid) < self@.groups.len() {
                Some(self@.groups[member_index(self@.groups, vid)].id)
            } else {
                None
            },
    {
        let mut i: usize = 0;
        while i < self.groups.len()
            invariant
                i <= self.groups@.len(),
                forall|j: int| 0 <= j < i ==> !(#[trigger] self@.groups[j]).members.contains(vid),
            decreases self.groups@.len() - i,
        {
            if self.groups[i].contains(vid) {
                proof {
                    lemma_member_index(self@.groups, vid, i as int);
                }
                return Some(self.groups[i].id);
            }
            i = i + 1;
        }
        proof {
            lemma_member_index(self@.groups, vid, i as int);
        }
        None
    }

    /// Find which groups a visual belongs to, in creation order.
    pub fn groups_for_visual(&self, vid: VisualId) -> (r: Vec<GroupId>)
        ensures
            r@ == self@.groups.filter(|g: GroupModel| g.members.contains(vid)).map_values(
                |g: GroupModel| g.id,
            ),
    {
        let ghost s = self@.groups;
        let ghost p = |g: GroupModel| g.members.contains(vid);
        let mut out: Vec<GroupId> = Vec::new();
        let mut i: usize = 0;
        while i < self.groups.len()
            invariant
                i <= self.groups@.len(),
                s == self@.groups,
                p == (|g: GroupModel| g.members.contains(vid)),
                out@ == s.take(i as int).filter(p).map_values(|g: GroupModel| g.id),
            decreases self.groups@.len() - i,
        {
            proof {
                reveal(Seq::filter);
                assert(s.take(i + 1).drop_last() =~= s.take(i as int));
                assert(s.take(i + 1).last() == self.groups@[i as int]@);
            }
            let ghost before = s.take(i as int).filter(p);
            if self.groups[i].contains(vid) {
                out.push(self.groups[i].id);
                assert(before.push(self.groups@[i as int]@).map_values(|g: GroupModel| g.id)
                    =~= before.map_values(|g: GroupModel| g.id).push(self.groups@[i as int].id));
            }
            i = i + 1;
        }
        assert(s.take(i as int) =~= s);
        out
    }

    /// Get all groups.
    pub fn all_groups(&self) -> (r: &[SpatialGroup])
        ensures
            r@.map_values(|g: SpatialGroup| g@) == self@.groups,
    {
        self.groups.as_slice()
    }
}

/// Every group has an identifier of its own, all of them handed out.
pub open spec fn groups_distinct(m: SceneModel) -> bool {
    &&& forall|i: int| 0 <= i < m.groups.len() ==> (#[trigger] m.groups[i]).id.0 < m.next_group
    &&& forall|i: int, j: int|
        0 <= i < j < m.groups.len() ==> (#[trigger] m.groups[i]).id != (#[trigger] m.groups[j]).id
}

/// Creating a group keeps group identifiers distinct, and the new group
/// is found under its identifier with exactly the members given.
pub proof fn law_new_group_is_found(m: SceneModel, members: Seq<VisualId>)
    requires
        groups_distinct(m),
        m.next_group < u64::MAX,
    ensures
        groups_distinct(m.grouped(members)),
        m.grouped(members).has_group(GroupId(m.next_group)),
        m.grouped(members).group(GroupId(m.next_group)).members == members,
{
    let after = m.grouped(members);
    lemma_group_index(after.groups, GroupId(m.next_group), m.groups.len() as int);
}

/// Dissolving a group touches no visual: the visuals, the focus and the
/// selection are what they were.
pub proof fn law_dissolving_keeps_visuals(m: SceneModel, id: GroupId)
    ensures
        m.dissolved(id).visuals == m.visuals,
        m.dissolved(id).focused_id == m.focused_id,
        m.dissolved(id).selected_id == m.selected_id,
        !m.dissolved(id).has_group(id),
{
    broadcast use vstd::seq_lib::group_filter_ensures;

    let p = |g: GroupModel| g.id != id;
    let f = m.groups.filter(p);
    assert forall|j: int| 0 <= j < f.len() implies (#[trigger] f[j]).id != id by {
        assert(p(f[j]));
    }
    lemma_group_index(f, id, f.len() as int);
}

/// Once a visual has been taken out of all groups, no group has it, and
/// the other members of each group keep their order.
pub proof fn law_ungrouped_visual_is_in_no_group(m: SceneModel, vid: VisualId, i: int)
    requires
        0 <= i < m.groups.len(),
    ensures
        !m.ungrouped_everywhere(vid).groups[i].members.contains(vid),
        m.ungrouped_everywhere(vid).groups[i].members == without(m.groups[i].members, vid),
        m.ungrouped_everywhere(vid).groups.len() == m.groups.len(),
{
    crate::id_list::lemma_without_members(m.groups[i].members, vid);
}

} // verus!
