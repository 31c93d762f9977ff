//! Workspaces: which visuals belong together, and the view each keeps.
use vstd::prelude::*;

use crate::focus::{unfocused, FocusManager};
use crate::id_list::{add_id, contains_id, copy_ids, remove_id, with_member, without};
use crate::input::{looks_from, Camera, DEFAULT_DISTANCE};
use crate::scene::VisualId;
use crate::text::{
    after_prefix, begins_with, decimal, decimal_digits, lemma_decimal_reads_back, parse_count,
    parsed_count,
};

verus! {

/// How a workspace arranges its visuals.
#[derive(Debug, Clone, Copy, PartialEq, Eq, Structural)]
pub enum LayoutMode {
    Freeform,
    Flat,
    Grid { columns: u64 },
}

/// Columns of a grid whose count is not readable.
pub const DEFAULT_GRID_COLUMNS: u64 = 3;

/// The layout mode a saved name stands for; `other` for names nobody knows.
pub open spec fn layout_named(s: Seq<char>, other: LayoutMode) -> LayoutMode {
    if s == "freeform"@ {
        LayoutMode::Freeform
    } else if s == "flat"@ {
        LayoutMode::Flat
    } else if begins_with(s, "grid:"@) {
        LayoutMode::Grid {
            columns: match parsed_count(s.skip(5)) {
                Some(n) => n,
                None => DEFAULT_GRID_COLUMNS,
            },
        }
    } else {
        other
    }
}

/// The name a layout mode is saved under.
pub open spec fn layout_name(m: LayoutMode) -> Seq<char> {
    match m {
        LayoutMode::Freeform => "freeform"@,
        LayoutMode::Flat => "flat"@,
        LayoutMode::Grid { columns } => "grid:"@ + decimal_digits(columns),
    }
}

/// A layout mode is read back from the name it is saved under.
pub proof fn law_layout_name_reads_back(m: LayoutMode, other: LayoutMode)
    ensures
        layout_named(layout_name(m), other) == m,
{
    reveal_strlit("freeform");
    reveal_strlit("flat");
    reveal_strlit("grid:");
    match m {
        LayoutMode::Freeform => {
            let s = "freeform"@;
            assert(s.len() == 8);
            assert(s.take(5)[0] == 'f');
            assert("grid:"@[0] == 'g');
            assert("flat"@.len() == 4);
        },
        LayoutMode::Flat => {
            assert("flat"@.len() == 4);
            assert("freeform"@.len() == 8);
        },
        LayoutMode::Grid { columns } => {
            let d = decimal_digits(columns);
            let s = "grid:"@ + d;
            lemma_decimal_reads_back(columns);
            assert(s[0] == 'g');
            assert("flat"@[0] == 'f');
            assert("freeform"@[0] == 'f');
            assert(s.take(5) =~= "grid:"@);
            assert(s.skip(5) =~= d);
        },
    }
}

impl LayoutMode {
    /// The name the layout mode is saved under.
    pub fn name(&self) -> (r: String)
        ensures
            r@ == layout_name(*self),
    {
        match *self {
            LayoutMode::Freeform => "freeform".to_owned(),
            LayoutMode::Flat => "flat".to_owned(),
            LayoutMode::Grid { columns } => "grid:".to_owned().concat(decimal(columns).as_str()),
        }
    }

    /// The layout mode a saved name stands for; `other` for names nobody
    /// knows.
    pub fn from_name(name: &str, other: LayoutMode) -> (r: Self)
        ensures
            r == layout_named(name@, other),
    {
        proof {
            reveal_strlit("grid:");
        }
        if name.to_owned() == "freeform".to_owned() {
            return LayoutMode::Freeform;
        }
        if name.to_owned() == "flat".to_owned() {
            return LayoutMode::Flat;
        }
        match after_prefix(name, "grid:") {
            Some(count) => match parse_count(count) {
                Some(columns) => LayoutMode::Grid { columns },
                None => LayoutMode::Grid { columns: DEFAULT_GRID_COLUMNS },
            },
            None => other,
        }
    }
}

/// One workspace.
#[derive(Debug)]
pub struct Workspace {
    pub visual_ids: Vec<VisualId>,
    /// The camera the workspace was left with.
    pub camera: Camera,
    /// The visual that was focused when the workspace was left.
    pub focused_id: Option<VisualId>,
    /// The detached visuals when the workspace was left.
    pub detached_set: Vec<VisualId>,
    pub layout_mode: LayoutMode,
    pub auto_orbit: bool,
    pub focus_manager_state: FocusManager,
}

/// A workspace, as a mathematical value.
#[verifier::ext_equal]
pub ghost struct WorkspaceModel {
    pub visual_ids: Seq<VisualId>,
    pub camera: Camera,
    pub focused_id: Option<VisualId>,
    pub detached_set: Seq<VisualId>,
    pub layout_mode: LayoutMode,
    pub auto_orbit: bool,
    pub focus_manager_state: FocusManager,
}

impl View for Workspace {
    type V = WorkspaceModel;

    open spec fn view(&self) -> WorkspaceModel {
        WorkspaceModel {
            visual_ids: self.visual_ids@,
            camera: self.camera,
            focused_id: self.focused_id,
            detached_set: self.detached_set@,
            layout_mode: self.layout_mode,
            auto_orbit: self.auto_orbit,
            focus_manager_state: self.focus_manager_state,
        }
    }
}

impl WorkspaceModel {
    /// A workspace nobody has used yet.
    pub open spec fn is_fresh(self) -> bool {
        &&& self.visual_ids.len() == 0
        &&& looks_from(self.camera, DEFAULT_DISTANCE)
        &&& self.focused_id is None
        &&& self.detached_set.len() == 0
        &&& self.layout_mode == LayoutMode::Freeform
        &&& !self.auto_orbit
        &&& self.focus_manager_state == unfocused()
    }
}

impl Workspace {
    pub fn new() -> (r: Self)
        ensures
            r@.is_fresh(),
    {
        Workspace {
            visual_ids: Vec::new(),
            camera: Camera::new(),
            focused_id: None,
            detached_set: Vec::new(),
            layout_mode: LayoutMode::Freeform,
            auto_orbit: false,
            focus_manager_state: FocusManager::new(),
        }
    }

    pub fn contains(&self, vid: VisualId) -> (r: bool)
        ensures
            r == self@.visual_ids.contains(vid),
    {
        contains_id(&self.visual_ids, vid)
    }

    pub fn add(&mut self, vid: VisualId)
        ensures
            final(self)@ == (WorkspaceModel {
                visual_ids: with_member(old(self)@.visual_ids, vid),
                ..old(self)@
            }),
    {
        add_id(&mut self.visual_ids, vid);
    }

    pub fn remove(&mut self, vid: VisualId)
        ensures
            final(self)@ == (WorkspaceModel {
                visual_ids: without(old(self)@.visual_ids, vid),
                ..old(self)@
            }),
    {
        remove_id(&mut self.visual_ids, vid);
    }
}

/// The workspaces and which of them is shown.
#[derive(Debug)]
pub struct WorkspaceManager {
    pub workspaces: Vec<Workspace>,
    pub active: usize,
}

/// The workspaces, as a mathematical value.
#[verifier::ext_equal]
pub ghost struct WorkspacesModel {
    pub all: Seq<WorkspaceModel>,
    pub active: int,
}

impl View for WorkspaceManager {
    type V = WorkspacesModel;

    open spec fn view(&self) -> WorkspacesModel {
        WorkspacesModel {
            all: self.workspaces@.map_values(|w: Workspace| w@),
            active: self.active as int,
        }
    }
}

/// Position of the first workspace that has the visual, or the length.
pub open spec fn home_index(s: Seq<WorkspaceModel>, vid: VisualId) -> int
    decreases s.len(),
{
    if s.len() == 0 || s[0].visual_ids.contains(vid) {
        0
    } else {
        1 + home_index(s.drop_first(), vid)
    }
}

pub proof fn lemma_home_index_bounds(s: Seq<WorkspaceModel>, vid: VisualId)
    ensures
        0 <= home_index(s, vid) <= s.len(),
        home_index(s, vid) < s.len() ==> s[home_index(s, vid)].visual_ids.contains(vid),
    decreases s.len(),
{
    if s.len() > 0 && !s[0].visual_ids.contains(vid) {
        lemma_home_index_bounds(s.drop_first(), vid);
    }
}

/// The workspace a visual is on has it.
pub proof fn lemma_home_bounds(m: WorkspacesModel, vid: VisualId)
    requires
        m.all.len() <= usize::MAX,
    ensures
        m.home(vid) matches Some(i) ==> i < m.all.len() && m.all[i as int].visual_ids.contains(vid),
{
    lemma_home_index_bounds(m.all, vid);
}

pub proof fn lemma_home_index(s: Seq<WorkspaceModel>, vid: VisualId, i: int)
    requires
        0 <= i <= s.len(),
        forall|j: int| 0 <= j < i ==> !(#[trigger] s[j]).visual_ids.contains(vid),
        i < s.len() ==> s[i].visual_ids.contains(vid),
    ensures
        home_index(s, vid) == i,
    decreases s.len(),
{
    if i > 0 {
        assert(!s[0].visual_ids.contains(vid));
        let rest = s.drop_first();
        assert forall|j: int| 0 <= j < i - 1 implies !(#[trigger] rest[j]).visual_ids.contains(
            vid,
        ) by {
            assert(rest[j] == s[j + 1]);
        }
        lemma_home_index(rest, vid, i - 1);
    }
}

impl WorkspacesModel {
    /// One of the workspaces is shown.
    pub open spec fn wf(self) -> bool {
        0 <= self.active < self.all.len() <= usize::MAX
    }

    pub open spec fn current(self) -> WorkspaceModel {
        self.all[self.active]
    }

    pub open spec fn with(self, i: int, w: WorkspaceModel) -> WorkspacesModel {
        WorkspacesModel { all: self.all.update(i, w), ..self }
    }

    /// The shown workspace with what it is left with.
    pub open spec fn kept(
        self,
        camera: Camera,
        focused_id: Option<VisualId>,
        detached_set: Seq<VisualId>,
        focus_manager_state: FocusManager,
    ) -> WorkspacesModel {
        self.with(
            self.active,
            WorkspaceModel { camera, focused_id, detached_set, focus_manager_state, ..self.current() },
        )
    }

    /// The first workspace that has the visual.
    pub open spec fn home(self, vid: VisualId) -> Option<usize> {
        let i = home_index(self.all, vid);
        if i < self.all.len() {
            Some(i as usize)
        } else {
            None
        }
    }

    /// The visual joins workspace `i`; there may be no such workspace.
    pub open spec fn joined(self, i: int, vid: VisualId) -> WorkspacesModel {
        if 0 <= i < self.all.len() {
            self.with(
                i,
                WorkspaceModel {
                    visual_ids: with_member(self.all[i].visual_ids, vid),
                    ..self.all[i]
                },
            )
        } else {
            self
        }
    }

    /// The visual leaves workspace `i`; there may be no such workspace.
    pub open spec fn left(self, i: int, vid: VisualId) -> WorkspacesModel {
        if 0 <= i < self.all.len() {
            self.with(
                i,
                WorkspaceModel {
                    visual_ids: without(self.all[i].visual_ids, vid),
                    ..self.all[i]
                },
            )
        } else {
            self
        }
    }

    /// The visual leaves every workspace.
    pub open spec fn left_everywhere(self, vid: VisualId) -> WorkspacesModel {
        WorkspacesModel {
            all: self.all.map_values(
                |w: WorkspaceModel| WorkspaceModel { visual_ids: without(w.visual_ids, vid), ..w },
            ),
            ..self
        }
    }
}

impl WorkspaceManager {
    /// `count` empty workspaces, the first one shown; at least one.
    pub fn new(count: usize) -> (r: Self)
        ensures
            r@.wf(),
            r@.all.len() == if count < 1 {
                1
            } else {
                count as int
            },
            r@.active == 0,
            forall|i: int| 0 <= i < r@.all.len() ==> (#[trigger] r@.all[i]).is_fresh(),
    {
        let n: usize = if count < 1 {
            1
        } else {
            count
        };
        let mut workspaces: Vec<Workspace> = Vec::new();
        let mut i: usize = 0;
        while i < n
            invariant
                i <= n,
                workspaces@.len() == i,
                forall|j: int| 0 <= j < i ==> (#[trigger] workspaces@[j])@.is_fresh(),
            decreases n - i,
        {
            workspaces.push(Workspace::new());
            i = i + 1;
        }
        WorkspaceManager { workspaces, active: 0 }
    }

    pub fn len(&self) -> (r: usize)
        ensures
            r == self@.all.len(),
    {
        self.workspaces.len()
    }

    pub fn active_id(&self) -> (r: usize)
        ensures
            r == self@.active,
    {
        self.active
    }

    pub fn active(&self) -> (r: &Workspace)
        requires
            self@.wf(),
        ensures
            r@ == self@.current(),
    {
        &self.workspaces[self.active]
    }

    /// Appends an empty workspace and returns its index.
    pub fn add(&mut self) -> (r: usize)
        requires
            old(self)@.all.len() < usize::MAX,
        ensures
            r == old(self)@.all.len(),
            final(self)@.active == old(self)@.active,
            final(self)@.all.len() == old(self)@.all.len() + 1,
            final(self)@.all.drop_last() == old(self)@.all,
            final(self)@.all.last().is_fresh(),
    {
        let id: usize = self.workspaces.len();
        self.workspaces.push(Workspace::new());
        assert(self@.all.drop_last() =~= old(self)@.all);
        id
    }

    /// Shows another workspace. Returns false when there is none of that
    /// index.
    pub fn switch(&mut self, idx: usize) -> (r: bool)
        ensures
            r == (idx < old(self)@.all.len()),
            final(self)@ == if r {
                WorkspacesModel { active: idx as int, ..old(self)@ }
            } else {
                old(self)@
            },
    {
        if idx < self.workspaces.len() {
            self.active = idx;
            true
        } else {
            false
        }
    }

    /// Takes a workspace away; the visuals it had survive. The one that is
    /// shown stays shown, or its successor when it is the one that goes.
    /// Fails for the last workspace and for one that does not exist.
    pub fn remove(&mut self, id: usize) -> (r: Result<(), WorkspaceError>)
        requires
            old(self)@.wf(),
        ensures
            r == if old(self)@.all.len() <= 1 {
                Err(WorkspaceError::LastWorkspace)
            } else if id >= old(self)@.all.len() {
                Err(WorkspaceError::NoSuchWorkspace)
            } else {
                Ok(())
            },
            final(self)@ == if r is Ok {
                old(self)@.removed(id as int)
            } else {
                old(self)@
            },
            final(self)@.wf(),
    {
        let n: usize = self.workspaces.len();
        if n <= 1 {
            return Err(WorkspaceError::LastWorkspace);
        }
        if id >= n {
            return Err(WorkspaceError::NoSuchWorkspace);
        }
        self.workspaces.remove(id);
        if self.active > id || self.active == n - 1 {
            self.active = self.active - 1;
        }
        assert(self@.all =~= old(self)@.all.remove(id as int));
        Ok(())
    }

    /// The first workspace that has the visual.
    pub fn home(&self, vid: VisualId) -> (r: Option<usize>)
        ensures
            r == self@.home(vid),
    {
        let mut i: usize = 0;
        while i < self.workspaces.len()
            invariant
                i <= self.workspaces@.len(),
                forall|j: int| 0 <= j < i ==> !(#[trigger] self@.all[j]).visual_ids.contains(vid),
            decreases self.workspaces@.len() - i,
        {
            if self.workspaces[i].contains(vid) {
                proof {
                    lemma_home_index(self@.all, vid, i as int);
                }
                return Some(i);
            }
            i = i + 1;
        }
        proof {
            lemma_home_index(self@.all, vid, i as int);
        }
        None
    }

    pub fn join(&mut self, i: usize, vid: VisualId)
        ensures
            final(self)@ == old(self)@.joined(i as int, vid),
    {
        if i < self.workspaces.len() {
            self.workspaces[i].add(vid);
            assert(self@.all =~= old(self)@.all.update(i as int, self.workspaces@[i as int]@));
        }
    }

    pub fn leave(&mut self, i: usize, vid: VisualId)
        ensures
            final(self)@ == old(self)@.left(i as int, vid),
    {
        if i < self.workspaces.len() {
            self.workspaces[i].remove(vid);
            assert(self@.all =~= old(self)@.all.update(i as int, self.workspaces@[i as int]@));
        }
    }

    pub fn leave_everywhere(&mut self, vid: VisualId)
        ensures
            final(self)@ == old(self)@.left_everywhere(vid),
    {
        let ghost s = self@.all;
        let mut i: usize = 0;
        while i < self.workspaces.len()
            invariant
                i <= self.workspaces@.len(),
                self.workspaces@.len() == s.len(),
                self.active == old(self).active,
                forall|j: int|
                    0 <= j < i ==> (#[trigger] self.workspaces@[j])@ == (WorkspaceModel {
                        visual_ids: without(s[j].visual_ids, vid),
                        ..s[j]
                    }),
                forall|j: int| i <= j < s.len() ==> (#[trigger] self.workspaces@[j])@ == s[j],
            decreases self.workspaces@.len() - i,
        {
            self.workspaces[i].remove(vid);
            i = i + 1;
        }
        assert(self@.all =~= old(self)@.left_everywhere(vid).all);
    }

    /// Remembers with the shown workspace how it is being left.
    pub fn keep(
        &mut self,
        camera: Camera,
        focused_id: Option<VisualId>,
        detached: &Vec<VisualId>,
        focus_manager: FocusManager,
    )
        requires
            old(self)@.wf(),
        ensures
            final(self)@ == old(self)@.kept(camera, focused_id, detached@, focus_manager),
    {
        let i: usize = self.active;
        let set = copy_ids(detached);
        self.workspaces[i].camera = camera;
        self.workspaces[i].focused_id = focused_id;
        self.workspaces[i].detached_set = set;
        self.workspaces[i].focus_manager_state = focus_manager;
        assert(self@.all =~= old(self)@.all.update(i as int, self.workspaces@[i as int]@));
    }

    /// Whether the shown workspace orbits by itself.
    pub fn set_auto_orbit(&mut self, on: bool)
        requires
            old(self)@.wf(),
        ensures
            final(self)@ == old(self)@.with(
                old(self)@.active,
                WorkspaceModel { auto_orbit: on, ..old(self)@.current() },
            ),
    {
        let i: usize = self.active;
        self.workspaces[i].auto_orbit = on;
        assert(self@.all =~= old(self)@.all.update(i as int, self.workspaces@[i as int]@));
    }
}

/// Why a workspace cannot be taken away.
#[derive(Debug, Clone, Copy, PartialEq, Eq, Structural)]
pub enum WorkspaceError {
    LastWorkspace,
    NoSuchWorkspace,
}

impl WorkspacesModel {
    pub open spec fn removed(self, id: int) -> WorkspacesModel {
        WorkspacesModel {
            all: self.all.remove(id),
            active: if self.active > id || self.active == self.all.len() - 1 {
                self.active - 1
            } else {
                self.active
            },
        }
    }
}

/// A visual that left every workspace is on none, and nobody else moved.
pub proof fn law_left_visual_is_on_no_workspace(m: WorkspacesModel, vid: VisualId)
    ensures
        m.left_everywhere(vid).home(vid) is None,
        m.left_everywhere(vid).active == m.active,
        forall|i: int, x: VisualId|
            0 <= i < m.all.len() && x != vid ==> (#[trigger] m.left_everywhere(
                vid,
            ).all[i].visual_ids.contains(x) <==> m.all[i].visual_ids.contains(x)),
{
    let r = m.left_everywhere(vid).all;
    assert forall|j: int| 0 <= j < r.len() implies !(#[trigger] r[j]).visual_ids.contains(vid) by {
        crate::id_list::lemma_without_members(m.all[j].visual_ids, vid);
    }
    lemma_home_index(r, vid, r.len() as int);
    assert forall|i: int, x: VisualId| 0 <= i < m.all.len() && x != vid implies (
    #[trigger] r[i].visual_ids.contains(x) <==> m.all[i].visual_ids.contains(x)) by {
        crate::id_list::lemma_without_members(m.all[i].visual_ids, vid);
    }
}

/// Taking a workspace away moves those behind it up by one and changes
/// none of them; the one that is shown stays shown, and where it is the
/// one that goes its successor is shown, or the new last one.
pub proof fn law_workspaces_move_up(m: WorkspacesModel, id: int, i: int)
    requires
        m.wf(),
        m.all.len() > 1,
        0 <= id < m.all.len(),
        0 <= i < m.all.len(),
    ensures
        ({
            let n = m.removed(id);
            &&& n.wf()
            &&& n.all.len() == m.all.len() - 1
            &&& i < id ==> n.all[i] == m.all[i]
            &&& i > id ==> n.all[i - 1] == m.all[i]
            &&& m.active != id ==> n.all[n.active] == m.all[m.active]
            &&& m.active == id && id < m.all.len() - 1 ==> n.all[n.active] == m.all[id + 1]
            &&& m.active == id && id == m.all.len() - 1 ==> n.all[n.active] == m.all[id - 1]
        }),
{
}

/// What a workspace is left with is what it keeps, and only that one
/// changes.
pub proof fn law_left_workspace_keeps_its_view(
    m: WorkspacesModel,
    camera: Camera,
    focused_id: Option<VisualId>,
    detached_set: Seq<VisualId>,
    focus: FocusManager,
    i: int,
)
    requires
        m.wf(),
        0 <= i < m.all.len(),
    ensures
        ({
            let n = m.kept(camera, focused_id, detached_set, focus);
            let w = n.all[m.active];
            &&& n.active == m.active
            &&& n.all.len() == m.all.len()
            &&& w.camera == camera
            &&& w.focused_id == focused_id
            &&& w.detached_set == detached_set
            &&& w.focus_manager_state == focus
            &&& w.visual_ids == m.all[m.active].visual_ids
            &&& w.layout_mode == m.all[m.active].layout_mode
            &&& w.auto_orbit == m.all[m.active].auto_orbit
            &&& i != m.active ==> n.all[i] == m.all[i]
        }),
{
}

} // verus!
