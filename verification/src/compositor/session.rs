//! What outlives a session: the view and layout of each workspace, and
//! where each window was.
use vstd::prelude::*;

use crate::compositor::focusing::{lemma_window_index_bounds, window_index};
use crate::compositor::state::{GlassModel, LookingGlass, SavedVisual};
use crate::id_list::contains_id;
use crate::input::{moved_to, view_of, CameraView};
use crate::scene::{has_visual, Transform3D, VisualId};
use crate::workspace::{
    law_layout_name_reads_back, layout_name, layout_named, LayoutMode, WorkspaceModel,
    WorkspacesModel,
};

verus! {

/// What is saved of a workspace.
#[derive(Debug)]
pub struct SavedWorkspace {
    pub camera: CameraView,
    /// Name of the layout mode.
    pub layout_mode: String,
}

/// What is saved of a session.
#[derive(Debug)]
pub struct SavedState {
    pub workspaces: Vec<SavedWorkspace>,
    pub visuals: Vec<SavedVisual>,
}

/// A saved window, as a mathematical value.
pub ghost struct SavedVisualModel {
    pub app_id: Seq<char>,
    pub workspace: int,
    pub transform: Transform3D,
    pub detached: bool,
}

pub open spec fn saved_window(v: SavedVisual) -> SavedVisualModel {
    SavedVisualModel {
        app_id: v.app_id@,
        workspace: v.workspace as int,
        transform: v.transform,
        detached: v.detached,
    }
}

pub open spec fn saved_windows(s: Seq<SavedVisual>) -> Seq<SavedVisualModel> {
    s.map_values(|v: SavedVisual| saved_window(v))
}

/// The workspace as it was saved.
pub open spec fn restored(w: WorkspaceModel, e: SavedWorkspace) -> WorkspaceModel {
    WorkspaceModel {
        camera: moved_to(w.camera, e.camera),
        layout_mode: layout_named(e.layout_mode@, w.layout_mode),
        ..w
    }
}

/// The workspaces as they were saved; what was saved of others is left.
pub open spec fn all_restored(s: Seq<WorkspaceModel>, saved: Seq<SavedWorkspace>) -> Seq<
    WorkspaceModel,
> {
    Seq::new(
        s.len(),
        |i: int|
            if i < saved.len() {
                restored(s[i], saved[i])
            } else {
                s[i]
            },
    )
}

impl GlassModel {
    /// After the saved state is taken over.
    pub open spec fn with_saved(
        self,
        workspaces: Seq<SavedWorkspace>,
        visuals: Seq<SavedVisual>,
    ) -> GlassModel {
        GlassModel {
            workspaces: WorkspacesModel {
                all: all_restored(self.workspaces.all, workspaces),
                ..self.workspaces
            },
            camera: if workspaces.len() > 0 {
                moved_to(self.camera, workspaces[0].camera)
            } else {
                self.camera
            },
            saved: visuals,
            ..self
        }
    }

    /// The shown workspace owns the live camera.
    pub open spec fn camera_recorded(self) -> GlassModel {
        GlassModel {
            workspaces: self.workspaces.with(
                self.workspaces.active,
                WorkspaceModel { camera: self.camera, ..self.workspaces.current() },
            ),
            ..self
        }
    }

    /// A window that is saved: an application's, with its visual.
    pub open spec fn is_saved(self, vid: VisualId) -> bool {
        window_index(self.toplevels, vid) < self.toplevels.len() && has_visual(
            self.scene.visuals,
            vid,
        )
    }

    pub open spec fn saved_row(self, vid: VisualId, i: int) -> SavedVisualModel {
        SavedVisualModel {
            app_id: self.toplevels[window_index(self.toplevels, vid)].app_id@,
            workspace: i,
            transform: self.scene.visual(vid).transform,
            detached: self.workspaces.all[i].detached_set.contains(vid),
        }
    }

    /// The windows among the first `k` members of workspace `i`.
    pub open spec fn saved_in(self, i: int, k: int) -> Seq<SavedVisualModel>
        decreases k,
    {
        if k <= 0 {
            Seq::empty()
        } else {
            let vid = self.workspaces.all[i].visual_ids[k - 1];
            if self.is_saved(vid) {
                self.saved_in(i, k - 1).push(self.saved_row(vid, i))
            } else {
                self.saved_in(i, k - 1)
            }
        }
    }

    /// The windows of the first `n` workspaces.
    pub open spec fn saved_upto(self, n: int) -> Seq<SavedVisualModel>
        decreases n,
    {
        if n <= 0 {
            Seq::empty()
        } else {
            self.saved_upto(n - 1) + self.saved_in(
                n - 1,
                self.workspaces.all[n - 1].visual_ids.len() as int,
            )
        }
    }
}

/// The workspaces' views and layouts are those of the model.
pub open spec fn saves_workspaces(s: Seq<SavedWorkspace>, m: WorkspacesModel) -> bool {
    &&& s.len() == m.all.len()
    &&& forall|i: int|
        0 <= i < s.len() ==> (#[trigger] s[i]).camera == view_of(m.all[i].camera)
            && s[i].layout_mode@ == layout_name(m.all[i].layout_mode)
}

impl LookingGlass {
    fn restore_workspace(&mut self, i: usize, e: &SavedWorkspace)
        requires
            i < old(self)@.workspaces.all.len(),
        ensures
            final(self)@ == (GlassModel {
                workspaces: old(self)@.workspaces.with(
                    i as int,
                    restored(old(self)@.workspaces.all[i as int], *e),
                ),
                ..old(self)@
            }),
    {
        self.workspace_manager.workspaces[i].camera.move_to(e.camera);
        self.workspace_manager.workspaces[i].layout_mode = LayoutMode::from_name(
            e.layout_mode.as_str(),
            self.workspace_manager.workspaces[i].layout_mode,
        );
        assert(self@.workspaces.all =~= old(self)@.workspaces.all.update(
            i as int,
            self.workspace_manager.workspaces@[i as int]@,
        ));
    }

    /// Takes over the saved state: the view and layout of each workspace,
    /// the first workspace's view as the live one, and the windows that
    /// will be put back when their applications return.
    pub fn load_saved_state(&mut self, state: SavedState)
        ensures
            final(self)@ == old(self)@.with_saved(state.workspaces@, state.visuals@),
    {
        let SavedState { workspaces, visuals } = state;
        let mut i: usize = 0;
        let ghost before = old(self)@;
        assert(self@ == before);
        assert(self@.workspaces.all =~= before.workspaces.all);
        while i < workspaces.len() && i < self.workspace_manager.len()
            invariant
                before == old(self)@,
                i <= workspaces@.len(),
                i <= self@.workspaces.all.len(),
                self@ == (GlassModel { workspaces: self@.workspaces, ..before }),
                self@.workspaces.active == before.workspaces.active,
                self@.workspaces.all.len() == before.workspaces.all.len(),
                forall|j: int|
                    0 <= j < i ==> (#[trigger] self@.workspaces.all[j]) == restored(
                        before.workspaces.all[j],
                        workspaces@[j],
                    ),
                forall|j: int|
                    i <= j < before.workspaces.all.len() ==> (#[trigger] self@.workspaces.all[j])
                        == before.workspaces.all[j],
            decreases workspaces@.len() - i,
        {
            self.restore_workspace(i, &workspaces[i]);
            i = i + 1;
        }
        assert(self@.workspaces.all =~= all_restored(before.workspaces.all, workspaces@));
        if workspaces.len() > 0 {
            self.camera.move_to(workspaces[0].camera);
        }
        self.saved_visuals = visuals;
    }

    fn save_members(&self, i: usize, out: &mut Vec<SavedVisual>)
        requires
            i < self@.workspaces.all.len(),
        ensures
            saved_windows(final(out)@) == saved_windows(old(out)@) + self@.saved_in(
                i as int,
                self@.workspaces.all[i as int].visual_ids.len() as int,
            ),
    {
        let ws = &self.workspace_manager.workspaces[i];
        assert(ws@ == self@.workspaces.all[i as int]);
        let mut k: usize = 0;
        assert(saved_windows(out@) + self@.saved_in(i as int, 0) =~= saved_windows(old(out)@));
        while k < ws.visual_ids.len()
            invariant
                k <= ws.visual_ids@.len(),
                i < self@.workspaces.all.len(),
                ws@ == self@.workspaces.all[i as int],
                saved_windows(out@) == saved_windows(old(out)@) + self@.saved_in(
                    i as int,
                    k as int,
                ),
            decreases ws.visual_ids@.len() - k,
        {
            let vid = ws.visual_ids[k];
            assert(vid == self@.workspaces.all[i as int].visual_ids[k as int]);
            proof {
                lemma_window_index_bounds(self@.toplevels, vid);
            }
            if let Some(row) = self.window_position(vid) {
                if let Some(v) = self.scene.get(vid) {
                    let s = SavedVisual {
                        app_id: self.toplevels[row].app_id.clone(),
                        workspace: i,
                        transform: v.transform,
                        detached: contains_id(&ws.detached_set, vid),
                    };
                    let ghost before = out@;
                    out.push(s);
                    assert(saved_windows(out@) =~= saved_windows(before).push(saved_window(s)));
                    assert(saved_window(s) == self@.saved_row(vid, i as int));
                }
            }
            k = k + 1;
            assert(saved_windows(out@) =~= saved_windows(old(out)@) + self@.saved_in(
                i as int,
                k as int,
            ));
        }
    }

    fn save_windows(&self) -> (r: Vec<SavedVisual>)
        ensures
            saved_windows(r@) == self@.saved_upto(self@.workspaces.all.len() as int),
    {
        let mut out: Vec<SavedVisual> = Vec::new();
        let n: usize = self.workspace_manager.len();
        let mut i: usize = 0;
        assert(saved_windows(out@) =~= self@.saved_upto(0));
        while i < n
            invariant
                i <= n,
                n == self@.workspaces.all.len(),
                saved_windows(out@) == self@.saved_upto(i as int),
            decreases n - i,
        {
            self.save_members(i, &mut out);
            i = i + 1;
        }
        out
    }

    fn save_workspaces(&self) -> (r: Vec<SavedWorkspace>)
        ensures
            saves_workspaces(r@, self@.workspaces),
    {
        let mut out: Vec<SavedWorkspace> = Vec::new();
        let n: usize = self.workspace_manager.len();
        let mut i: usize = 0;
        while i < n
            invariant
                i <= n,
                n == self@.workspaces.all.len(),
                out@.len() == i,
                forall|j: int|
                    0 <= j < i ==> (#[trigger] out@[j]).camera == view_of(
                        self@.workspaces.all[j].camera,
                    ) && out@[j].layout_mode@ == layout_name(self@.workspaces.all[j].layout_mode),
            decreases n - i,
        {
            let ws = &self.workspace_manager.workspaces[i];
            assert(ws@ == self@.workspaces.all[i as int]);
            out.push(
                SavedWorkspace { camera: ws.camera.view(), layout_mode: ws.layout_mode.name() },
            );
            i = i + 1;
        }
        out
    }

    /// What to save. The live camera belongs to the shown workspace and is
    /// recorded there first.
    pub fn save_state(&mut self) -> (r: SavedState)
        requires
            old(self)@.wf(),
        ensures
            final(self)@ == old(self)@.camera_recorded(),
            saves_workspaces(r.workspaces@, final(self)@.workspaces),
            saved_windows(r.visuals@) == final(self)@.saved_upto(
                final(self)@.workspaces.all.len() as int,
            ),
    {
        let i: usize = self.workspace_manager.active;
        self.workspace_manager.workspaces[i].camera = self.camera;
        assert(self@.workspaces.all =~= old(self)@.workspaces.all.update(
            i as int,
            self.workspace_manager.workspaces@[i as int]@,
        ));
        SavedState { workspaces: self.save_workspaces(), visuals: self.save_windows() }
    }
}

/// A workspace comes back with the view and the layout it was saved with.
pub proof fn law_saved_workspaces_come_back(
    m: GlassModel,
    later: GlassModel,
    saved: Seq<SavedWorkspace>,
    visuals: Seq<SavedVisual>,
    i: int,
)
    requires
        saves_workspaces(saved, m.workspaces),
        later.workspaces.all.len() == m.workspaces.all.len(),
        0 <= i < m.workspaces.all.len(),
    ensures
        ({
            let w = later.with_saved(saved, visuals).workspaces.all[i];
            &&& view_of(w.camera) == view_of(m.workspaces.all[i].camera)
            &&& w.layout_mode == m.workspaces.all[i].layout_mode
        }),
{
    assert(saved[i].camera == view_of(m.workspaces.all[i].camera));
    law_layout_name_reads_back(
        m.workspaces.all[i].layout_mode,
        later.workspaces.all[i].layout_mode,
    );
}

/// The shown workspace is saved with the view on screen, not with the one
/// it was last left with.
pub proof fn law_live_view_is_saved(m: GlassModel)
    requires
        m.wf(),
    ensures
        m.camera_recorded().workspaces.current().camera == m.camera,
{
}

proof fn lemma_saved_in(m: GlassModel, i: int, k: int, at: int)
    requires
        0 <= at < k <= m.workspaces.all[i].visual_ids.len(),
        m.is_saved(m.workspaces.all[i].visual_ids[at]),
    ensures
        m.saved_in(i, k).contains(m.saved_row(m.workspaces.all[i].visual_ids[at], i)),
    decreases k,
{
    let row = m.saved_row(m.workspaces.all[i].visual_ids[at], i);
    if at == k - 1 {
        assert(m.saved_in(i, k).last() == row);
    } else {
        lemma_saved_in(m, i, k - 1, at);
        let earlier = m.saved_in(i, k - 1);
        let j = choose|j: int| 0 <= j < earlier.len() && earlier[j] == row;
        assert(m.saved_in(i, k)[j] == row);
    }
}

proof fn lemma_saved_upto(m: GlassModel, n: int, i: int, row: SavedVisualModel)
    requires
        0 <= i < n,
        m.saved_in(i, m.workspaces.all[i].visual_ids.len() as int).contains(row),
    ensures
        m.saved_upto(n).contains(row),
    decreases n,
{
    let earlier = m.saved_upto(n - 1);
    let here = m.saved_in(n - 1, m.workspaces.all[n - 1].visual_ids.len() as int);
    if i == n - 1 {
        let j = choose|j: int| 0 <= j < here.len() && here[j] == row;
        assert(m.saved_upto(n)[earlier.len() + j] == row);
    } else {
        lemma_saved_upto(m, n - 1, i, row);
        let j = choose|j: int| 0 <= j < earlier.len() && earlier[j] == row;
        assert(m.saved_upto(n)[j] == row);
    }
}

/// Every window is saved with its pose and its workspace.
pub proof fn law_every_window_is_saved(m: GlassModel, i: int, vid: VisualId)
    requires
        0 <= i < m.workspaces.all.len(),
        m.workspaces.all[i].visual_ids.contains(vid),
        m.is_saved(vid),
    ensures
        m.saved_upto(m.workspaces.all.len() as int).contains(m.saved_row(vid, i)),
{
    let ids = m.workspaces.all[i].visual_ids;
    let at = choose|at: int| 0 <= at < ids.len() && ids[at] == vid;
    lemma_saved_in(m, i, ids.len() as int, at);
    lemma_saved_upto(m, m.workspaces.all.len() as int, i, m.saved_row(vid, i));
}

} // verus!
