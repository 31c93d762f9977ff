//! Switching between workspaces.
use vstd::prelude::*;

use crate::compositor::state::{Effect, GlassModel, InputState, LookingGlass};
use crate::focus::{starting, CameraMode, FocusManager, FocusTransition};
use crate::focus_history::{cycle_choice, decides};
use crate::id_list::copy_ids;
use crate::scene::{SceneModel, VisualId};
use crate::workspace::{LayoutMode, WorkspaceError, WorkspacesModel};

verus! {

impl GlassModel {
    /// The drag in progress, if any, ended.
    pub open spec fn drag_ended(self) -> GlassModel {
        if self.input.dragging is Some {
            GlassModel {
                input: InputState { dragging: None, ..self.input },
                outbox: self.outbox.push(Effect::EndDrag),
                ..self
            }
        } else {
            self
        }
    }

    /// How the shown workspace is being left, remembered with it.
    pub open spec fn view_kept(self) -> GlassModel {
        GlassModel {
            workspaces: self.workspaces.kept(
                self.camera,
                self.scene.focused_id,
                self.scene.detached_set,
                self.focus_manager,
            ),
            ..self
        }
    }

    /// Workspace `idx` shown as it was left, in the normal camera mode.
    /// From another workspace the camera glides there.
    pub open spec fn view_restored(self, idx: int) -> GlassModel {
        let w = self.workspaces.all[idx];
        GlassModel {
            workspaces: WorkspacesModel { active: idx, ..self.workspaces },
            camera: w.camera,
            scene: SceneModel { detached_set: w.detached_set, ..self.scene },
            focus_manager: FocusManager {
                camera_mode: CameraMode::Normal,
                saved_camera: None,
                transition: if idx == self.workspaces.active {
                    None
                } else {
                    Some(starting(self.camera, w.camera))
                },
                ..w.focus_manager_state
            },
            ..self
        }
    }

    /// Who has focus on a workspace just shown: who had it when it was
    /// left, if that window may still have it, or the most recent window
    /// that may, or the first one of the workspace that may.
    pub open spec fn arrival_focus(self) -> Option<VisualId> {
        let w = self.workspaces.current();
        match w.focused_id {
            Some(v) if self.focusable(v) => Some(v),
            _ => match cycle_choice(
                self.mru,
                None,
                true,
                |v: VisualId| self.focusable(v),
            ) {
                Some(v) => Some(v),
                None => self.first_choice(),
            },
        }
    }

    /// The shown workspace left: no pointer constraint, drag or resize
    /// outlives it.
    pub open spec fn workspace_left(self) -> GlassModel {
        self.unlocked().drag_ended().session_finished().view_kept()
    }

    /// Another workspace shown. With no such workspace the shown one has
    /// been left all the same.
    pub open spec fn switched(self, idx: int) -> GlassModel {
        let m = self.workspace_left();
        if 0 <= idx < m.workspaces.all.len() {
            let n = m.view_restored(idx);
            n.keyboard_focused(n.arrival_focus()).ordering(Effect::FitCamera)
        } else {
            m
        }
    }
}

impl LookingGlass {
    /// Ends the drag in progress, if any.
    pub fn end_drag(&mut self)
        ensures
            final(self)@ == old(self)@.drag_ended(),
    {
        if self.input.dragging.is_some() {
            self.input.dragging = None;
            self.order(Effect::EndDrag);
        }
    }

    fn arrival_focus(&self) -> (r: Option<VisualId>)
        requires
            self@.wf(),
        ensures
            r == self@.arrival_focus(),
    {
        if let Some(v) = self.workspace_manager.active().focused_id {
            if self.may_have_focus(v) {
                return Some(v);
            }
        }
        let ghost ok = |v: VisualId| self@.focusable(v);
        let f = |v: VisualId| -> (b: bool)
            ensures
                b == self@.focusable(v),
            { self.may_have_focus(v) };
        assert(decides(f, ok));
        match self.focus_history.next_after(None, &f) {
            Some(v) => Some(v),
            None => self.first_focusable(),
        }
    }

    /// Switches to a workspace: the shown one is left as it is, the other
    /// is shown as it was left, the camera glides there, and focus goes to
    /// a window on it. Returns whether there is such a workspace.
    pub fn switch_workspace(&mut self, idx: usize) -> (r: bool)
        requires
            old(self)@.wf(),
        ensures
            r == (idx < old(self)@.workspaces.all.len()),
            final(self)@ == old(self)@.switched(idx as int),
            final(self)@.wf(),
    {
        self.unlock_pointer();
        self.end_drag();
        self.finish_resize_session();
        self.workspace_manager.keep(
            self.camera,
            self.scene.focused_id,
            &self.scene.detached_set,
            self.focus_manager,
        );
        assert(self@ == old(self)@.workspace_left());
        let left: usize = self.workspace_manager.active_id();
        if !self.workspace_manager.switch(idx) {
            return false;
        }
        let detached = copy_ids(&self.workspace_manager.active().detached_set);
        let from = self.camera;
        self.camera = self.workspace_manager.active().camera;
        let state = self.workspace_manager.active().focus_manager_state;
        self.focus_manager = FocusManager {
            camera_mode: CameraMode::Normal,
            saved_camera: None,
            transition: if idx == left {
                None
            } else {
                Some(FocusTransition::new(from, self.camera))
            },
            ..state
        };
        self.scene.detached_set = detached;
        assert(self@ == old(self)@.workspace_left().view_restored(idx as int));
        let target = self.arrival_focus();
        self.set_keyboard_focus(target);
        self.order(Effect::FitCamera);
        true
    }

    /// Adds a workspace and returns its index.
    pub fn create_workspace(&mut self) -> (r: usize)
        requires
            old(self)@.wf(),
            old(self)@.workspaces.all.len() < usize::MAX,
        ensures
            r == old(self)@.workspaces.all.len(),
            final(self)@.workspaces.all.drop_last() == old(self)@.workspaces.all,
            final(self)@.workspaces.all.last().is_fresh(),
            final(self)@ == (GlassModel {
                workspaces: final(self)@.workspaces,
                ..old(self)@
            }),
            final(self)@.workspaces.active == old(self)@.workspaces.active,
            final(self)@.wf(),
    {
        self.workspace_manager.add()
    }

    /// Takes a workspace away, showing the first one before that if it is
    /// the shown one. Its windows survive. Fails for the last workspace
    /// and for one that does not exist.
    pub fn destroy_workspace(&mut self, id: usize) -> (r: Result<(), WorkspaceError>)
        requires
            old(self)@.wf(),
        ensures
            r == if old(self)@.workspaces.all.len() <= 1 {
                Err(WorkspaceError::LastWorkspace)
            } else if id >= old(self)@.workspaces.all.len() {
                Err(WorkspaceError::NoSuchWorkspace)
            } else {
                Ok(())
            },
            final(self)@ == if r is Ok {
                let m = if id == old(self)@.workspaces.active {
                    old(self)@.view_kept().switched(0)
                } else {
                    old(self)@
                };
                GlassModel { workspaces: m.workspaces.removed(id as int), ..m }
            } else {
                old(self)@
            },
            final(self)@.wf(),
    {
        if self.workspace_manager.len() <= 1 {
            return Err(WorkspaceError::LastWorkspace);
        }
        if id == self.workspace_manager.active_id() {
            self.workspace_manager.keep(
                self.camera,
                self.scene.focused_id,
                &self.scene.detached_set,
                self.focus_manager,
            );
            self.switch_workspace(0);
        }
        self.workspace_manager.remove(id)
    }

    pub fn workspace_count(&self) -> (r: usize)
        ensures
            r == self@.workspaces.all.len(),
    {
        self.workspace_manager.len()
    }

    /// Shows the next workspace, the first after the last.
    pub fn next_workspace(&mut self) -> (r: bool)
        requires
            old(self)@.wf(),
        ensures
            r,
            final(self)@ == old(self)@.switched(
                (old(self)@.workspaces.active + 1) % (old(self)@.workspaces.all.len() as int),
            ),
            final(self)@.wf(),
    {
        let current: usize = self.workspace_manager.active_id();
        let len: usize = self.workspace_manager.len();
        let next: usize = if current + 1 == len {
            0
        } else {
            current + 1
        };
        proof {
            let a = current as int + 1;
            let n = len as int;
            if a == n {
                vstd::arithmetic::div_mod::lemma_mod_self_0(n);
            } else {
                vstd::arithmetic::div_mod::lemma_small_mod(a as nat, n as nat);
            }
        }
        self.switch_workspace(next)
    }

    /// Shows the previous workspace, the last before the first.
    pub fn previous_workspace(&mut self) -> (r: bool)
        requires
            old(self)@.wf(),
        ensures
            r,
            final(self)@ == old(self)@.switched(
                if old(self)@.workspaces.active == 0 {
                    old(self)@.workspaces.all.len() - 1
                } else {
                    old(self)@.workspaces.active - 1
                },
            ),
            final(self)@.wf(),
    {
        let current: usize = self.workspace_manager.active_id();
        let prev: usize = if current == 0 {
            self.workspace_manager.len() - 1
        } else {
            current - 1
        };
        self.switch_workspace(prev)
    }

    /// Shows a workspace; does nothing when there is no such workspace.
    pub fn activate_workspace(&mut self, id: usize) -> (r: bool)
        requires
            old(self)@.wf(),
        ensures
            r == (id < old(self)@.workspaces.all.len()),
            final(self)@ == if r {
                old(self)@.switched(id as int)
            } else {
                old(self)@
            },
            final(self)@.wf(),
    {
        if id >= self.workspace_manager.len() {
            return false;
        }
        self.switch_workspace(id)
    }

    /// How the shown workspace arranges its windows.
    pub fn layout_mode(&self) -> (r: LayoutMode)
        requires
            self@.wf(),
        ensures
            r == self@.workspaces.current().layout_mode,
    {
        self.workspace_manager.active().layout_mode
    }

    /// The workspace a visual is on.
    pub fn workspace_for_visual(&self, vid: VisualId) -> (r: Option<usize>)
        ensures
            r == self@.workspaces.home(vid),
    {
        self.workspace_manager.home(vid)
    }
}

} // verus!
