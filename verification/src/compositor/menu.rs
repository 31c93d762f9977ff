//! The context menu and the camera modes it and the keys switch.
use vstd::prelude::*;

use crate::compositor::focusing::surface_index;
use crate::compositor::state::{Effect, GlassModel, LookingGlass};
use crate::context_menu::{Coordinate, MenuAction};
use crate::focus::{restored, starting, unfocused, CameraMode, FocusManager};
use crate::fullscreen::FullscreenSource;
use crate::group::member_index;
use crate::id_list::{add_id, lemma_without_members, remove_id, with_member, without};
use crate::input::{
    at_bookmark, moved_to, straight_view, with_bookmark, workspaces_camera, Camera, CameraView,
    DEFAULT_DISTANCE,
};
use crate::maximize::{MaximizeSource, MinimizeSource};
use crate::scene::{identity_transform, Transform3D, VisualId};

verus! {

/// The cameras that fit what is on screen, as geometry has it now.
#[derive(Debug, Clone, Copy)]
pub struct Views {
    /// Frames the focused visual.
    pub focused: Camera,
    /// Frames the visual whose menu is open.
    pub menu_target: Camera,
    /// Shows every visual of the workspace, if there is one.
    pub overview: Option<Camera>,
    /// Frames the selected visual, if it is in the scene.
    pub selected: Option<CameraView>,
    /// Frames every visual of the workspace that is shown, if there is one.
    pub all: Option<CameraView>,
    /// Fits the workspace plane to the output.
    pub fitted: CameraView,
    /// The middle of the screen.
    pub centre: (Coordinate, Coordinate),
}

/// The camera mode that follows a visual.
pub open spec fn following(camera: Camera, vid: VisualId, target: Camera) -> FocusManager {
    FocusManager {
        camera_mode: CameraMode::Focus(vid),
        saved_camera: Some(camera),
        focus_target: Some(vid),
        transition: Some(starting(camera, target)),
    }
}

impl GlassModel {
    /// The camera starts to follow a visual.
    pub open spec fn focus_entered(self, vid: VisualId, target: Camera) -> GlassModel {
        GlassModel { focus_manager: following(self.camera, vid, target), ..self }
    }

    /// Focus mode left: the camera exactly as it was.
    pub open spec fn focus_left(self) -> GlassModel {
        GlassModel {
            camera: restored(self.focus_manager, self.camera),
            focus_manager: unfocused(),
            ..self
        }
    }

    /// An overview left: the camera exactly as it was.
    pub open spec fn overview_left(self) -> GlassModel {
        GlassModel {
            camera: restored(self.focus_manager, self.camera),
            focus_manager: unfocused(),
            ..self
        }
    }

    pub open spec fn overview_entered(self, cam: Option<Camera>) -> GlassModel {
        match cam {
            Some(c) => GlassModel {
                focus_manager: FocusManager {
                    camera_mode: CameraMode::Overview,
                    saved_camera: Some(self.camera),
                    transition: Some(starting(self.camera, c)),
                    ..self.focus_manager
                },
                ..self
            },
            None => self,
        }
    }

    pub open spec fn workspace_overview_entered(self) -> GlassModel {
        GlassModel {
            focus_manager: FocusManager {
                camera_mode: CameraMode::WorkspaceOverview,
                saved_camera: Some(self.camera),
                transition: Some(starting(self.camera, workspaces_camera())),
                ..self.focus_manager
            },
            ..self
        }
    }

    /// Any camera mode left, or focus mode entered for the focused
    /// visual.
    pub open spec fn focus_toggled(self, target: Camera) -> GlassModel {
        match self.focus_manager.camera_mode {
            CameraMode::Focus(_) => self.focus_left(),
            CameraMode::Overview | CameraMode::WorkspaceOverview => self.overview_left(),
            CameraMode::Normal => match self.scene.focused_id {
                Some(vid) => self.focus_entered(vid, target),
                None => self,
            },
        }
    }

    pub open spec fn overview_toggled(self, cam: Option<Camera>) -> GlassModel {
        match self.focus_manager.camera_mode {
            CameraMode::Overview | CameraMode::WorkspaceOverview => self.overview_left(),
            _ => self.overview_entered(cam),
        }
    }

    pub open spec fn workspace_overview_toggled(self) -> GlassModel {
        match self.focus_manager.camera_mode {
            CameraMode::WorkspaceOverview => self.overview_left(),
            _ => self.workspace_overview_entered(),
        }
    }

    /// The camera moved to a view.
    pub open spec fn looking(self, view: CameraView) -> GlassModel {
        GlassModel { camera: moved_to(self.camera, view), ..self }
    }

    /// The camera where a session starts.
    pub open spec fn camera_reset(self) -> GlassModel {
        self.looking(straight_view(DEFAULT_DISTANCE))
    }

    pub open spec fn dimmed(self, vid: VisualId) -> GlassModel {
        GlassModel { de_emphasized: with_member(self.de_emphasized, vid), ..self }.ordering(
            Effect::DeEmphasize { vid },
        )
    }

    pub open spec fn undimmed(self, vid: VisualId) -> GlassModel {
        GlassModel { de_emphasized: without(self.de_emphasized, vid), ..self }.ordering(
            Effect::Emphasize { vid },
        )
    }

    /// The window's client asked to close it.
    pub open spec fn close_asked(self, vid: VisualId) -> GlassModel {
        match self.surface_of(vid) {
            Some(s) if surface_index(self.toplevels, s) < self.toplevels.len() => self.ordering(
                Effect::SendClose { surface: s },
            ),
            _ => self,
        }
    }

    /// The window moved from the shown workspace to another. It keeps its
    /// place in the world. Moved to the shown workspace it stays where it
    /// is, and the camera is fitted at once.
    pub open spec fn moved_to_workspace(self, vid: VisualId, idx: int) -> GlassModel {
        if 0 <= idx < self.workspaces.all.len() {
            let joined = self.workspaces.joined(idx, vid);
            if idx == self.workspaces.active {
                GlassModel { workspaces: joined, ..self }.ordering(Effect::FitCamera)
            } else {
                GlassModel { workspaces: joined.left(self.workspaces.active, vid), ..self }
            }
        } else {
            self
        }
    }

    /// The menu closed.
    pub open spec fn menu_dismissed(self) -> GlassModel {
        GlassModel { menu: self.menu.dismissed(), ..self }
    }

    /// The first group of the visual dissolved.
    pub open spec fn ungrouped(self, vid: VisualId) -> GlassModel {
        let i = member_index(self.scene.groups, vid);
        if i < self.scene.groups.len() {
            GlassModel { scene: self.scene.dissolved(self.scene.groups[i].id), ..self }
        } else {
            self
        }
    }

    /// What a menu entry does to the window it is for.
    pub open spec fn acted_on(self, action: MenuAction, vid: VisualId, views: Views) -> GlassModel {
        match action {
            MenuAction::Dismiss => self.menu_dismissed(),
            MenuAction::Focus => self.focus_entered(vid, views.menu_target),
            MenuAction::Arrange => self.ordering(Effect::Arrange),
            MenuAction::MoveToWorkspace(i) => self.moved_to_workspace(vid, i as int),
            MenuAction::Group => GlassModel { scene: self.scene.grouped(seq![vid]), ..self },
            MenuAction::Ungroup => self.ungrouped(vid),
            MenuAction::DeEmphasize => self.dimmed(vid),
            MenuAction::Restore => self.undimmed(vid),
            MenuAction::ResetTransform => GlassModel {
                scene: self.scene.posed(vid, identity_transform()),
                ..self
            },
            MenuAction::Maximize => self.maximize_toggled(vid, MaximizeSource::Compositor),
            MenuAction::Fullscreen => self.fullscreen_toggled(vid, FullscreenSource::Compositor),
            MenuAction::Minimize => self.minimize_begun(vid),
            MenuAction::Close => self.close_asked(vid),
        }
    }

    /// A menu entry carried out and the menu closed.
    pub open spec fn menu_executed(self, action: MenuAction, views: Views) -> GlassModel {
        match self.menu.target {
            Some(vid) => self.acted_on(action, vid, views).menu_dismissed(),
            None => self.menu_dismissed(),
        }
    }

    /// The menu of a window opened.
    pub open spec fn menu_opened(self, x: Coordinate, y: Coordinate, vid: VisualId) -> GlassModel {
        GlassModel {
            menu: self.menu.shown(x, y, vid).labelled(self.maximized(vid)),
            ..self
        }
    }
}

impl LookingGlass {
    pub(crate) fn enter_focus(&mut self, vid: VisualId, target: Camera)
        ensures
            final(self)@ == old(self)@.focus_entered(vid, target),
    {
        let camera = self.camera;
        self.focus_manager.enter(&camera, vid, target);
    }

    pub(crate) fn exit_focus(&mut self)
        ensures
            final(self)@ == old(self)@.focus_left(),
    {
        let mut camera = self.camera;
        self.focus_manager.exit(&mut camera);
        self.camera = camera;
    }

    pub(crate) fn exit_overview(&mut self)
        ensures
            final(self)@ == old(self)@.overview_left(),
    {
        let mut camera = self.camera;
        self.focus_manager.exit_overview(&mut camera);
        self.camera = camera;
    }

    /// Leaves any camera mode, or enters focus mode for the focused
    /// visual; `target` is the camera that frames it.
    pub fn toggle_focus_mode(&mut self, target: Camera)
        ensures
            final(self)@ == old(self)@.focus_toggled(target),
    {
        match self.focus_manager.camera_mode {
            CameraMode::Focus(_) => {
                self.exit_focus();
            },
            CameraMode::Overview | CameraMode::WorkspaceOverview => {
                self.exit_overview();
            },
            CameraMode::Normal => {
                if let Some(vid) = self.scene.focused_id {
                    self.enter_focus(vid, target);
                }
            },
        }
    }

    /// Shows every visual of the workspace, if there is one to show.
    pub fn enter_overview(&mut self, cam: Option<Camera>)
        ensures
            final(self)@ == old(self)@.overview_entered(cam),
    {
        if let Some(c) = cam {
            let camera = self.camera;
            self.focus_manager.enter_overview(&camera, c);
        }
    }

    /// Shows every workspace.
    pub fn enter_workspace_overview(&mut self)
        ensures
            final(self)@ == old(self)@.workspace_overview_entered(),
    {
        let camera = self.camera;
        self.focus_manager.enter_workspace_overview(&camera, Camera::over_workspaces());
    }

    pub(crate) fn toggle_overview(&mut self, cam: Option<Camera>)
        ensures
            final(self)@ == old(self)@.overview_toggled(cam),
    {
        match self.focus_manager.camera_mode {
            CameraMode::Overview | CameraMode::WorkspaceOverview => {
                self.exit_overview();
            },
            _ => {
                self.enter_overview(cam);
            },
        }
    }

    pub(crate) fn toggle_workspace_overview(&mut self)
        ensures
            final(self)@ == old(self)@.workspace_overview_toggled(),
    {
        match self.focus_manager.camera_mode {
            CameraMode::WorkspaceOverview => {
                self.exit_overview();
            },
            _ => {
                self.enter_workspace_overview();
            },
        }
    }

    /// Puts the camera where a session starts.
    pub fn reset_camera(&mut self)
        ensures
            final(self)@ == old(self)@.camera_reset(),
    {
        self.camera.move_to(CameraView::straight(DEFAULT_DISTANCE));
    }

    /// Centres the camera on the selected visual; `view` frames it, if it
    /// is in the scene.
    pub fn frame_selected(&mut self, view: Option<CameraView>) -> (r: bool)
        ensures
            r == (old(self)@.scene.selected_id is Some && view is Some),
            final(self)@ == match (old(self)@.scene.selected_id, view) {
                (Some(_), Some(v)) => old(self)@.looking(v),
                _ => old(self)@,
            },
    {
        if self.scene.selected_id.is_none() {
            return false;
        }
        self.frame_all(view)
    }

    /// Brings the whole room into view; `view` frames it, if there is
    /// anything in it.
    pub fn frame_all(&mut self, view: Option<CameraView>) -> (r: bool)
        ensures
            r == (view is Some),
            final(self)@ == match view {
                Some(v) => old(self)@.looking(v),
                None => old(self)@,
            },
    {
        match view {
            Some(v) => {
                self.camera.move_to(v);
                true
            },
            None => false,
        }
    }

    /// Keeps the view in a bookmark slot.
    pub fn save_bookmark(&mut self, slot: usize)
        ensures
            final(self)@ == (GlassModel {
                camera: with_bookmark(old(self)@.camera, slot as int),
                ..old(self)@
            }),
    {
        self.camera.save_bookmark(slot);
    }

    /// Goes back to a bookmark. Returns whether the slot had a view.
    pub fn restore_bookmark(&mut self, slot: usize) -> (r: bool)
        ensures
            r == (slot < crate::input::BOOKMARK_SLOTS && old(
                self,
            )@.camera.bookmarks@[slot as int] is Some),
            final(self)@ == (GlassModel {
                camera: at_bookmark(old(self)@.camera, slot as int),
                ..old(self)@
            }),
    {
        self.camera.restore_bookmark(slot)
    }

    pub(crate) fn dim(&mut self, vid: VisualId)
        ensures
            final(self)@ == old(self)@.dimmed(vid),
    {
        add_id(&mut self.de_emphasized, vid);
        self.order(Effect::DeEmphasize { vid });
    }

    pub(crate) fn undim(&mut self, vid: VisualId)
        ensures
            final(self)@ == old(self)@.undimmed(vid),
    {
        remove_id(&mut self.de_emphasized, vid);
        self.order(Effect::Emphasize { vid });
    }

    pub(crate) fn ask_to_close(&mut self, vid: VisualId)
        ensures
            final(self)@ == old(self)@.close_asked(vid),
    {
        if let Some(s) = self.surface_of(vid) {
            if self.surface_position(s).is_some() {
                self.order(Effect::SendClose { surface: s });
            }
        }
    }

    fn move_to_workspace(&mut self, vid: VisualId, idx: usize)
        requires
            old(self)@.wf(),
        ensures
            final(self)@ == old(self)@.moved_to_workspace(vid, idx as int),
            final(self)@.wf(),
    {
        if idx < self.workspace_manager.len() {
            let current: usize = self.workspace_manager.active_id();
            self.workspace_manager.join(idx, vid);
            if idx == current {
                self.order(Effect::FitCamera);
            } else {
                self.workspace_manager.leave(current, vid);
            }
        }
    }

    fn ungroup(&mut self, vid: VisualId)
        ensures
            final(self)@ == old(self)@.ungrouped(vid),
    {
        if let Some(gid) = self.scene.find_group_containing(vid) {
            self.scene.remove_group(gid);
        }
    }

    fn act_on(&mut self, action: MenuAction, vid: VisualId, views: &Views)
        requires
            old(self)@.wf(),
        ensures
            final(self)@ == old(self)@.acted_on(action, vid, *views),
            final(self)@.wf(),
    {
        match action {
            MenuAction::Dismiss => {
                self.context_menu.dismiss();
            },
            MenuAction::Focus => {
                self.enter_focus(vid, views.menu_target);
            },
            MenuAction::Arrange => {
                self.order(Effect::Arrange);
            },
            MenuAction::MoveToWorkspace(i) => {
                self.move_to_workspace(vid, i);
            },
            MenuAction::Group => {
                let members: Vec<VisualId> = vec![vid];
                assert(members@ =~= seq![vid]);
                self.scene.create_group(members);
            },
            MenuAction::Ungroup => {
                self.ungroup(vid);
            },
            MenuAction::DeEmphasize => {
                self.dim(vid);
            },
            MenuAction::Restore => {
                self.undim(vid);
            },
            MenuAction::ResetTransform => {
                self.scene.set_transform(vid, Transform3D::identity());
            },
            MenuAction::Maximize => {
                self.toggle_maximize_for(vid, MaximizeSource::Compositor);
            },
            MenuAction::Fullscreen => {
                self.toggle_fullscreen_for(vid, FullscreenSource::Compositor);
            },
            MenuAction::Minimize => {
                self.begin_minimize(vid, MinimizeSource::Compositor);
            },
            MenuAction::Close => {
                self.ask_to_close(vid);
            },
        }
    }

    /// Carries out a menu entry on the window the menu is for, and closes
    /// the menu.
    pub fn execute_menu_action(&mut self, action: MenuAction, views: &Views)
        requires
            old(self)@.wf(),
        ensures
            final(self)@ == old(self)@.menu_executed(action, *views),
            final(self)@.wf(),
    {
        if let Some(vid) = self.context_menu.target {
            self.act_on(action, vid, views);
        }
        self.context_menu.dismiss();
    }

    /// Shows the menu of the window under the pointer, if there is one.
    /// Any open menu closes first. Returns whether a menu is shown.
    pub fn handle_context_menu(
        &mut self,
        x: Coordinate,
        y: Coordinate,
        picked: Option<VisualId>,
    ) -> (r: bool)
        ensures
            r == (picked is Some),
            final(self)@ == match picked {
                Some(vid) => old(self)@.menu_dismissed().menu_opened(x, y, vid),
                None => old(self)@.menu_dismissed(),
            },
    {
        self.context_menu.dismiss();
        match picked {
            Some(vid) => {
                self.open_menu(x, y, vid);
                true
            },
            None => false,
        }
    }

    fn open_menu(&mut self, x: Coordinate, y: Coordinate, vid: VisualId)
        ensures
            final(self)@ == old(self)@.menu_opened(x, y, vid),
    {
        let maximized = self.is_maximized(vid);
        let count: usize = self.workspace_manager.len();
        self.context_menu.show(x, y, vid, count);
        self.context_menu.set_maximize_label(maximized);
    }

    /// Opens the menu of the focused window in the middle of the screen.
    pub fn open_context_menu_on_focused(&mut self, centre: (Coordinate, Coordinate))
        ensures
            final(self)@ == match old(self)@.scene.focused_id {
                Some(vid) => old(self)@.menu_opened(centre.0, centre.1, vid),
                None => old(self)@,
            },
    {
        if let Some(vid) = self.scene.focused_id {
            self.open_menu(centre.0, centre.1, vid);
        }
    }

    /// A click on the menu; `item` is the entry under the pointer, if
    /// any. Returns whether the menu took the click.
    pub fn handle_menu_click(&mut self, item: Option<usize>, views: &Views) -> (r: bool)
        requires
            old(self)@.wf(),
        ensures
            r == match item {
                Some(i) => i < old(self)@.menu.items.len(),
                None => false,
            },
            final(self)@ == if r {
                old(self)@.menu_executed(old(self)@.menu.items[item.unwrap() as int].1, *views)
            } else {
                old(self)@
            },
            final(self)@.wf(),
    {
        if let Some(i) = item {
            if i < self.context_menu.items.len() {
                let action = self.context_menu.items[i].action;
                self.execute_menu_action(action, views);
                return true;
            }
        }
        false
    }

    /// Closes the focused application's window.
    pub fn close_focused_app(&mut self)
        ensures
            final(self)@ == match old(self)@.scene.focused_id {
                Some(vid) => old(self)@.close_asked(vid),
                None => old(self)@,
            },
    {
        if let Some(vid) = self.scene.focused_id {
            self.ask_to_close(vid);
        }
    }
}

/// A window moved to a workspace is on that one and on no other; every
/// other window stays where it is.
pub proof fn law_moved_window_is_on_its_workspace(m: GlassModel, vid: VisualId, idx: int)
    requires
        m.wf(),
        0 <= idx < m.workspaces.all.len(),
        forall|i: int|
            0 <= i < m.workspaces.all.len() && i != m.workspaces.active ==> !(
            #[trigger] m.workspaces.all[i]).visual_ids.contains(vid),
    ensures
        ({
            let after = m.moved_to_workspace(vid, idx).workspaces;
            &&& after.all.len() == m.workspaces.all.len()
            &&& after.active == m.workspaces.active
            &&& forall|i: int|
                0 <= i < after.all.len() ==> ((#[trigger] after.all[i]).visual_ids.contains(vid)
                    <==> i == idx)
            &&& forall|i: int, x: VisualId|
                0 <= i < after.all.len() && x != vid ==> (#[trigger] after.all[i].visual_ids.contains(
                    x,
                ) <==> m.workspaces.all[i].visual_ids.contains(x))
        }),
{
    let here = m.workspaces.active;
    let joined = m.workspaces.joined(idx, vid);
    let before = m.workspaces.all[idx].visual_ids;
    if !before.contains(vid) {
        assert(before.push(vid)[before.len() as int] == vid);
        assert forall|x: VisualId| x != vid implies (#[trigger] before.push(vid).contains(x)
            <==> before.contains(x)) by {
            if before.contains(x) {
                let k = before.index_of(x);
                assert(before.push(vid)[k] == x);
            }
        }
    }
    lemma_without_members(joined.all[here].visual_ids, vid);
}

} // verus!
