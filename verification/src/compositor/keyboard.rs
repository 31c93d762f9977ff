//! Keys: modifiers, shortcuts, the menu and what is left for clients.
use std::collections::HashSet;

use vstd::prelude::*;

use crate::closed::{app_id_matches_entry, PendingReopen};
use crate::compositor::focusing::is_x11;
use crate::compositor::menu::Views;
use crate::compositor::state::{
    next_serial_after, Effect, GlassModel, InputState, LookingGlass, SpatialView,
};
use crate::focus::CameraMode;
use crate::fullscreen::FullscreenSource;
use crate::id_list::{add_id, contains_id, remove_id, with_member, without};
use crate::input::{at_bookmark, view_of, with_bookmark};
use crate::input_router::{hid_usage, linux_to_hid};
use crate::keys::{modifier_key, modifier_of, Modifier, DOWN, ENTER, F1, F2, F3, TAB, UP};
use crate::maximize::{MaximizeSource, MinimizeSource};
use crate::navigation::{escape_chain, escape_choice, Binding, EscapeAction, KeyMeaning};
use crate::workspace::WorkspaceModel;

verus! {

/// The keys whose press the compositor took for itself and that are not
/// released yet. A client that did not hear the press must not hear the
/// release.
#[derive(Debug)]
pub struct ConsumedKeys {
    keys: HashSet<u32>,
}

impl View for ConsumedKeys {
    type V = Set<u32>;

    closed spec fn view(&self) -> Set<u32> {
        self.keys@
    }
}

impl ConsumedKeys {
    /// No key is held down.
    pub fn new() -> (r: Self)
        ensures
            r@ == Set::<u32>::empty(),
    {
        ConsumedKeys { keys: HashSet::new() }
    }

    /// Whether the release of the key is to be swallowed.
    pub fn contains(&self, key: u32) -> (r: bool)
        ensures
            r == self@.contains(key),
    {
        broadcast use vstd::std_specs::hash::group_hash_axioms;

        self.keys.contains(&key)
    }

    fn press(&mut self, key: u32)
        ensures
            final(self)@ == old(self)@.insert(key),
    {
        broadcast use vstd::std_specs::hash::group_hash_axioms;

        self.keys.insert(key);
    }

    fn release(&mut self, key: u32) -> (r: bool)
        ensures
            r == old(self)@.contains(key),
            final(self)@ == old(self)@.remove(key),
    {
        broadcast use vstd::std_specs::hash::group_hash_axioms;

        self.keys.remove(&key)
    }
}

impl GlassModel {
    /// The modifier is held.
    pub open spec fn held(self, m: Modifier) -> bool {
        match m {
            Modifier::Ctrl => self.input.ctrl_pressed,
            Modifier::Shift => self.input.shift_pressed,
            Modifier::Alt => self.input.alt_pressed,
            Modifier::Meta => self.input.meta_pressed,
        }
    }

    /// The modifier held or let go. Letting go of Alt ends a round of
    /// switching.
    pub open spec fn holding(self, m: Modifier, pressed: bool) -> GlassModel {
        GlassModel {
            input: match m {
                Modifier::Ctrl => InputState { ctrl_pressed: pressed, ..self.input },
                Modifier::Shift => InputState { shift_pressed: pressed, ..self.input },
                Modifier::Alt => InputState {
                    alt_pressed: pressed,
                    alt_tab_active: self.input.alt_tab_active && pressed,
                    ..self.input
                },
                Modifier::Meta => InputState { meta_pressed: pressed, ..self.input },
            },
            ..self
        }
    }

    /// The shown workspace no longer orbits by itself.
    pub open spec fn orbit_stopped(self) -> GlassModel {
        GlassModel {
            workspaces: self.workspaces.with(
                self.workspaces.active,
                WorkspaceModel { auto_orbit: false, ..self.workspaces.current() },
            ),
            ..self
        }
    }

    /// A key fed to the seat whoever has focus.
    pub open spec fn key_fed(self, key: u32, pressed: bool) -> GlassModel {
        let serial = next_serial_after(self.input.event_serial);
        if self.input.keyboard {
            self.with_serial(serial).ordering(Effect::FeedKey { key, pressed, serial })
        } else {
            self
        }
    }

    /// The code behind a key number of the seat.
    pub open spec fn evdev_code(key: u32) -> int {
        if key > 8 {
            key - 8
        } else {
            key as int
        }
    }

    /// A key delivered to the focused visual: to its surface, or else to
    /// its sink.
    pub open spec fn key_routed(self, key: u32, pressed: bool) -> GlassModel {
        let serial = next_serial_after(self.input.event_serial);
        match self.scene.focused_id {
            Some(vid) if self.scene.is_active(vid) => match self.surface_of(vid) {
                Some(s) if self.input.keyboard => self.with_serial(serial).ordering(
                    Effect::DeliverKey {
                        surface: s,
                        x11: is_x11(self.x11, s),
                        key,
                        pressed,
                        serial,
                    },
                ),
                _ => {
                    let hid = hid_usage(Self::evdev_code(key));
                    if self.sinks.contains(vid) && hid != 0 {
                        self.ordering(Effect::SinkKey { vid, key: hid as u16, pressed })
                    } else {
                        self
                    }
                },
            },
            _ => self,
        }
    }

    /// Spatial mode left, its view remembered, or entered again: at the
    /// view it was left with, or the first time at one that fits.
    pub open spec fn spatial_toggled(self, views: Views) -> GlassModel {
        if self.spatial.spatial_mode {
            GlassModel {
                spatial: SpatialView {
                    spatial_mode: false,
                    spatial_cam_pose: Some(view_of(self.camera)),
                    ..self.spatial
                },
                ..self
            }
        } else {
            let m = GlassModel {
                spatial: SpatialView {
                    spatial_mode: true,
                    spatial_cam_pose: None,
                    spatial_cam_adapted: true,
                },
                ..self
            };
            match self.spatial.spatial_cam_pose {
                Some(view) => m.looking(view),
                None => if self.spatial.spatial_cam_adapted {
                    m
                } else {
                    m.looking(views.fitted)
                },
            }
        }
    }

    /// The selected window dimmed, or no longer.
    pub open spec fn dimming_toggled(self) -> GlassModel {
        match self.scene.selected_id {
            Some(vid) => if self.de_emphasized.contains(vid) {
                self.undimmed(vid)
            } else {
                self.dimmed(vid)
            },
            None => self,
        }
    }

    /// The selected window put on the shelf, or taken from it.
    pub open spec fn shelving_toggled(self) -> GlassModel {
        match self.scene.selected_id {
            Some(vid) => if self.shelved.contains(vid) {
                GlassModel { shelved: without(self.shelved, vid), ..self }.ordering(
                    Effect::Unshelve { vid },
                )
            } else {
                GlassModel { shelved: with_member(self.shelved, vid), ..self }.ordering(
                    Effect::Shelve { vid },
                )
            },
            None => self,
        }
    }

    pub open spec fn shelf_toggled(self) -> GlassModel {
        GlassModel { shelf_visible: !self.shelf_visible, ..self }
    }

    /// What Escape undoes: a pointer constraint, a client drag, a window
    /// drag, a camera mode, or else where the camera is.
    pub open spec fn escaped(self) -> GlassModel {
        let mode = self.focus_manager.camera_mode;
        if self.constraints.pointer_locked || self.constraints.confined_surface is Some {
            self.unlocked()
        } else if self.input.dnd_active {
            self.dnd_cancelled()
        } else {
            match escape_choice(
                self.input.dragging is Some,
                mode is WorkspaceOverview,
                mode is Overview,
                mode is Focus,
            ) {
                EscapeAction::CancelDrag => self.drag_ended(),
                EscapeAction::ExitWorkspaceOverview => self.overview_left(),
                EscapeAction::ExitOverview => self.overview_left(),
                EscapeAction::ExitFocus => self.focus_left(),
                EscapeAction::ResetCamera => self.camera_reset(),
            }
        }
    }

    /// The shown workspace cycled by one.
    pub open spec fn stepped(self, forward: bool) -> GlassModel {
        let n = self.workspaces.all.len() as int;
        if forward {
            self.switched((self.workspaces.active + 1) % n)
        } else if self.workspaces.active == 0 {
            self.switched(n - 1)
        } else {
            self.switched(self.workspaces.active - 1)
        }
    }

    /// A command carried out.
    pub open spec fn commanded_to(self, b: Binding, views: Views) -> GlassModel {
        match b {
            Binding::ToggleSpatial => self.spatial_toggled(views),
            Binding::ToggleFocus => self.focus_toggled(views.focused),
            Binding::ToggleOverview => self.overview_toggled(views.overview),
            Binding::ToggleWorkspaceOverview => self.workspace_overview_toggled(),
            Binding::WorkspaceNext => self.stepped(true),
            Binding::WorkspacePrev => self.stepped(false),
            Binding::AppNext => self.app_switched(true),
            Binding::AppPrev => self.app_switched(false),
            Binding::DeEmphasize => self.dimming_toggled(),
            Binding::FrameSelected => match (self.scene.selected_id, views.selected) {
                (Some(_), Some(v)) => self.looking(v),
                _ => self,
            },
            Binding::FrameAll => match views.all {
                Some(v) => self.looking(v),
                None => self.camera_reset(),
            },
            Binding::ResetCamera => self.camera_reset(),
            Binding::Escape => self.escaped(),
            Binding::ToggleShelf => self.shelf_toggled(),
            Binding::SendToShelf => self.shelving_toggled(),
            Binding::Launcher => self,
            Binding::CloseApp => match self.scene.focused_id {
                Some(vid) => self.close_asked(vid),
                None => self,
            },
            Binding::ToggleMaximize => match self.commanded() {
                Some(vid) => self.maximize_toggled(vid, MaximizeSource::Compositor),
                None => self,
            },
            Binding::ToggleFullscreen => match self.commanded() {
                Some(vid) => self.fullscreen_toggled(vid, FullscreenSource::Compositor),
                None => self,
            },
            Binding::MinimizeSelected => match self.commanded() {
                Some(vid) => self.minimize_begun(vid),
                None => self,
            },
            Binding::RestoreSelected => match self.restorable() {
                Some(vid) => self.minimize_restored(vid),
                None => self,
            },
            Binding::ReopenClosed => self.ordering(Effect::ReopenClosed),
            Binding::CycleVisuals => self.cycled(),
            Binding::OpenContextMenu => match self.scene.focused_id {
                Some(vid) => self.menu_opened(views.centre.0, views.centre.1, vid),
                None => self,
            },
            Binding::HelpOverlay => self.shelf_toggled(),
        }
    }

    /// The workspace a function key names, if there is one.
    pub open spec fn activated(self, idx: int) -> GlassModel {
        if idx < self.workspaces.all.len() {
            self.switched(idx)
        } else {
            self
        }
    }

    /// What a key does while the menu is open, if it is a menu key.
    pub open spec fn menu_key(self, key: u32, views: Views) -> Option<GlassModel> {
        if key == UP {
            Some(GlassModel { menu: self.menu.prev(), ..self })
        } else if key == DOWN {
            Some(GlassModel { menu: self.menu.next(), ..self })
        } else if key == ENTER {
            match self.menu.choice() {
                Some(action) => Some(self.menu_executed(action, views)),
                None => Some(self),
            }
        } else {
            None
        }
    }

    /// A shortcut carried out, if the key is one: a function key, or a
    /// bound key.
    pub open spec fn shortcut_key(self, key: u32, meaning: KeyMeaning, views: Views) -> Option<
        GlassModel,
    > {
        if key == F1 {
            Some(self.activated(0))
        } else if key == F2 {
            Some(self.activated(1))
        } else if key == F3 {
            Some(self.activated(2))
        } else {
            match meaning.binding {
                Some(b) => Some(self.commanded_to(b, views)),
                None => None,
            }
        }
    }

    /// The view saved in a bookmark while something is selected, and taken
    /// from it otherwise.
    pub open spec fn bookmark_used(self, slot: int) -> GlassModel {
        GlassModel {
            camera: if self.scene.selected_id is Some {
                with_bookmark(self.camera, slot)
            } else {
                at_bookmark(self.camera, slot)
            },
            ..self
        }
    }

    /// A key that is nobody's shortcut: it steers the camera when no
    /// visual has focus, names a bookmark, or goes to the focused visual.
    pub open spec fn plain_key(self, key: u32, pressed: bool, meaning: KeyMeaning) -> GlassModel {
        let m = if self.scene.focused_id is None {
            self.ordering(Effect::CameraKey { key, pressed })
        } else {
            self
        };
        match meaning.bookmark {
            Some(slot) if pressed => m.bookmark_used(slot as int),
            _ => m.key_routed(key, pressed),
        }
    }

    /// A key that is no modifier.
    pub open spec fn ordinary_key(
        self,
        key: u32,
        pressed: bool,
        meaning: KeyMeaning,
        views: Views,
    ) -> GlassModel {
        if !pressed {
            self.plain_key(key, false, meaning)
        } else {
            match (self.menu.visible, self.menu_key(key, views)) {
                (true, Some(m)) => m,
                _ => match self.shortcut_key(key, meaning, views) {
                    Some(m) => m,
                    None => self.plain_key(key, true, meaning),
                },
            }
        }
    }

    /// A round of switching applications begun or continued: on to the
    /// next one, or back while Shift is held.
    pub open spec fn tabbed(self) -> GlassModel {
        GlassModel {
            input: InputState { alt_tab_active: true, ..self.input },
            ..self
        }.app_switched(!self.input.shift_pressed)
    }

    /// The compositor takes a press of this key for itself: Alt+Tab, a key
    /// of the open menu, a shortcut or a bookmark.
    pub open spec fn consumes(self, key: u32, meaning: KeyMeaning) -> bool {
        &&& modifier_key(key) is None
        &&& {
            ||| self.input.alt_pressed && key == TAB
            ||| self.menu.visible && (key == UP || key == DOWN || key == ENTER)
            ||| key == F1 || key == F2 || key == F3
            ||| meaning.binding is Some
            ||| meaning.bookmark is Some
        }
    }

    /// The consumed keys after a key event: a press is consumed or not,
    /// and a release ends it.
    pub open spec fn consumed_after(
        self,
        consumed: Set<u32>,
        key: u32,
        pressed: bool,
        meaning: KeyMeaning,
    ) -> Set<u32> {
        if !pressed {
            consumed.remove(key)
        } else if self.consumes(key, meaning) {
            consumed.insert(key)
        } else {
            consumed
        }
    }

    /// A key event handled; `consumed` are the keys whose press the
    /// compositor took for itself and that are not released yet.
    ///
    /// The release of a consumed key is swallowed. A modifier that is
    /// already as the event says is a duplicate and is ignored; the others
    /// always reach the seat, so that its state cannot latch. Alt+Tab
    /// switches applications.
    pub open spec fn key_handled(
        self,
        consumed: Set<u32>,
        key: u32,
        pressed: bool,
        meaning: KeyMeaning,
        views: Views,
    ) -> GlassModel {
        if !pressed && consumed.contains(key) {
            self
        } else {
            match modifier_key(key) {
                Some(m) => if self.held(m) == pressed {
                    self
                } else {
                    self.holding(m, pressed).awake(pressed).key_fed(key, pressed)
                },
                None => {
                    let m = self.awake(pressed);
                    if m.input.alt_pressed && key == TAB && pressed {
                        m.tabbed()
                    } else {
                        m.ordinary_key(key, pressed, meaning, views)
                    }
                },
            }
        }
    }

    /// A press stops the workspace's orbit.
    pub open spec fn awake(self, pressed: bool) -> GlassModel {
        if pressed {
            self.orbit_stopped()
        } else {
            self
        }
    }
}

impl LookingGlass {
    fn holds(&self, m: Modifier) -> (r: bool)
        ensures
            r == self@.held(m),
    {
        match m {
            Modifier::Ctrl => self.input.ctrl_pressed,
            Modifier::Shift => self.input.shift_pressed,
            Modifier::Alt => self.input.alt_pressed,
            Modifier::Meta => self.input.meta_pressed,
        }
    }

    fn hold(&mut self, m: Modifier, pressed: bool)
        ensures
            final(self)@ == old(self)@.holding(m, pressed),
    {
        match m {
            Modifier::Ctrl => {
                self.input.ctrl_pressed = pressed;
            },
            Modifier::Shift => {
                self.input.shift_pressed = pressed;
            },
            Modifier::Alt => {
                self.input.alt_pressed = pressed;
                if !pressed {
                    self.input.alt_tab_active = false;
                }
            },
            Modifier::Meta => {
                self.input.meta_pressed = pressed;
            },
        }
    }

    fn wake(&mut self, pressed: bool)
        requires
            old(self)@.wf(),
        ensures
            final(self)@ == old(self)@.awake(pressed),
            final(self)@.wf(),
    {
        if pressed {
            self.workspace_manager.set_auto_orbit(false);
        }
    }

    /// Feeds a key to the seat whoever has focus: modifier state belongs
    /// to the seat.
    pub fn feed_keyboard_event(&mut self, key: u32, pressed: bool)
        ensures
            final(self)@ == old(self)@.key_fed(key, pressed),
    {
        if self.input.keyboard {
            let serial: u32 = self.next_serial();
            self.order(Effect::FeedKey { key, pressed, serial });
        }
    }

    /// Delivers a key to the focused visual.
    pub fn route_keyboard(&mut self, key: u32, pressed: bool)
        ensures
            final(self)@ == old(self)@.key_routed(key, pressed),
    {
        let vid = match self.scene.focused_id {
            Some(v) => v,
            None => {
                return;
            },
        };
        if !self.scene.is_active(vid) {
            return;
        }
        if let Some(s) = self.surface_of(vid) {
            if self.input.keyboard {
                let serial: u32 = self.next_serial();
                let x11 = self.is_x11_surface(s);
                self.order(Effect::DeliverKey { surface: s, x11, key, pressed, serial });
                return;
            }
        }
        if !contains_id(&self.input_sinks, vid) {
            return;
        }
        let evdev: u32 = if key > 8 {
            key - 8
        } else {
            key
        };
        let hid: u16 = linux_to_hid(evdev);
        if hid != 0 {
            self.order(Effect::SinkKey { vid, key: hid, pressed });
        }
    }

    fn toggle_spatial(&mut self, views: &Views)
        ensures
            final(self)@ == old(self)@.spatial_toggled(*views),
    {
        if self.spatial.spatial_mode {
            self.spatial.spatial_cam_pose = Some(self.camera.view());
            self.spatial.spatial_mode = false;
        } else {
            let pose = self.spatial.spatial_cam_pose;
            let adapted = self.spatial.spatial_cam_adapted;
            self.spatial = SpatialView {
                spatial_mode: true,
                spatial_cam_pose: None,
                spatial_cam_adapted: true,
            };
            match pose {
                Some(view) => {
                    self.camera.move_to(view);
                },
                None => {
                    if !adapted {
                        self.camera.move_to(views.fitted);
                    }
                },
            }
        }
    }

    fn toggle_dimming(&mut self)
        ensures
            final(self)@ == old(self)@.dimming_toggled(),
    {
        if let Some(vid) = self.scene.selected_id {
            if contains_id(&self.de_emphasized, vid) {
                self.undim(vid);
            } else {
                self.dim(vid);
            }
        }
    }

    fn toggle_shelving(&mut self)
        ensures
            final(self)@ == old(self)@.shelving_toggled(),
    {
        if let Some(vid) = self.scene.selected_id {
            if contains_id(&self.shelved, vid) {
                remove_id(&mut self.shelved, vid);
                self.order(Effect::Unshelve { vid });
            } else {
                add_id(&mut self.shelved, vid);
                self.order(Effect::Shelve { vid });
            }
        }
    }

    /// Escape, in its fixed order.
    pub fn handle_escape(&mut self)
        ensures
            final(self)@ == old(self)@.escaped(),
    {
        if self.pointer_constraints.pointer_locked
            || self.pointer_constraints.confined_surface.is_some() {
            self.unlock_pointer();
            return;
        }
        if self.input.dnd_active {
            self.cancel_dnd_grab();
            return;
        }
        let mode = self.focus_manager.camera_mode;
        let in_workspace_overview = match mode {
            CameraMode::WorkspaceOverview => true,
            _ => false,
        };
        let in_overview = match mode {
            CameraMode::Overview => true,
            _ => false,
        };
        let in_focus = match mode {
            CameraMode::Focus(_) => true,
            _ => false,
        };
        match escape_chain(
            self.input.dragging.is_some(),
            in_workspace_overview,
            in_overview,
            in_focus,
        ) {
            EscapeAction::CancelDrag => {
                self.end_drag();
            },
            EscapeAction::ExitWorkspaceOverview => {
                self.exit_overview();
            },
            EscapeAction::ExitOverview => {
                self.exit_overview();
            },
            EscapeAction::ExitFocus => {
                self.exit_focus();
            },
            EscapeAction::ResetCamera => {
                self.reset_camera();
            },
        }
    }

    /// Carries out a command that a key is bound to.
    pub fn handle_binding(&mut self, b: Binding, views: &Views)
        requires
            old(self)@.wf(),
        ensures
            final(self)@ == old(self)@.commanded_to(b, *views),
            final(self)@.wf(),
    {
        match b {
            Binding::ToggleSpatial => {
                self.toggle_spatial(views);
            },
            Binding::ToggleFocus => {
                self.toggle_focus_mode(views.focused);
            },
            Binding::ToggleOverview => {
                self.toggle_overview(views.overview);
            },
            Binding::ToggleWorkspaceOverview => {
                self.toggle_workspace_overview();
            },
            Binding::WorkspaceNext => {
                self.next_workspace();
            },
            Binding::WorkspacePrev => {
                self.previous_workspace();
            },
            Binding::AppNext => {
                self.switch_app_focus(true);
            },
            Binding::AppPrev => {
                self.switch_app_focus(false);
            },
            Binding::DeEmphasize => {
                self.toggle_dimming();
            },
            Binding::FrameSelected => {
                self.frame_selected(views.selected);
            },
            Binding::FrameAll => {
                if !self.frame_all(views.all) {
                    self.reset_camera();
                }
            },
            Binding::ResetCamera => {
                self.reset_camera();
            },
            Binding::Escape => {
                self.handle_escape();
            },
            Binding::ToggleShelf => {
                self.shelf_visible = !self.shelf_visible;
            },
            Binding::SendToShelf => {
                self.toggle_shelving();
            },
            Binding::Launcher => {},
            Binding::CloseApp => {
                self.close_focused_app();
            },
            Binding::ToggleMaximize => {
                self.toggle_maximize_selected(MaximizeSource::Compositor);
            },
            Binding::ToggleFullscreen => {
                self.toggle_fullscreen_selected(FullscreenSource::Compositor);
            },
            Binding::MinimizeSelected => {
                self.minimize_selected(MinimizeSource::Compositor);
            },
            Binding::RestoreSelected => {
                self.restore_last_minimized(MinimizeSource::Compositor);
            },
            Binding::ReopenClosed => {
                self.order(Effect::ReopenClosed);
            },
            Binding::CycleVisuals => {
                self.cycle_visuals();
            },
            Binding::OpenContextMenu => {
                self.open_context_menu_on_focused(views.centre);
            },
            Binding::HelpOverlay => {
                self.shelf_visible = !self.shelf_visible;
            },
        }
    }

    fn handle_menu_key(&mut self, key: u32, views: &Views) -> (r: bool)
        requires
            old(self)@.wf(),
        ensures
            r == (old(self)@.menu_key(key, *views) is Some),
            r ==> Some(final(self)@) == old(self)@.menu_key(key, *views),
            !r ==> final(self)@ == old(self)@,
            final(self)@.wf(),
    {
        if key == UP {
            self.context_menu.select_prev();
        } else if key == DOWN {
            self.context_menu.select_next();
        } else if key == ENTER {
            if let Some(action) = self.context_menu.confirm_selection() {
                self.execute_menu_action(action, views);
            }
        } else {
            return false;
        }
        true
    }

    fn handle_shortcut(&mut self, key: u32, meaning: KeyMeaning, views: &Views) -> (r: bool)
        requires
            old(self)@.wf(),
        ensures
            r == (old(self)@.shortcut_key(key, meaning, *views) is Some),
            r ==> Some(final(self)@) == old(self)@.shortcut_key(key, meaning, *views),
            !r ==> final(self)@ == old(self)@,
            final(self)@.wf(),
    {
        if key == F1 {
            self.activate_workspace(0);
        } else if key == F2 {
            self.activate_workspace(1);
        } else if key == F3 {
            self.activate_workspace(2);
        } else {
            match meaning.binding {
                Some(b) => {
                    self.handle_binding(b, views);
                },
                None => {
                    return false;
                },
            }
        }
        true
    }

    fn use_bookmark(&mut self, slot: usize)
        ensures
            final(self)@ == old(self)@.bookmark_used(slot as int),
    {
        if self.scene.selected_id.is_some() {
            self.save_bookmark(slot);
        } else {
            self.restore_bookmark(slot);
        }
    }

    fn handle_plain_key(&mut self, key: u32, pressed: bool, meaning: KeyMeaning)
        ensures
            final(self)@ == old(self)@.plain_key(key, pressed, meaning),
            final(self)@.workspaces == old(self)@.workspaces,
    {
        if self.scene.focused_id.is_none() {
            self.order(Effect::CameraKey { key, pressed });
        }
        if pressed {
            if let Some(slot) = meaning.bookmark {
                self.use_bookmark(slot);
                return;
            }
        }
        self.route_keyboard(key, pressed);
    }

    fn handle_ordinary_key(
        &mut self,
        key: u32,
        pressed: bool,
        meaning: KeyMeaning,
        views: &Views,
    )
        requires
            old(self)@.wf(),
        ensures
            final(self)@ == old(self)@.ordinary_key(key, pressed, meaning, *views),
            final(self)@.wf(),
    {
        if pressed {
            if self.context_menu.visible {
                if self.handle_menu_key(key, views) {
                    return;
                }
            }
            if self.handle_shortcut(key, meaning, views) {
                return;
            }
        }
        self.handle_plain_key(key, pressed, meaning);
    }

    fn switch_by_tab(&mut self)
        requires
            old(self)@.wf(),
        ensures
            final(self)@ == old(self)@.tabbed(),
            final(self)@.wf(),
    {
        self.input.alt_tab_active = true;
        self.switch_app_focus(!self.input.shift_pressed);
    }

    fn takes(&self, key: u32, meaning: KeyMeaning) -> (r: bool)
        ensures
            r == self@.consumes(key, meaning),
    {
        modifier_of(key).is_none() && ((self.input.alt_pressed && key == TAB) || (
        self.context_menu.visible && (key == UP || key == DOWN || key == ENTER)) || key == F1
            || key == F2 || key == F3 || meaning.binding.is_some() || meaning.bookmark.is_some())
    }

    /// A key event of the seat. `meaning` is what the key is bound to with
    /// the modifiers held now.
    pub fn handle_key(
        &mut self,
        consumed: &mut ConsumedKeys,
        key: u32,
        pressed: bool,
        meaning: KeyMeaning,
        views: &Views,
    )
        requires
            old(self)@.wf(),
        ensures
            final(self)@ == old(self)@.key_handled(
                old(consumed)@,
                key,
                pressed,
                meaning,
                *views,
            ),
            final(self)@.wf(),
            final(consumed)@ == old(self)@.consumed_after(old(consumed)@, key, pressed, meaning),
    {
        if pressed {
            if self.takes(key, meaning) {
                consumed.press(key);
            }
        } else if consumed.release(key) {
            return;
        }
        if let Some(m) = modifier_of(key) {
            if self.holds(m) == pressed {
                return;
            }
            self.hold(m, pressed);
            self.wake(pressed);
            self.feed_keyboard_event(key, pressed);
            return;
        }
        self.wake(pressed);
        if self.input.alt_pressed && key == TAB && pressed {
            self.switch_by_tab();
            return;
        }
        self.handle_ordinary_key(key, pressed, meaning, views);
    }

    /// Gives up every interaction and camera mode.
    pub fn recover(&mut self)
        ensures
            final(self)@ == ({
                let m = old(self)@.drag_ended().dnd_cancelled();
                match m.focus_manager.camera_mode {
                    CameraMode::Focus(_) => m.focus_left(),
                    CameraMode::Overview | CameraMode::WorkspaceOverview => m.overview_left(),
                    CameraMode::Normal => m,
                }.camera_reset()
            }),
    {
        self.cancel_interaction();
        match self.focus_manager.camera_mode {
            CameraMode::Focus(_) => {
                self.exit_focus();
            },
            CameraMode::Overview | CameraMode::WorkspaceOverview => {
                self.exit_overview();
            },
            CameraMode::Normal => {},
        }
        self.reset_camera();
    }
}

/// An application that can be launched.
#[derive(Debug)]
pub struct LaunchEntry {
    pub app_id: String,
    pub name: String,
}

/// The entry relaunches the application.
pub open spec fn relaunches(e: LaunchEntry, app_id: Seq<char>) -> bool {
    crate::closed::entry_matches(app_id, e.app_id@, e.name@)
}

/// Position of the first entry that relaunches the application, or the
/// length.
pub open spec fn launch_index(s: Seq<LaunchEntry>, app_id: Seq<char>) -> int
    decreases s.len(),
{
    if s.len() == 0 || relaunches(s[0], app_id) {
        0
    } else {
        1 + launch_index(s.drop_first(), app_id)
    }
}

pub proof fn lemma_launch_index(s: Seq<LaunchEntry>, app_id: Seq<char>, i: int)
    requires
        0 <= i <= s.len(),
        forall|j: int| 0 <= j < i ==> !relaunches(#[trigger] s[j], app_id),
        i < s.len() ==> relaunches(s[i], app_id),
    ensures
        launch_index(s, app_id) == i,
    decreases s.len(),
{
    if i > 0 {
        assert(!relaunches(s[0], app_id));
        let rest = s.drop_first();
        assert forall|j: int| 0 <= j < i - 1 implies !relaunches(#[trigger] rest[j], app_id) by {
            assert(rest[j] == s[j + 1]);
        }
        lemma_launch_index(rest, app_id, i - 1);
    }
}

impl LookingGlass {
    /// Reopens the window that was closed last: the entry to launch, if
    /// one matches its application. Its pose and workspace wait for it.
    /// The window is no longer remembered as closed, whatever comes of it.
    pub fn reopen_last_closed(&mut self, entries: &Vec<LaunchEntry>) -> (r: Option<usize>)
        ensures
            match r {
                Some(i) => i == launch_index(
                    entries@,
                    old(self)@.closed.entries.last().app_id@,
                ) && i < entries@.len(),
                None => old(self)@.closed.entries.len() == 0 || launch_index(
                    entries@,
                    old(self)@.closed.entries.last().app_id@,
                ) == entries@.len(),
            },
            old(self)@.closed.entries.len() == 0 ==> r is None,
            final(self)@ == (GlassModel {
                closed: old(self)@.closed.taken(),
                pending_reopen: if r is Some {
                    let w = old(self)@.closed.entries.last();
                    Some(
                        PendingReopen {
                            app_id: w.app_id,
                            transform: w.transform,
                            workspace: w.workspace,
                        },
                    )
                } else {
                    old(self)@.pending_reopen
                },
                ..old(self)@
            }),
    {
        let entry = match self.closed_windows.take_most_recent() {
            Some(e) => e,
            None => {
                return None;
            },
        };
        let mut i: usize = 0;
        while i < entries.len()
            invariant
                i <= entries@.len(),
                self@ == (GlassModel { closed: old(self)@.closed.taken(), ..old(self)@ }),
                old(self)@.closed.entries.len() > 0,
                entry == old(self)@.closed.entries.last(),
                forall|j: int|
                    0 <= j < i ==> !relaunches(#[trigger] entries@[j], entry.app_id@),
            decreases entries@.len() - i,
        {
            let e = &entries[i];
            if app_id_matches_entry(entry.app_id.as_str(), e.app_id.as_str(), e.name.as_str()) {
                proof {
                    lemma_launch_index(entries@, entry.app_id@, i as int);
                }
                self.pending_reopen = Some(
                    PendingReopen {
                        app_id: entry.app_id,
                        transform: entry.transform,
                        workspace: entry.workspace,
                    },
                );
                return Some(i);
            }
            i = i + 1;
        }
        proof {
            lemma_launch_index(entries@, entry.app_id@, i as int);
        }
        None
    }

    /// The launch that a reopen asked for failed: nothing waits for it.
    pub fn reopen_failed(&mut self)
        ensures
            final(self)@ == (GlassModel { pending_reopen: None, ..old(self)@ }),
    {
        self.pending_reopen = None;
    }
}

} // verus!
