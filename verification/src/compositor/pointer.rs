//! The pointer: presses, releases, motion and scrolling.
//!
//! Geometry decides what lies under the pointer; it comes in with each
//! event as plain ids. What the event then means is decided here.
use vstd::prelude::*;

use crate::chrome::TitleButton;
use crate::compositor::focusing::is_window;
use crate::compositor::resizing::SizeLimits;
use crate::compositor::state::{
    next_serial_after, Effect, GlassModel, InputState, LookingGlass, PointerConstraints, SurfaceId,
};
use crate::context_menu::Coordinate;
use crate::focus::CameraMode;
use crate::id_list::contains_id;
use crate::input::Camera;
use crate::input_router::PointerEventKind;
use crate::keys::Modifier;
use crate::maximize::{MaximizeSource, MinimizeSource};
use crate::scene::{SceneModel, Transform3D, Vec3, Visual, VisualId};
use crate::table::key_of;

verus! {

/// What became of a pointer event routed to the selected visual.
#[derive(Debug, Clone, Copy, PartialEq, Eq, Structural)]
pub enum ContentRouting {
    Routed,
    TitleBarHit,
    NoTarget,
}

/// Where a pointer event meets the quad of the selected visual.
#[derive(Debug, Clone, Copy, PartialEq, Eq)]
pub struct ContentHit {
    /// The title-bar button under the pointer.
    pub button: Option<TitleButton>,
    /// The client's limits, when the pointer is on a resize border.
    pub border: Option<SizeLimits>,
    /// Whether the quad has an extent.
    pub drawn: bool,
    pub on_title: bool,
    /// Position on the content, each from zero to one.
    pub u: Coordinate,
    pub v: Coordinate,
}

/// What is under the pointer in the shown workspace.
#[derive(Debug, Clone, Copy, PartialEq, Eq, Structural)]
pub struct Under {
    /// The visual that the pointer is over.
    pub picked: Option<VisualId>,
    /// Whether it is over its content, not its title bar.
    pub on_content: bool,
}

/// A pointer constraint that its client asked for.
#[derive(Debug, Clone, Copy, PartialEq, Eq, Structural)]
pub enum ConstraintKind {
    Locked,
    Confined,
}

/// A taskbar item.
#[derive(Debug, Clone, Copy, PartialEq, Eq, Structural)]
pub enum TaskbarHit {
    Window(VisualId),
    Workspace(usize),
    Launch(usize),
}

/// A press of the pointer button.
#[derive(Debug, Clone, Copy)]
pub struct PointerPress {
    /// The taskbar item under the pointer, if it is over one.
    pub taskbar: Option<TaskbarHit>,
    pub under: Under,
    /// The visual the press selects.
    pub grasped: Option<VisualId>,
    /// Whether it drags the visual, because a modifier says so.
    pub drags: bool,
    /// Where it meets the visual it selects.
    pub hit: Option<ContentHit>,
    /// The camera that frames the visual it selects.
    pub framing: Camera,
}

/// A motion of the pointer.
#[derive(Debug, Clone, Copy)]
pub struct PointerMove {
    pub under: Under,
    /// The constraint that the surface under the pointer waits for.
    pub pending: Option<ConstraintKind>,
    /// What the motion makes of a resize: size and position.
    pub resize: Option<((i32, i32), Vec3)>,
    /// The pose a dragged visual gets.
    pub dragged: Option<Transform3D>,
}

impl GlassModel {
    /// The visual and surface a pointer event is for, if it is over the
    /// content of a live client surface.
    pub open spec fn pointer_target(self, under: Under) -> Option<(VisualId, SurfaceId)> {
        match under.picked {
            Some(vid) if self.scene.is_active(vid) && under.on_content => match self.surface_of(
                vid,
            ) {
                Some(s) => Some((vid, s)),
                None => None,
            },
            _ => None,
        }
    }

    /// The surface a pointer event is for.
    pub open spec fn pointer_surface(self, under: Under) -> Option<SurfaceId> {
        match self.pointer_target(under) {
            Some((_, s)) => Some(s),
            None => None,
        }
    }

    /// The pointer over a surface, or over none, from here on.
    pub open spec fn pointing(self, surface: Option<SurfaceId>) -> GlassModel {
        GlassModel { input: InputState { last_wayland_focus: surface, ..self.input }, ..self }
    }

    /// What a title-bar button does.
    pub open spec fn button_pressed(self, vid: VisualId, button: TitleButton) -> GlassModel {
        match button {
            TitleButton::Minimize => self.minimize_begun(vid),
            TitleButton::Maximize => self.maximize_toggled(vid, MaximizeSource::Compositor),
            TitleButton::Close => self.close_asked(vid),
        }
    }

    /// A press on the border of this visual starts a resize.
    pub open spec fn border_grabbed(self, vid: VisualId, hit: ContentHit) -> bool {
        hit.border is Some && is_window(self.toplevels, vid) && self.session_permitted(
            vid,
            hit.drawn,
        )
    }

    /// The focused visual in front.
    pub open spec fn put_forward(self, vid: VisualId) -> GlassModel {
        self.keyboard_focused(Some(vid)).ordering(Effect::BringToFront { vid })
    }

    /// An event on the content delivered to the surface of the visual,
    /// or else to its sink.
    pub open spec fn content_sent(
        self,
        vid: VisualId,
        kind: PointerEventKind,
        hit: ContentHit,
    ) -> (GlassModel, ContentRouting) {
        let serial = next_serial_after(self.input.event_serial);
        match self.surface_of(vid) {
            Some(s) => {
                let m = self.with_serial(serial);
                let n = match kind {
                    PointerEventKind::Motion => m.pointing(Some(s)).ordering(
                        Effect::PointerMotion { surface: Some(s), serial },
                    ),
                    PointerEventKind::Down => m.pointing(Some(s)).ordering(
                        Effect::PointerButton { surface: Some(s), pressed: true, serial },
                    ),
                    PointerEventKind::Up => m.pointing(Some(s)).ordering(
                        Effect::PointerButton { surface: Some(s), pressed: false, serial },
                    ),
                    PointerEventKind::Scroll(_, _) => m,
                };
                (n, ContentRouting::Routed)
            },
            None => if self.sinks.contains(vid) {
                (
                    self.ordering(Effect::SinkPointer { vid, kind, u: hit.u, v: hit.v }),
                    ContentRouting::Routed,
                )
            } else {
                (self, ContentRouting::NoTarget)
            },
        }
    }

    /// An event that is neither on a button nor on a border.
    pub open spec fn inner_routed(
        self,
        vid: VisualId,
        kind: PointerEventKind,
        hit: ContentHit,
    ) -> (GlassModel, ContentRouting) {
        if hit.on_title {
            (self, ContentRouting::TitleBarHit)
        } else {
            self.content_sent(vid, kind, hit)
        }
    }

    /// A press on the selected visual: a button first, then focus, then
    /// the border, then title bar or content.
    pub open spec fn press_routed(self, vid: VisualId, hit: ContentHit) -> (
        GlassModel,
        ContentRouting,
    ) {
        match hit.button {
            Some(b) => (self.button_pressed(vid, b), ContentRouting::Routed),
            None => {
                let m = self.put_forward(vid);
                if m.border_grabbed(vid, hit) {
                    (m.session_begun(vid, hit.border.unwrap()), ContentRouting::Routed)
                } else {
                    m.inner_routed(vid, PointerEventKind::Down, hit)
                }
            },
        }
    }

    /// An event routed to the selected visual.
    pub open spec fn content_routed(self, kind: PointerEventKind, hit: Option<ContentHit>) -> (
        GlassModel,
        ContentRouting,
    ) {
        match (self.scene.selected_id, hit) {
            (Some(vid), Some(h)) if self.scene.is_active(vid) => if kind
                == PointerEventKind::Down {
                self.press_routed(vid, h)
            } else {
                self.inner_routed(vid, kind, h)
            },
            _ => (self, ContentRouting::NoTarget),
        }
    }

    /// The visual selected, in front and focused.
    pub open spec fn selected_forward(self, vid: VisualId) -> GlassModel {
        GlassModel { scene: self.scene.selected(Some(vid)), ..self }.ordering(
            Effect::BringToFront { vid },
        ).keyboard_focused(Some(vid))
    }

    /// A window of the taskbar activated or restored, on whatever
    /// workspace it is. A taskbar click never minimizes.
    pub open spec fn window_activated(self, vid: VisualId) -> GlassModel {
        if self.minimized(vid) {
            self.minimize_restored(vid)
        } else {
            let m = self.brought_into_view(vid);
            if m.scene.focused_id == Some(vid) {
                m
            } else {
                m.selected_forward(vid)
            }
        }
    }

    /// A click on a taskbar item.
    pub open spec fn taskbar_clicked(self, item: TaskbarHit) -> GlassModel {
        match item {
            TaskbarHit::Window(vid) => self.window_activated(vid),
            TaskbarHit::Workspace(i) => if i != self.workspaces.active {
                self.switched(i as int)
            } else {
                self
            },
            TaskbarHit::Launch(i) => self.ordering(Effect::Launch { index: i }),
        }
    }

    /// The event counted.
    pub open spec fn event_counted(self) -> GlassModel {
        self.with_serial(next_serial_after(self.input.event_serial))
    }

    /// A button event during a client drag-and-drop, for the surface
    /// under the pointer.
    pub open spec fn dnd_button(self, under: Under, pressed: bool) -> GlassModel {
        let serial = next_serial_after(self.input.event_serial);
        self.with_serial(serial).ordering(
            Effect::PointerButton { surface: self.pointer_surface(under), pressed, serial },
        )
    }

    /// The press selects a visual, and drags it if the modifiers say so.
    pub open spec fn grasping(self, press: PointerPress) -> GlassModel {
        GlassModel {
            scene: self.scene.selected(press.grasped),
            input: InputState {
                dragging: if press.drags {
                    press.grasped
                } else {
                    None
                },
                ..self.input
            },
            ..self
        }
    }

    /// A selection from another workspace given up.
    pub open spec fn selection_checked(self) -> GlassModel {
        match self.scene.selected_id {
            Some(vid) if !self.workspaces.current().visual_ids.contains(vid) => GlassModel {
                scene: self.scene.selected(None).focused(None),
                ..self
            },
            _ => self,
        }
    }

    /// In the overview of the workspaces a click on a visual goes to it:
    /// the overview is left, and the camera glides to the workspace.
    pub open spec fn travelled(self) -> GlassModel {
        match self.scene.selected_id {
            Some(vid) => match self.workspaces.home(vid) {
                Some(i) => self.overview_left().switched(i as int).keyboard_focused(Some(vid)),
                None => self,
            },
            None => self,
        }
    }

    /// The press remembered as having been on the selected visual.
    pub open spec fn down_noted(self) -> GlassModel {
        GlassModel {
            input: InputState { last_down_vid: self.scene.selected_id, ..self.input },
            ..self
        }
    }

    /// The selected visual dragged by its title bar.
    pub open spec fn title_dragged(self) -> GlassModel {
        match self.scene.selected_id {
            Some(vid) => GlassModel {
                input: InputState { dragging: Some(vid), ..self.input },
                ..self
            }.ordering(Effect::StartDrag { vid }),
            None => self,
        }
    }

    /// A press routed to the selected visual; its title bar drags it.
    pub open spec fn content_pressed(self, hit: Option<ContentHit>) -> GlassModel {
        let routed = self.content_routed(PointerEventKind::Down, hit);
        if routed.1 == ContentRouting::TitleBarHit {
            routed.0.title_dragged()
        } else {
            routed.0
        }
    }

    /// A press in the normal view: the modifiers drag, the title bar
    /// drags, and anything else is the window's.
    pub open spec fn pressed_normally(self, press: PointerPress) -> GlassModel {
        let m = self.selection_checked().down_noted();
        let n = if press.drags {
            m
        } else {
            m.content_pressed(press.hit)
        };
        n.ordering(Effect::FlushClients)
    }

    /// A press on the scene, as the camera mode has it.
    pub open spec fn scene_pressed(self, press: PointerPress) -> GlassModel {
        let m = self.grasping(press);
        match m.focus_manager.camera_mode {
            CameraMode::Overview => match m.scene.selected_id {
                Some(vid) => m.focus_entered(vid, press.framing),
                None => m,
            },
            CameraMode::WorkspaceOverview => m.travelled(),
            _ => m.pressed_normally(press),
        }
    }

    /// A press of the pointer button.
    pub open spec fn pointer_pressed(self, press: PointerPress) -> GlassModel {
        let m = self.event_counted();
        match press.taskbar {
            Some(item) => m.taskbar_clicked(item).ordering(Effect::ScheduleRender),
            None => if m.input.dnd_active {
                m.dnd_button(press.under, true).ordering(Effect::FlushClients)
            } else {
                m.scene_pressed(press)
            },
        }
    }

    /// A release of the pointer button: it ends a resize, or a client's
    /// drag-and-drop, or a drag, or is the window's.
    pub open spec fn pointer_released(self, under: Under, hit: Option<ContentHit>) -> GlassModel {
        let m = self.event_counted();
        let m = GlassModel { input: InputState { last_down_vid: None, ..m.input }, ..m };
        if m.resize_session is Some {
            m.session_finished().ordering(Effect::ScheduleRender)
        } else if m.input.dnd_active {
            let n = m.dnd_button(under, false);
            let n = if m.pointer_surface(under) is None {
                n.pointing(None)
            } else {
                n
            };
            n.ordering(Effect::ScheduleRender).ordering(Effect::FlushClients)
        } else if m.input.dragging is Some {
            m.drag_ended().ordering(Effect::FlushClients)
        } else {
            m.content_routed(PointerEventKind::Up, hit).0.ordering(Effect::FlushClients)
        }
    }

    /// A constraint that was waiting for the pointer to come.
    pub open spec fn constraint_activated(
        self,
        surface: SurfaceId,
        pending: Option<ConstraintKind>,
    ) -> GlassModel {
        match pending {
            Some(ConstraintKind::Locked) => GlassModel {
                constraints: PointerConstraints {
                    pointer_locked: true,
                    locked_surface: Some(surface),
                    ..self.constraints
                },
                ..self
            }.ordering(Effect::ActivateConstraint { surface }),
            Some(ConstraintKind::Confined) => GlassModel {
                constraints: PointerConstraints {
                    confined_surface: Some(surface),
                    ..self.constraints
                },
                ..self
            }.ordering(Effect::ActivateConstraint { surface }),
            None => self,
        }
    }

    /// The pointer over something without a button held. Leaving every
    /// surface is told once.
    pub open spec fn hovered(self, under: Under, pending: Option<ConstraintKind>) -> GlassModel {
        let serial = next_serial_after(self.input.event_serial);
        match self.pointer_target(under) {
            Some((vid, s)) => GlassModel {
                scene: SceneModel { hovered_id: Some(vid), ..self.scene },
                ..self
            }.pointing(Some(s)).with_serial(serial).ordering(
                Effect::PointerMotion { surface: Some(s), serial },
            ).constraint_activated(s, pending),
            None => {
                let m = GlassModel {
                    scene: SceneModel { hovered_id: None, ..self.scene },
                    ..self
                };
                if self.input.last_wayland_focus is Some {
                    m.pointing(None).with_serial(serial).ordering(
                        Effect::PointerMotion { surface: None, serial },
                    )
                } else {
                    m
                }
            },
        }
    }

    /// A motion while a client holds the pointer locked.
    pub open spec fn locked_moved(self) -> GlassModel {
        let serial = next_serial_after(self.input.event_serial);
        match self.constraints.locked_surface {
            Some(s) => self.with_serial(serial).ordering(
                Effect::LockedMotion { surface: s, serial },
            ),
            None => self,
        }
    }

    /// A motion while a client holds the pointer confined to a surface.
    pub open spec fn confined_moved(self, surface: SurfaceId) -> GlassModel {
        let serial = next_serial_after(self.input.event_serial);
        match key_of(self.surfaces, surface) {
            Some(k) if self.scene.has(VisualId(k)) => self.with_serial(serial).ordering(
                Effect::ConfinedMotion { surface, serial },
            ),
            _ => self,
        }
    }

    /// A motion that may move a dragged visual, or else hovers.
    pub open spec fn freely_moved(self, motion: PointerMove) -> GlassModel {
        match self.input.dragging {
            Some(vid) => match motion.dragged {
                Some(t) => GlassModel { scene: self.scene.posed(vid, t), ..self },
                None => self,
            },
            None => self.hovered(motion.under, motion.pending),
        }
    }

    /// A motion of the pointer. Constraints come first, then the camera
    /// buttons, then a client's drag-and-drop, a resize, a drag, and
    /// last hovering. A button held over content is the application's.
    pub open spec fn pointer_moved(self, motion: PointerMove) -> GlassModel {
        if self.constraints.pointer_locked {
            self.locked_moved()
        } else if self.constraints.confined_surface is Some {
            self.confined_moved(self.constraints.confined_surface.unwrap())
        } else if self.input.nav_button == 3 {
            self.orbit_stopped().ordering(Effect::OrbitCamera)
        } else if self.input.nav_button == 2 {
            self.orbit_stopped().ordering(Effect::PanCamera)
        } else if self.input.dnd_active {
            self.hovered(motion.under, motion.pending).ordering(Effect::ScheduleRender)
        } else if self.resize_session is Some {
            let m = match motion.resize {
                Some((size, position)) => self.session_updated(size, position),
                None => self,
            };
            m.ordering(Effect::ScheduleRender)
        } else {
            self.freely_moved(motion)
        }
    }

    /// Scrolling over a surface is its own; elsewhere it zooms.
    pub open spec fn scrolled(self, under: Under, horizontal: bool) -> GlassModel {
        let serial = next_serial_after(self.input.event_serial);
        match self.pointer_surface(under) {
            Some(s) => self.pointing(Some(s)).with_serial(serial).ordering(
                Effect::PointerMotion { surface: Some(s), serial },
            ).ordering(Effect::PointerAxis { surface: s }),
            None => self.ordering(Effect::ZoomCamera { horizontal }),
        }
    }
}

/// Visuals that a dragged one may snap to.
pub open spec fn snaps(
    vid: VisualId,
    detached: Seq<VisualId>,
    shown: Seq<VisualId>,
) -> spec_fn(Visual) -> bool {
    |v: Visual| v.id != vid && !detached.contains(v.id) && shown.contains(v.id)
}

/// Visuals that can be picked.
pub open spec fn visible_in(scene: SceneModel) -> spec_fn(VisualId) -> bool {
    |v: VisualId| scene.is_visible(v)
}

impl LookingGlass {
    /// Whether the modifiers held make a press on a window a drag of it:
    /// Alt or Meta do.
    pub fn moves_windows(&self) -> (r: bool)
        ensures
            r == (self@.held(Modifier::Alt) || self@.held(Modifier::Meta)),
    {
        self.input.alt_pressed || self.input.meta_pressed
    }

    /// The visual and surface a pointer event is for, if it is over the
    /// content of a live client surface.
    pub fn pick_wayland_target(&self, under: Under) -> (r: Option<(VisualId, SurfaceId)>)
        ensures
            r == self@.pointer_target(under),
    {
        match under.picked {
            Some(vid) => if self.scene.is_active(vid) && under.on_content {
                match self.surface_of(vid) {
                    Some(s) => Some((vid, s)),
                    None => None,
                }
            } else {
                None
            },
            None => None,
        }
    }

    fn pointer_surface(&self, under: Under) -> (r: Option<SurfaceId>)
        ensures
            r == self@.pointer_surface(under),
    {
        match self.pick_wayland_target(under) {
            Some((_, s)) => Some(s),
            None => None,
        }
    }

    /// The visuals of the shown workspace that can be picked.
    pub fn pickable(&self) -> (r: Vec<VisualId>)
        requires
            self@.wf(),
        ensures
            r@ == self@.workspaces.current().visual_ids.filter(visible_in(self@.scene)),
    {
        let ids = &self.workspace_manager.active().visual_ids;
        let ghost s = ids@;
        let ghost p = visible_in(self@.scene);
        let mut kept: Vec<VisualId> = Vec::new();
        let mut i: usize = 0;
        while i < ids.len()
            invariant
                i <= ids@.len(),
                s == ids@,
                p == visible_in(self@.scene),
                kept@ == s.take(i as int).filter(p),
            decreases ids@.len() - i,
        {
            let v = ids[i];
            proof {
                reveal(Seq::filter);
                assert(s.take(i + 1).drop_last() =~= s.take(i as int));
                assert(s.take(i + 1).last() == v);
            }
            if self.scene.is_visible(v) {
                kept.push(v);
            }
            i = i + 1;
        }
        assert(s.take(i as int) =~= s);
        kept
    }

    /// The visuals a dragged one may snap to: the others of the shown
    /// workspace that are not detached.
    pub fn snap_anchors(&self, vid: VisualId) -> (r: Vec<Visual>)
        requires
            self@.wf(),
        ensures
            r@ == self@.scene.visuals.filter(
                snaps(vid, self@.scene.detached_set, self@.workspaces.current().visual_ids),
            ),
    {
        let ids = &self.workspace_manager.active().visual_ids;
        let ghost s = self.scene.visuals@;
        let ghost p = snaps(vid, self@.scene.detached_set, self@.workspaces.current().visual_ids);
        let mut kept: Vec<Visual> = Vec::new();
        let mut i: usize = 0;
        while i < self.scene.visuals.len()
            invariant
                i <= self.scene.visuals@.len(),
                s == self.scene.visuals@,
                ids@ == self@.workspaces.current().visual_ids,
                p == snaps(
                    vid,
                    self@.scene.detached_set,
                    self@.workspaces.current().visual_ids,
                ),
                kept@ == s.take(i as int).filter(p),
            decreases self.scene.visuals@.len() - i,
        {
            let v = self.scene.visuals[i];
            proof {
                reveal(Seq::filter);
                assert(s.take(i + 1).drop_last() =~= s.take(i as int));
                assert(s.take(i + 1).last() == v);
            }
            if v.id != vid && !contains_id(&self.scene.detached_set, v.id) && contains_id(
                ids,
                v.id,
            ) {
                kept.push(v);
            }
            i = i + 1;
        }
        assert(s.take(i as int) =~= s);
        kept
    }

    fn press_button(&mut self, vid: VisualId, button: TitleButton)
        requires
            old(self)@.wf(),
        ensures
            final(self)@ == old(self)@.button_pressed(vid, button),
            final(self)@.wf(),
    {
        match button {
            TitleButton::Minimize => {
                self.begin_minimize(vid, MinimizeSource::Compositor);
            },
            TitleButton::Maximize => {
                self.toggle_maximize_for(vid, MaximizeSource::Compositor);
            },
            TitleButton::Close => {
                self.ask_to_close(vid);
            },
        }
    }

    fn send_to_content(&mut self, vid: VisualId, kind: PointerEventKind, hit: &ContentHit) -> (r:
        ContentRouting)
        ensures
            (final(self)@, r) == old(self)@.content_sent(vid, kind, *hit),
            final(self)@.workspaces == old(self)@.workspaces,
    {
        match self.surface_of(vid) {
            Some(s) => {
                let serial: u32 = self.next_serial();
                match kind {
                    PointerEventKind::Motion => {
                        self.input.last_wayland_focus = Some(s);
                        self.order(Effect::PointerMotion { surface: Some(s), serial });
                    },
                    PointerEventKind::Down => {
                        self.input.last_wayland_focus = Some(s);
                        self.order(
                            Effect::PointerButton { surface: Some(s), pressed: true, serial },
                        );
                    },
                    PointerEventKind::Up => {
                        self.input.last_wayland_focus = Some(s);
                        self.order(
                            Effect::PointerButton { surface: Some(s), pressed: false, serial },
                        );
                    },
                    PointerEventKind::Scroll(_, _) => {},
                }
                ContentRouting::Routed
            },
            None => {
                if contains_id(&self.input_sinks, vid) {
                    self.order(Effect::SinkPointer { vid, kind, u: hit.u, v: hit.v });
                    ContentRouting::Routed
                } else {
                    ContentRouting::NoTarget
                }
            },
        }
    }

    fn route_inside(&mut self, vid: VisualId, kind: PointerEventKind, hit: &ContentHit) -> (r:
        ContentRouting)
        ensures
            (final(self)@, r) == old(self)@.inner_routed(vid, kind, *hit),
            final(self)@.workspaces == old(self)@.workspaces,
    {
        if hit.on_title {
            ContentRouting::TitleBarHit
        } else {
            self.send_to_content(vid, kind, hit)
        }
    }

    fn put_forward(&mut self, vid: VisualId)
        ensures
            final(self)@ == old(self)@.put_forward(vid),
            final(self)@.workspaces == old(self)@.workspaces,
    {
        self.set_keyboard_focus(Some(vid));
        self.order(Effect::BringToFront { vid });
    }

    fn grab_border(&mut self, vid: VisualId, hit: &ContentHit) -> (r: bool)
        ensures
            r == old(self)@.border_grabbed(vid, *hit),
            final(self)@ == if r {
                old(self)@.session_begun(vid, hit.border.unwrap())
            } else {
                old(self)@
            },
    {
        match hit.border {
            Some(limits) => if self.window_position(vid).is_some() {
                self.begin_resize_session(vid, limits, hit.drawn)
            } else {
                false
            },
            None => false,
        }
    }

    fn route_press(&mut self, vid: VisualId, hit: &ContentHit) -> (r: ContentRouting)
        requires
            old(self)@.wf(),
        ensures
            (final(self)@, r) == old(self)@.press_routed(vid, *hit),
            final(self)@.wf(),
    {
        if let Some(b) = hit.button {
            self.press_button(vid, b);
            return ContentRouting::Routed;
        }
        self.put_forward(vid);
        if self.grab_border(vid, hit) {
            return ContentRouting::Routed;
        }
        self.route_inside(vid, PointerEventKind::Down, hit)
    }

    /// Routes a pointer event to the selected visual; `hit` is where it
    /// meets its quad. A press takes focus, except on a title-bar
    /// button. A title-bar hit is left to the caller.
    pub fn route_to_content(&mut self, kind: PointerEventKind, hit: Option<ContentHit>) -> (r:
        ContentRouting)
        requires
            old(self)@.wf(),
        ensures
            (final(self)@, r) == old(self)@.content_routed(kind, hit),
            final(self)@.wf(),
    {
        let vid = match self.scene.selected_id {
            Some(v) => v,
            None => {
                return ContentRouting::NoTarget;
            },
        };
        if !self.scene.is_active(vid) {
            return ContentRouting::NoTarget;
        }
        match hit {
            Some(h) => match kind {
                PointerEventKind::Down => self.route_press(vid, &h),
                _ => self.route_inside(vid, kind, &h),
            },
            None => ContentRouting::NoTarget,
        }
    }

    fn activate_window(&mut self, vid: VisualId)
        requires
            old(self)@.wf(),
        ensures
            final(self)@ == old(self)@.window_activated(vid),
            final(self)@.wf(),
    {
        if self.is_minimized(vid) {
            self.restore_minimized(vid, MinimizeSource::Compositor);
            return;
        }
        self.bring_into_view(vid);
        if self.scene.focused_id != Some(vid) {
            self.select_forward(vid);
        }
    }

    fn select_forward(&mut self, vid: VisualId)
        ensures
            final(self)@ == old(self)@.selected_forward(vid),
            final(self)@.workspaces == old(self)@.workspaces,
    {
        self.scene.select(Some(vid));
        self.order(Effect::BringToFront { vid });
        self.set_keyboard_focus(Some(vid));
    }

    /// A click on a taskbar item.
    pub fn handle_taskbar_click(&mut self, item: TaskbarHit)
        requires
            old(self)@.wf(),
        ensures
            final(self)@ == old(self)@.taskbar_clicked(item),
            final(self)@.wf(),
    {
        match item {
            TaskbarHit::Window(vid) => {
                self.activate_window(vid);
            },
            TaskbarHit::Workspace(i) => {
                if i != self.workspace_manager.active_id() {
                    self.switch_workspace(i);
                }
            },
            TaskbarHit::Launch(i) => {
                self.order(Effect::Launch { index: i });
            },
        }
    }

    fn dnd_button(&mut self, under: Under, pressed: bool)
        ensures
            final(self)@ == old(self)@.dnd_button(under, pressed),
    {
        let surface = self.pointer_surface(under);
        let serial: u32 = self.next_serial();
        self.order(Effect::PointerButton { surface, pressed, serial });
    }

    fn grasp(&mut self, press: &PointerPress)
        ensures
            final(self)@ == old(self)@.grasping(*press),
    {
        self.scene.select(press.grasped);
        self.input.dragging = if press.drags {
            press.grasped
        } else {
            None
        };
    }

    fn travel(&mut self)
        requires
            old(self)@.wf(),
        ensures
            final(self)@ == old(self)@.travelled(),
            final(self)@.wf(),
    {
        if let Some(vid) = self.scene.selected_id {
            if let Some(i) = self.workspace_for_visual(vid) {
                self.exit_overview();
                self.switch_workspace(i);
                self.set_keyboard_focus(Some(vid));
            }
        }
    }

    fn check_selection(&mut self)
        requires
            old(self)@.wf(),
        ensures
            final(self)@ == old(self)@.selection_checked(),
            final(self)@.wf(),
    {
        if let Some(vid) = self.scene.selected_id {
            if !self.workspace_manager.active().contains(vid) {
                self.scene.select(None);
                self.scene.focus(None);
            }
        }
    }

    fn press_normally(&mut self, press: &PointerPress)
        requires
            old(self)@.wf(),
        ensures
            final(self)@ == old(self)@.pressed_normally(*press),
            final(self)@.wf(),
    {
        self.check_selection();
        self.input.last_down_vid = self.scene.selected_id;
        if !press.drags {
            self.press_content(press.hit);
        }
        self.order(Effect::FlushClients);
    }

    fn drag_title(&mut self)
        ensures
            final(self)@ == old(self)@.title_dragged(),
            final(self)@.workspaces == old(self)@.workspaces,
    {
        if let Some(vid) = self.scene.selected_id {
            self.input.dragging = Some(vid);
            self.order(Effect::StartDrag { vid });
        }
    }

    fn press_content(&mut self, hit: Option<ContentHit>)
        requires
            old(self)@.wf(),
        ensures
            final(self)@ == old(self)@.content_pressed(hit),
            final(self)@.wf(),
    {
        let routing = self.route_to_content(PointerEventKind::Down, hit);
        if let ContentRouting::TitleBarHit = routing {
            self.drag_title();
        }
    }

    fn press_scene(&mut self, press: &PointerPress)
        requires
            old(self)@.wf(),
        ensures
            final(self)@ == old(self)@.scene_pressed(*press),
            final(self)@.wf(),
    {
        self.grasp(press);
        match self.focus_manager.camera_mode {
            CameraMode::Overview => {
                if let Some(vid) = self.scene.selected_id {
                    self.enter_focus(vid, press.framing);
                }
            },
            CameraMode::WorkspaceOverview => {
                self.travel();
            },
            _ => {
                self.press_normally(press);
            },
        }
    }

    /// A press of the pointer button.
    pub fn handle_pointer_down(&mut self, press: &PointerPress)
        requires
            old(self)@.wf(),
        ensures
            final(self)@ == old(self)@.pointer_pressed(*press),
            final(self)@.wf(),
    {
        self.next_serial();
        if let Some(item) = press.taskbar {
            self.handle_taskbar_click(item);
            self.schedule_render();
            return;
        }
        if self.input.dnd_active {
            self.dnd_button(press.under, true);
            self.order(Effect::FlushClients);
            return;
        }
        self.press_scene(press);
    }

    /// A release of the pointer button.
    pub fn handle_pointer_up(&mut self, under: Under, hit: Option<ContentHit>)
        requires
            old(self)@.wf(),
        ensures
            final(self)@ == old(self)@.pointer_released(under, hit),
            final(self)@.wf(),
    {
        self.next_serial();
        self.input.last_down_vid = None;
        if self.finish_resize_session() {
            self.schedule_render();
            return;
        }
        if self.input.dnd_active {
            let nowhere = self.pointer_surface(under).is_none();
            self.dnd_button(under, false);
            if nowhere {
                self.input.last_wayland_focus = None;
            }
            self.schedule_render();
            self.order(Effect::FlushClients);
            return;
        }
        if self.input.dragging.is_some() {
            self.end_drag();
        } else {
            self.route_to_content(PointerEventKind::Up, hit);
        }
        self.order(Effect::FlushClients);
    }

    /// Activates the constraint of a surface that the pointer entered.
    /// One asked for without the pointer stays inactive until then.
    pub fn activate_constraints_for_focus(
        &mut self,
        surface: SurfaceId,
        pending: Option<ConstraintKind>,
    )
        ensures
            final(self)@ == old(self)@.constraint_activated(surface, pending),
    {
        match pending {
            Some(ConstraintKind::Locked) => {
                self.pointer_constraints.pointer_locked = true;
                self.pointer_constraints.locked_surface = Some(surface);
                self.order(Effect::ActivateConstraint { surface });
            },
            Some(ConstraintKind::Confined) => {
                self.pointer_constraints.confined_surface = Some(surface);
                self.order(Effect::ActivateConstraint { surface });
            },
            None => {},
        }
    }

    /// Moves pointer focus to what is under the pointer.
    pub fn route_hover(&mut self, under: Under, pending: Option<ConstraintKind>)
        ensures
            final(self)@ == old(self)@.hovered(under, pending),
    {
        match self.pick_wayland_target(under) {
            Some((vid, s)) => {
                self.scene.hovered_id = Some(vid);
                self.input.last_wayland_focus = Some(s);
                let serial: u32 = self.next_serial();
                self.order(Effect::PointerMotion { surface: Some(s), serial });
                self.activate_constraints_for_focus(s, pending);
            },
            None => {
                self.scene.hovered_id = None;
                if self.input.last_wayland_focus.is_some() {
                    self.input.last_wayland_focus = None;
                    let serial: u32 = self.next_serial();
                    self.order(Effect::PointerMotion { surface: None, serial });
                }
            },
        }
    }

    fn move_locked(&mut self)
        ensures
            final(self)@ == old(self)@.locked_moved(),
    {
        if let Some(s) = self.pointer_constraints.locked_surface {
            let serial: u32 = self.next_serial();
            self.order(Effect::LockedMotion { surface: s, serial });
        }
    }

    fn move_confined(&mut self, surface: SurfaceId)
        ensures
            final(self)@ == old(self)@.confined_moved(surface),
    {
        if let Some(k) = self.wayland_surfaces.find(surface) {
            if self.scene.position(VisualId(k)).is_some() {
                let serial: u32 = self.next_serial();
                self.order(Effect::ConfinedMotion { surface, serial });
            }
        }
    }

    fn move_freely(&mut self, motion: &PointerMove)
        ensures
            final(self)@ == old(self)@.freely_moved(*motion),
    {
        match self.input.dragging {
            Some(vid) => {
                if let Some(t) = motion.dragged {
                    self.scene.set_transform(vid, t);
                }
            },
            None => {
                self.route_hover(motion.under, motion.pending);
            },
        }
    }

    /// A motion of the pointer.
    pub fn handle_pointer_move(&mut self, motion: &PointerMove)
        requires
            old(self)@.wf(),
        ensures
            final(self)@ == old(self)@.pointer_moved(*motion),
            final(self)@.wf(),
    {
        if self.pointer_constraints.pointer_locked {
            self.move_locked();
            return;
        }
        if let Some(surface) = self.pointer_constraints.confined_surface {
            self.move_confined(surface);
            return;
        }
        if self.input.nav_button == 3 {
            self.workspace_manager.set_auto_orbit(false);
            self.order(Effect::OrbitCamera);
            return;
        }
        if self.input.nav_button == 2 {
            self.workspace_manager.set_auto_orbit(false);
            self.order(Effect::PanCamera);
            return;
        }
        if self.input.dnd_active {
            self.route_hover(motion.under, motion.pending);
            self.schedule_render();
            return;
        }
        if self.resize_session.is_some() {
            if let Some((size, position)) = motion.resize {
                self.update_resize_session(size, position);
            }
            self.schedule_render();
            return;
        }
        self.move_freely(motion);
    }

    /// Scrolling; `horizontal` says which way it goes more.
    pub fn handle_axis(&mut self, under: Under, horizontal: bool)
        ensures
            final(self)@ == old(self)@.scrolled(under, horizontal),
    {
        match self.pointer_surface(under) {
            Some(s) => {
                self.input.last_wayland_focus = Some(s);
                let serial: u32 = self.next_serial();
                self.order(Effect::PointerMotion { surface: Some(s), serial });
                self.order(Effect::PointerAxis { surface: s });
            },
            None => {
                self.order(Effect::ZoomCamera { horizontal });
            },
        }
    }
}

} // verus!
