//! Surface commits: mapping windows, popups and subsurfaces, and adopting
//! what clients committed.
use vstd::prelude::*;

use crate::app_switcher::registered;
use crate::client_resize::{commit_outcome, requests_after_commit, CommitOutcome};
use crate::closed::PendingReopen;
use crate::compositor::damage::{
    crop, logical_geometry_from_buffer, logical_size, SourceUv, ViewportSource,
};
use crate::compositor::focusing::{is_x11, surface_index};
use crate::compositor::lifecycle::{popup_index, x11_index};
use crate::compositor::state::{
    Effect, GlassModel, LookingGlass, PopupInfo, SavedVisual, SurfaceId, SurfaceLifecycle,
    ToplevelInfo, X11Window,
};
use crate::id_list::with_member;
use crate::scene::{
    identity_transform, Quat, SceneModel, Transform3D, Vec3, Visual, VisualId, WindowState,
};
use crate::table::{bound, dropped, key_of, value_of};

verus! {

/// What a surface is used for.
#[derive(Debug, Clone, Copy, PartialEq, Eq, Structural)]
pub enum SurfaceRole {
    Subsurface { parent: Option<SurfaceId> },
    /// A popup of the input method.
    InputPopup,
    /// A toplevel, a popup or an X11 window.
    Window,
}

/// The kinds of X11 windows.
#[derive(Debug, Clone, Copy, PartialEq, Eq, Structural)]
pub enum WmWindowType {
    DropdownMenu,
    Dialog,
    Menu,
    Notification,
    Normal,
    PopupMenu,
    Splash,
    Toolbar,
    Tooltip,
    Utility,
}

/// Kinds of X11 windows that never take the keyboard.
pub open spec fn is_helper(t: WmWindowType) -> bool {
    match t {
        WmWindowType::Dialog | WmWindowType::Normal => false,
        _ => true,
    }
}

/// Whether an X11 window may take focus when it is mapped: menus,
/// tooltips and the like would steal the keyboard from their
/// application.
pub fn x11_focusable(override_redirect: bool, window_type: Option<WmWindowType>) -> (r: bool)
    ensures
        r == (!override_redirect && match window_type {
            Some(t) => !is_helper(t),
            None => true,
        }),
{
    if override_redirect {
        return false;
    }
    match window_type {
        Some(WmWindowType::Dialog) => true,
        Some(WmWindowType::Normal) => true,
        Some(_) => false,
        None => true,
    }
}

/// A commit of a surface, with what was made of its buffer.
#[derive(Debug, Clone, Copy)]
pub struct SurfaceCommit {
    pub surface: SurfaceId,
    pub role: SurfaceRole,
    /// Whether there is a renderer to import into.
    pub backend: bool,
    /// Whether the commit attached a buffer.
    pub attached: bool,
    /// The buffer's own size, where it is known.
    pub buffer_size: Option<(i32, i32)>,
    /// The size of the imported texture; nothing when the import failed.
    pub texture: Option<(i32, i32)>,
    pub buffer_scale: i32,
    pub viewport_dst: Option<(i32, i32)>,
    pub viewport_src: Option<ViewportSource>,
    /// The id a new visual gets.
    pub fresh: VisualId,
    /// Where a new window goes.
    pub place: Vec3,
    /// How a new window is turned.
    pub tilt: Quat,
    /// Where a popup or subsurface goes, in its parent's frame.
    pub child_place: Vec3,
    /// Whether an X11 window may take focus.
    pub x11_focusable: bool,
}

/// A visual nobody has placed.
pub open spec fn new_visual(id: VisualId, size: (i32, i32)) -> Visual {
    Visual {
        id,
        width: size.0,
        height: size.1,
        transform: identity_transform(),
        parent: None,
        window_state: WindowState::Normal,
        connected: true,
        chrome_focused: false,
    }
}

/// A visual at a place in its parent's frame.
pub open spec fn child_visual(
    id: VisualId,
    size: (i32, i32),
    parent: VisualId,
    place: Vec3,
) -> Visual {
    Visual {
        parent: Some(parent),
        transform: Transform3D { position: place, ..identity_transform() },
        ..new_visual(id, size)
    }
}

fn make_visual(id: VisualId, size: (i32, i32)) -> (r: Visual)
    ensures
        r == new_visual(id, size),
{
    Visual {
        id,
        width: size.0,
        height: size.1,
        transform: Transform3D::identity(),
        parent: None,
        window_state: WindowState::Normal,
        connected: true,
        chrome_focused: false,
    }
}

fn make_child(id: VisualId, size: (i32, i32), parent: VisualId, place: Vec3) -> (r: Visual)
    ensures
        r == child_visual(id, size, parent, place),
{
    let mut v = make_visual(id, size);
    v.parent = Some(parent);
    v.transform.position = place;
    v
}

/// The degrees a new window is turned about the vertical: the first ones
/// face the middle.
pub open spec fn map_angle(i: int) -> int {
    if i == 0 {
        5
    } else if i == 2 {
        -5
    } else {
        0
    }
}

/// Position of the first saved window of the application, or the length.
pub open spec fn saved_index(s: Seq<SavedVisual>, app_id: Seq<char>) -> int
    decreases s.len(),
{
    if s.len() == 0 || s[0].app_id@ == app_id {
        0
    } else {
        1 + saved_index(s.drop_first(), app_id)
    }
}

pub proof fn lemma_saved_index(s: Seq<SavedVisual>, app_id: Seq<char>, i: int)
    requires
        0 <= i <= s.len(),
        forall|j: int| 0 <= j < i ==> (#[trigger] s[j]).app_id@ != app_id,
        i < s.len() ==> s[i].app_id@ == app_id,
    ensures
        saved_index(s, app_id) == i,
    decreases s.len(),
{
    if i > 0 {
        assert(s[0].app_id@ != app_id);
        let rest = s.drop_first();
        assert forall|j: int| 0 <= j < i - 1 implies (#[trigger] rest[j]).app_id@ != app_id by {
            assert(rest[j] == s[j + 1]);
        }
        lemma_saved_index(rest, app_id, i - 1);
    }
}

impl SurfaceCommit {
    /// The size the buffer is taken to have.
    pub open spec fn buffer(self) -> (i32, i32) {
        match self.buffer_size {
            Some(s) => s,
            None => self.texture.unwrap(),
        }
    }

    /// The logical size of a window's commit.
    pub open spec fn size(self) -> (i32, i32) {
        let s = logical_size(
            self.buffer(),
            self.buffer_scale,
            self.viewport_dst,
            self.viewport_src,
        );
        (s.0 as i32, s.1 as i32)
    }

    pub open spec fn crop(self) -> Option<SourceUv> {
        crop(self.buffer(), self.viewport_src)
    }

    /// The same for a subsurface, whose texture counts.
    pub open spec fn child_size(self) -> (i32, i32) {
        let s = logical_size(
            self.texture.unwrap(),
            self.buffer_scale,
            self.viewport_dst,
            self.viewport_src,
        );
        (s.0 as i32, s.1 as i32)
    }

    pub open spec fn child_crop(self) -> Option<SourceUv> {
        crop(self.texture.unwrap(), self.viewport_src)
    }

    /// A buffer arrived and there is a renderer for it.
    pub open spec fn importable(self) -> bool {
        self.attached && self.backend
    }
}

impl GlassModel {
    /// A visual in the scene that shows a surface.
    pub open spec fn showing(self, v: Visual, surface: SurfaceId) -> GlassModel {
        GlassModel {
            surfaces: bound(self.surfaces, v.id.0, surface),
            scene: self.scene.added(v),
            ..self
        }
    }

    /// The visual on the shown workspace.
    pub open spec fn joined_here(self, vid: VisualId) -> GlassModel {
        GlassModel { workspaces: self.workspaces.joined(self.workspaces.active, vid), ..self }
    }

    /// The visual on the workspace of another, or on the shown one when
    /// that is on none.
    pub open spec fn joined_with(self, vid: VisualId, other: VisualId) -> GlassModel {
        match self.workspaces.home(other) {
            Some(k) => GlassModel { workspaces: self.workspaces.joined(k as int, vid), ..self },
            None => self.joined_here(vid),
        }
    }

    /// The visual on another workspace in place of the shown one, if
    /// there is one.
    pub open spec fn rehomed(self, vid: VisualId, idx: int) -> GlassModel {
        if 0 <= idx < self.workspaces.all.len() && idx != self.workspaces.active {
            GlassModel {
                workspaces: self.workspaces.joined(idx, vid).left(self.workspaces.active, vid),
                ..self
            }
        } else {
            self
        }
    }

    /// What was committed shown on the visual, which gets its size. Its
    /// pose is its own.
    pub open spec fn adopted(
        self,
        vid: VisualId,
        size: (i32, i32),
        crop: Option<SourceUv>,
    ) -> GlassModel {
        GlassModel { scene: self.scene.resized(vid, size.0, size.1), ..self }.ordering(
            Effect::AdoptTexture { vid, crop },
        )
    }

    /// The visual moved within its parent's frame.
    pub open spec fn replaced(self, vid: VisualId, place: Vec3) -> GlassModel {
        GlassModel {
            scene: self.scene.posed(
                vid,
                Transform3D { position: place, ..self.scene.visual(vid).transform },
            ),
            ..self
        }
    }

    /// A child visual updated by a commit, if it is in the scene.
    pub open spec fn child_updated(
        self,
        vid: VisualId,
        size: (i32, i32),
        crop: Option<SourceUv>,
        place: Vec3,
    ) -> GlassModel {
        if self.scene.has(vid) {
            self.adopted(vid, size, crop).replaced(vid, place)
        } else {
            self
        }
    }

    /// A commit of a subsurface: it is shown with its parent, once that
    /// is shown, and on its workspace.
    pub open spec fn subsurface_committed(
        self,
        c: SurfaceCommit,
        parent: Option<SurfaceId>,
    ) -> GlassModel {
        match parent {
            Some(p) => match self.visual_of_surface(p) {
                Some(pvid) if c.importable() && c.texture is Some => match value_of(
                    self.subsurfaces,
                    c.surface,
                ) {
                    Some(v) => self.child_updated(
                        VisualId(v),
                        c.child_size(),
                        c.child_crop(),
                        c.child_place,
                    ),
                    None => GlassModel {
                        subsurfaces: bound(self.subsurfaces, c.surface, c.fresh.0),
                        subsurface_parents: bound(self.subsurface_parents, c.surface, p),
                        ..self
                    }.showing(
                        child_visual(c.fresh, c.child_size(), pvid, c.child_place),
                        c.surface,
                    ).ordering(
                        Effect::AdoptTexture { vid: c.fresh, crop: c.child_crop() },
                    ).joined_with(c.fresh, pvid),
                }.ordering(Effect::ScheduleRender),
                _ => self,
            },
            None => self,
        }
    }

    /// A commit of an input method's popup: it is shown with the field
    /// that is typed into.
    pub open spec fn ime_committed(self, c: SurfaceCommit) -> GlassModel {
        match self.ime_parent {
            Some(pvid) if self.ime_popups.contains(c.surface) && c.importable()
                && c.texture is Some => match value_of(self.ime_visuals, c.surface) {
                Some(v) => self.child_updated(
                    VisualId(v),
                    c.texture.unwrap(),
                    None,
                    c.child_place,
                ),
                None => GlassModel {
                    ime_visuals: bound(self.ime_visuals, c.surface, c.fresh.0),
                    ..self
                }.showing(
                    child_visual(c.fresh, c.texture.unwrap(), pvid, c.child_place),
                    c.surface,
                ).ordering(Effect::AdoptTexture { vid: c.fresh, crop: None }).joined_here(c.fresh),
            }.ordering(Effect::ScheduleRender),
            _ => self,
        }
    }

    /// The visual of an X11 window's surface.
    pub open spec fn x11_shown(self, surface: SurfaceId) -> Option<VisualId> {
        match key_of(self.surfaces, surface) {
            Some(k) => Some(VisualId(k)),
            None => None,
        }
    }

    /// An X11 window shown for the first time.
    pub open spec fn x11_mapped(self, c: SurfaceCommit) -> GlassModel {
        let v = Visual {
            transform: Transform3D { position: c.place, ..identity_transform() },
            ..new_visual(c.fresh, c.size())
        };
        let m = GlassModel { announced: with_member(self.announced, c.fresh), ..self }.ordering(
            Effect::PublishWindow { vid: c.fresh },
        ).showing(v, c.surface).ordering(
            Effect::AdoptTexture { vid: c.fresh, crop: c.crop() },
        ).joined_here(c.fresh);
        let m = if c.x11_focusable {
            m.keyboard_focused(Some(c.fresh))
        } else {
            m
        };
        m.fitted_if_flat()
    }

    /// In the flat view everything is brought into view.
    pub open spec fn fitted_if_flat(self) -> GlassModel {
        if self.spatial.spatial_mode {
            self
        } else {
            self.ordering(Effect::FitCamera)
        }
    }

    /// The popup's parent, if it is in the scene.
    pub open spec fn popup_parent(self, i: int) -> Option<VisualId> {
        match self.popups[i].parent_toplevel_vid {
            Some(p) if self.scene.has(p) => Some(p),
            _ => None,
        }
    }

    /// A popup shown: with its parent, on its parent's workspace.
    pub open spec fn popup_mapped(self, i: int, c: SurfaceCommit) -> GlassModel {
        let parent = self.popup_parent(i);
        let v = match parent {
            Some(p) => child_visual(c.fresh, c.size(), p, c.child_place),
            None => new_visual(c.fresh, c.size()),
        };
        let m = GlassModel {
            popups: self.popups.update(
                i,
                PopupInfo {
                    lifecycle: SurfaceLifecycle::Mapped,
                    size: c.texture,
                    visual_id: Some(c.fresh),
                    ..self.popups[i]
                },
            ),
            ..self
        }.showing(v, c.surface).ordering(Effect::AdoptTexture { vid: c.fresh, crop: c.crop() });
        match parent {
            Some(p) => m.joined_with(c.fresh, p),
            None => m.joined_here(c.fresh),
        }
    }

    /// A popup shown again on the visual it has.
    pub open spec fn popup_remapped(self, i: int, vid: VisualId, c: SurfaceCommit) -> GlassModel {
        let parent = self.popup_parent(i);
        let m = GlassModel {
            popups: self.popups.update(
                i,
                PopupInfo {
                    lifecycle: SurfaceLifecycle::Mapped,
                    size: c.texture,
                    ..self.popups[i]
                },
            ),
            ..self
        };
        if m.scene.has(vid) {
            let n = m.adopted(vid, c.size(), c.crop());
            let n = if parent is Some {
                n.replaced(vid, c.child_place)
            } else {
                n
            };
            n.joined_here(vid)
        } else {
            m
        }
    }

    /// A toplevel shown again on the visual it has.
    pub open spec fn toplevel_remapped(self, i: int, vid: VisualId, c: SurfaceCommit) -> GlassModel {
        let m = self.mapped_row(i, c);
        if m.scene.has(vid) {
            m.adopted(vid, c.size(), c.crop()).joined_here(vid)
        } else {
            m
        }
    }

    /// The toplevel mapped at its committed size.
    pub open spec fn mapped_row(self, i: int, c: SurfaceCommit) -> GlassModel {
        GlassModel {
            toplevels: self.toplevels.update(
                i,
                ToplevelInfo {
                    lifecycle: SurfaceLifecycle::Mapped,
                    size: Some(c.size()),
                    ..self.toplevels[i]
                },
            ),
            ..self
        }
    }

    /// The reopened window that a toplevel of this application is.
    pub open spec fn reopening(self, app_id: Seq<char>) -> Option<PendingReopen> {
        match self.pending_reopen {
            Some(p) if p.app_id@ == app_id => Some(p),
            _ => None,
        }
    }

    /// The saved window that a toplevel of this application is.
    pub open spec fn returning(self, app_id: Seq<char>) -> Option<SavedVisual> {
        let k = saved_index(self.saved, app_id);
        if k < self.saved.len() {
            Some(self.saved[k])
        } else {
            None
        }
    }

    /// Where a new window of this application is placed: as it was saved,
    /// else as it was closed, else as a new one.
    pub open spec fn placement(self, app_id: Seq<char>, c: SurfaceCommit) -> Transform3D {
        match (self.returning(app_id), self.reopening(app_id)) {
            (Some(s), _) => s.transform,
            (None, Some(p)) => p.transform,
            (None, None) => Transform3D {
                position: c.place,
                rotation: c.tilt,
                ..identity_transform()
            },
        }
    }

    /// The saved and the reopened window of this application are not
    /// waited for any more.
    pub open spec fn arrivals_taken(self, app_id: Seq<char>, vid: VisualId) -> GlassModel {
        let k = saved_index(self.saved, app_id);
        let m = if k < self.saved.len() {
            GlassModel {
                saved: self.saved.remove(k),
                scene: if self.saved[k].detached {
                    SceneModel { detached_set: self.scene.detached_set.push(vid), ..self.scene }
                } else {
                    self.scene
                },
                ..self
            }
        } else {
            self
        };
        if self.reopening(app_id) is Some {
            GlassModel { pending_reopen: None, ..m }
        } else {
            m
        }
    }

    /// A new window on the workspace it was saved or closed on.
    pub open spec fn sent_home(
        self,
        vid: VisualId,
        returning: Option<SavedVisual>,
        reopening: Option<PendingReopen>,
    ) -> GlassModel {
        let m = match returning {
            Some(s) => self.rehomed(vid, s.workspace as int),
            None => self,
        };
        match reopening {
            Some(p) => m.rehomed(vid, p.workspace as int),
            None => m,
        }
    }

    /// The window's visual in the scene and announced.
    pub open spec fn window_placed(self, i: int, c: SurfaceCommit) -> GlassModel {
        let app = self.toplevels[i].app_id@;
        let v = Visual {
            transform: self.placement(app, c),
            ..new_visual(c.fresh, c.size())
        };
        let m = GlassModel { announced: with_member(self.announced, c.fresh), ..self }.ordering(
            Effect::PublishWindow { vid: c.fresh },
        ).arrivals_taken(app, c.fresh);
        m.window_presented(i, v, c)
    }

    /// The toplevel shown by a visual on the shown workspace.
    pub open spec fn window_presented(self, i: int, v: Visual, c: SurfaceCommit) -> GlassModel {
        GlassModel {
            toplevels: self.toplevels.update(
                i,
                ToplevelInfo { visual_id: Some(c.fresh), ..self.toplevels[i] },
            ),
            ..self
        }.showing(v, c.surface).ordering(
            Effect::AdoptTexture { vid: c.fresh, crop: c.crop() },
        ).joined_here(c.fresh).fitted_if_flat()
    }

    /// A new window takes focus, and its application is known.
    pub open spec fn window_greeted(self, i: int, vid: VisualId) -> GlassModel {
        GlassModel {
            apps: registered(self.apps, self.toplevels[i].app_id@),
            ..self
        }.keyboard_focused(Some(vid)).ordering(Effect::RefreshSelection).ordering(
            Effect::ScheduleRender,
        )
    }

    /// A toplevel shown for the first time.
    pub open spec fn toplevel_mapped(self, i: int, c: SurfaceCommit) -> GlassModel {
        let app = self.toplevels[i].app_id@;
        self.mapped_row(i, c).window_placed(i, c).sent_home(
            c.fresh,
            self.returning(app),
            self.reopening(app),
        ).window_greeted(i, c.fresh)
    }

    /// A request for the size answered by the commit.
    pub open spec fn size_answered(self, vid: VisualId, size: (i32, i32)) -> GlassModel {
        let m = GlassModel { resizes: requests_after_commit(self.resizes, vid), ..self };
        if commit_outcome(self.resizes, vid, size) == CommitOutcome::Fulfilled {
            m.desire_flushed(vid)
        } else {
            m
        }
    }

    /// What was asked of the client answered, and transitions completed,
    /// by a commit of this size.
    pub open spec fn settled(self, vid: VisualId, size: (i32, i32)) -> GlassModel {
        let m = self.size_answered(vid, size);
        let m = m.maximize_completed(vid, size).maximize_flushed();
        m.fullscreen_completed(vid, size).fullscreen_flushed()
    }

    /// A commit of a window that is shown: it answers what was asked of
    /// the client, completes transitions, and is adopted.
    pub open spec fn updated(self, vid: VisualId, c: SurfaceCommit) -> GlassModel {
        let m = self.settled(vid, c.size());
        if m.scene.has(vid) {
            m.adopted(vid, c.size(), c.crop())
        } else {
            m
        }
    }

    /// A commit of an X11 window.
    pub open spec fn x11_committed(self, c: SurfaceCommit) -> GlassModel {
        match self.x11_window_visual(c.surface) {
            Some(vid) => self.updated(vid, c),
            None => self.x11_mapped(c),
        }
    }

    /// The visual of the X11 window with this surface: that of the first
    /// surface the window is associated with.
    pub open spec fn x11_window_visual(self, surface: SurfaceId) -> Option<VisualId> {
        let w = self.x11[x11_surface_index(self.x11, surface)];
        let i = x11_index(self.x11, w.window_id);
        self.x11_shown(self.x11[i].surface)
    }

    /// A commit of a popup.
    pub open spec fn popup_committed(self, i: int, c: SurfaceCommit) -> GlassModel {
        let p = self.popups[i];
        match (p.lifecycle, self.parent_visual(Some(c.surface))) {
            (SurfaceLifecycle::Mapped, Some(vid)) => self.updated(vid, c),
            (SurfaceLifecycle::Mapped, None) => self,
            (_, Some(vid)) => self.popup_remapped(i, vid, c),
            (_, None) => self.popup_mapped(i, c),
        }
    }

    /// A commit of a toplevel.
    pub open spec fn toplevel_committed(self, i: int, c: SurfaceCommit) -> GlassModel {
        let t = self.toplevels[i];
        match (t.lifecycle, t.visual_id) {
            (SurfaceLifecycle::Mapped, Some(vid)) => self.updated(vid, c),
            (SurfaceLifecycle::Mapped, None) => self,
            (_, Some(vid)) => self.toplevel_remapped(i, vid, c),
            (_, None) => self.toplevel_mapped(i, c),
        }
    }

    /// The surface belongs to something that can be shown.
    pub open spec fn is_tracked(self, surface: SurfaceId) -> bool {
        if is_x11(self.x11, surface) {
            true
        } else if popup_index(self.popups, surface) < self.popups.len() {
            self.popups[popup_index(self.popups, surface)].lifecycle
                != SurfaceLifecycle::Destroyed
        } else {
            let i = surface_index(self.toplevels, surface);
            i < self.toplevels.len() && self.toplevels[i].lifecycle != SurfaceLifecycle::Destroyed
        }
    }

    /// A commit whose buffer was imported.
    pub open spec fn imported(self, c: SurfaceCommit) -> GlassModel {
        let p = popup_index(self.popups, c.surface);
        if is_x11(self.x11, c.surface) {
            self.x11_committed(c)
        } else if p < self.popups.len() {
            self.popup_committed(p, c)
        } else {
            self.toplevel_committed(surface_index(self.toplevels, c.surface), c)
        }
    }

    /// A commit of a toplevel, popup or X11 window.
    pub open spec fn window_committed(self, c: SurfaceCommit) -> GlassModel {
        if !self.is_tracked(c.surface) || !c.importable() {
            self
        } else {
            let m = if c.texture is Some {
                self.imported(c)
            } else {
                self
            };
            m.ordering(Effect::ScheduleRender)
        }
    }

    /// A commit of a surface.
    pub open spec fn committed(self, c: SurfaceCommit) -> GlassModel {
        match c.role {
            SurfaceRole::Subsurface { parent } => self.subsurface_committed(c, parent),
            SurfaceRole::InputPopup => self.ime_committed(c),
            SurfaceRole::Window => self.window_committed(c),
        }
    }

    /// An input method's popup gone.
    pub open spec fn ime_unshown(self, surface: SurfaceId) -> GlassModel {
        match value_of(self.ime_visuals, surface) {
            Some(v) => {
                let m = self.unshown(VisualId(v));
                GlassModel { ime_visuals: dropped(m.ime_visuals, surface), ..m }.ordering(
                    Effect::ScheduleRender,
                )
            },
            None => self,
        }
    }
}

/// Position of the first X11 window with this surface, or the length.
pub open spec fn x11_surface_index(
    s: Seq<X11Window>,
    surface: SurfaceId,
) -> int
    decreases s.len(),
{
    if s.len() == 0 || s[0].surface == surface {
        0
    } else {
        1 + x11_surface_index(s.drop_first(), surface)
    }
}

pub proof fn lemma_x11_surface_index(s: Seq<X11Window>, surface: SurfaceId, i: int)
    requires
        0 <= i <= s.len(),
        forall|j: int| 0 <= j < i ==> (#[trigger] s[j]).surface != surface,
        i < s.len() ==> s[i].surface == surface,
    ensures
        x11_surface_index(s, surface) == i,
    decreases s.len(),
{
    if i > 0 {
        assert(s[0].surface != surface);
        let rest = s.drop_first();
        assert forall|j: int| 0 <= j < i - 1 implies (#[trigger] rest[j]).surface != surface by {
            assert(rest[j] == s[j + 1]);
        }
        lemma_x11_surface_index(rest, surface, i - 1);
    }
}

fn placement_of(
    returning: &Option<SavedVisual>,
    reopening: &Option<PendingReopen>,
    c: &SurfaceCommit,
) -> (r: Transform3D)
    ensures
        r == match (*returning, *reopening) {
            (Some(s), _) => s.transform,
            (None, Some(p)) => p.transform,
            (None, None) => Transform3D {
                position: c.place,
                rotation: c.tilt,
                ..identity_transform()
            },
        },
{
    match returning {
        Some(s) => s.transform,
        None => match reopening {
            Some(p) => p.transform,
            None => Transform3D {
                position: c.place,
                rotation: c.tilt,
                scale: Transform3D::identity().scale,
            },
        },
    }
}

impl SurfaceCommit {
    fn geometry(&self) -> (r: ((i32, i32), Option<SourceUv>))
        requires
            self.texture is Some,
        ensures
            r == (self.size(), self.crop()),
    {
        let buf = match self.buffer_size {
            Some(s) => s,
            None => self.texture.unwrap(),
        };
        logical_geometry_from_buffer(
            buf,
            self.buffer_scale,
            self.viewport_dst,
            self.viewport_src,
        )
    }

    fn child_geometry(&self) -> (r: ((i32, i32), Option<SourceUv>))
        requires
            self.texture is Some,
        ensures
            r == (self.child_size(), self.child_crop()),
    {
        logical_geometry_from_buffer(
            self.texture.unwrap(),
            self.buffer_scale,
            self.viewport_dst,
            self.viewport_src,
        )
    }
}

impl LookingGlass {
    fn show(&mut self, v: Visual, surface: SurfaceId)
        ensures
            final(self)@ == old(self)@.showing(v, surface),
    {
        self.wayland_surfaces.insert(v.id.0, surface);
        self.scene.add(v);
    }

    fn join_here(&mut self, vid: VisualId)
        requires
            old(self)@.wf(),
        ensures
            final(self)@ == old(self)@.joined_here(vid),
            final(self)@.wf(),
    {
        let here: usize = self.workspace_manager.active_id();
        self.workspace_manager.join(here, vid);
    }

    fn join_with(&mut self, vid: VisualId, other: VisualId)
        requires
            old(self)@.wf(),
        ensures
            final(self)@ == old(self)@.joined_with(vid, other),
            final(self)@.wf(),
    {
        match self.workspace_manager.home(other) {
            Some(k) => {
                self.workspace_manager.join(k, vid);
            },
            None => {
                self.join_here(vid);
            },
        }
    }

    fn rehome(&mut self, vid: VisualId, idx: usize)
        requires
            old(self)@.wf(),
        ensures
            final(self)@ == old(self)@.rehomed(vid, idx as int),
            final(self)@.wf(),
    {
        let here: usize = self.workspace_manager.active_id();
        if idx < self.workspace_manager.len() && idx != here {
            self.workspace_manager.join(idx, vid);
            self.workspace_manager.leave(here, vid);
        }
    }

    fn adopt(&mut self, vid: VisualId, size: (i32, i32), crop: Option<SourceUv>)
        ensures
            final(self)@ == old(self)@.adopted(vid, size, crop),
    {
        self.scene.set_size(vid, size.0, size.1);
        self.order(Effect::AdoptTexture { vid, crop });
    }

    fn replace_child(&mut self, vid: VisualId, place: Vec3)
        requires
            old(self)@.scene.has(vid),
        ensures
            final(self)@ == old(self)@.replaced(vid, place),
    {
        if let Some(v) = self.scene.get(vid) {
            self.scene.set_transform(vid, Transform3D { position: place, ..v.transform });
        }
    }

    fn update_child(
        &mut self,
        vid: VisualId,
        size: (i32, i32),
        crop: Option<SourceUv>,
        place: Vec3,
    )
        ensures
            final(self)@ == old(self)@.child_updated(vid, size, crop, place),
    {
        if self.scene.position(vid).is_some() {
            proof {
                crate::scene::lemma_resized_has(self@.scene, vid, size.0, size.1);
            }
            self.adopt(vid, size, crop);
            self.replace_child(vid, place);
        }
    }

    /// A commit of a subsurface. It waits for its parent to be shown.
    pub fn handle_subsurface_commit(&mut self, c: &SurfaceCommit, parent: Option<SurfaceId>)
        requires
            old(self)@.wf(),
        ensures
            final(self)@ == old(self)@.subsurface_committed(*c, parent),
            final(self)@.wf(),
    {
        let p: SurfaceId = match parent {
            Some(p) => p,
            None => {
                return;
            },
        };
        let pvid = match self.find_vid_for_surface(p) {
            Some(v) => v,
            None => {
                return;
            },
        };
        if !c.attached || !c.backend || c.texture.is_none() {
            return;
        }
        let (size, crop) = c.child_geometry();
        match self.subsurface_visuals.get(c.surface) {
            Some(v) => {
                self.update_child(VisualId(v), size, crop, c.child_place);
            },
            None => {
                self.subsurface_visuals.insert(c.surface, c.fresh.0);
                self.subsurface_parents.insert(c.surface, p);
                self.show(make_child(c.fresh, size, pvid, c.child_place), c.surface);
                self.order(Effect::AdoptTexture { vid: c.fresh, crop });
                self.join_with(c.fresh, pvid);
            },
        }
        self.schedule_render();
    }

    fn is_ime_popup(&self, surface: SurfaceId) -> (r: bool)
        ensures
            r == self@.ime_popups.contains(surface),
    {
        let mut i: usize = 0;
        while i < self.ime_popups.len()
            invariant
                i <= self.ime_popups@.len(),
                forall|j: int| 0 <= j < i ==> self.ime_popups@[j] != surface,
            decreases self.ime_popups@.len() - i,
        {
            if self.ime_popups[i] == surface {
                assert(self@.ime_popups[i as int] == surface);
                return true;
            }
            i = i + 1;
        }
        false
    }

    /// A commit of an input method's popup.
    pub fn handle_ime_popup_commit(&mut self, c: &SurfaceCommit)
        requires
            old(self)@.wf(),
        ensures
            final(self)@ == old(self)@.ime_committed(*c),
            final(self)@.wf(),
    {
        if !self.is_ime_popup(c.surface) {
            return;
        }
        let pvid = match self.ime_parent_vid {
            Some(v) => v,
            None => {
                return;
            },
        };
        if !c.attached || !c.backend {
            return;
        }
        let size = match c.texture {
            Some(s) => s,
            None => {
                return;
            },
        };
        match self.ime_popup_visuals.get(c.surface) {
            Some(v) => {
                self.update_child(VisualId(v), size, None, c.child_place);
            },
            None => {
                self.ime_popup_visuals.insert(c.surface, c.fresh.0);
                self.show(make_child(c.fresh, size, pvid, c.child_place), c.surface);
                self.order(Effect::AdoptTexture { vid: c.fresh, crop: None });
                self.join_here(c.fresh);
            },
        }
        self.schedule_render();
    }

    /// Drops the visual of an input method's popup.
    pub fn remove_ime_popup_visual(&mut self, surface: SurfaceId)
        ensures
            final(self)@ == old(self)@.ime_unshown(surface),
    {
        if let Some(v) = self.ime_popup_visuals.get(surface) {
            self.ime_popup_visuals.remove(surface);
            self.unshow(VisualId(v));
            self.schedule_render();
        }
    }

    fn fit_if_flat(&mut self)
        ensures
            final(self)@ == old(self)@.fitted_if_flat(),
    {
        if !self.spatial.spatial_mode {
            self.order(Effect::FitCamera);
        }
    }

    fn map_x11(&mut self, c: &SurfaceCommit)
        requires
            old(self)@.wf(),
            c.texture is Some,
        ensures
            final(self)@ == old(self)@.x11_mapped(*c),
            final(self)@.wf(),
    {
        let (size, crop) = c.geometry();
        let mut v = make_visual(c.fresh, size);
        v.transform.position = c.place;
        self.register_foreign_toplevel(c.fresh);
        self.show(v, c.surface);
        self.order(Effect::AdoptTexture { vid: c.fresh, crop });
        self.join_here(c.fresh);
        if c.x11_focusable {
            self.set_keyboard_focus(Some(c.fresh));
        }
        self.fit_if_flat();
    }

    fn popup_parent(&self, i: usize) -> (r: Option<VisualId>)
        requires
            i < self@.popups.len(),
        ensures
            r == self@.popup_parent(i as int),
    {
        match self.popups[i].parent_toplevel_vid {
            Some(p) => if self.scene.position(p).is_some() {
                Some(p)
            } else {
                None
            },
            None => None,
        }
    }

    fn map_popup(&mut self, i: usize, c: &SurfaceCommit)
        requires
            old(self)@.wf(),
            i < old(self)@.popups.len(),
            c.texture is Some,
        ensures
            final(self)@ == old(self)@.popup_mapped(i as int, *c),
            final(self)@.wf(),
    {
        let (size, crop) = c.geometry();
        let parent = self.popup_parent(i);
        let v = match parent {
            Some(p) => make_child(c.fresh, size, p, c.child_place),
            None => make_visual(c.fresh, size),
        };
        let row = self.popups[i];
        self.popups.set(
            i,
            PopupInfo {
                lifecycle: SurfaceLifecycle::Mapped,
                size: c.texture,
                visual_id: Some(c.fresh),
                ..row
            },
        );
        self.show(v, c.surface);
        self.order(Effect::AdoptTexture { vid: c.fresh, crop });
        match parent {
            Some(p) => {
                self.join_with(c.fresh, p);
            },
            None => {
                self.join_here(c.fresh);
            },
        }
    }

    fn remap_popup(&mut self, i: usize, vid: VisualId, c: &SurfaceCommit)
        requires
            old(self)@.wf(),
            i < old(self)@.popups.len(),
            c.texture is Some,
        ensures
            final(self)@ == old(self)@.popup_remapped(i as int, vid, *c),
            final(self)@.wf(),
    {
        let (size, crop) = c.geometry();
        let parent = self.popup_parent(i);
        let row = self.popups[i];
        self.popups.set(
            i,
            PopupInfo { lifecycle: SurfaceLifecycle::Mapped, size: c.texture, ..row },
        );
        if self.scene.position(vid).is_some() {
            proof {
                crate::scene::lemma_resized_has(self@.scene, vid, size.0, size.1);
            }
            self.adopt(vid, size, crop);
            if parent.is_some() {
                self.replace_child(vid, c.child_place);
            }
            self.join_here(vid);
        }
    }

    fn map_row(&mut self, i: usize, size: (i32, i32))
        requires
            i < old(self)@.toplevels.len(),
        ensures
            final(self)@ == (GlassModel {
                toplevels: old(self)@.toplevels.update(
                    i as int,
                    ToplevelInfo {
                        lifecycle: SurfaceLifecycle::Mapped,
                        size: Some(size),
                        ..old(self)@.toplevels[i as int]
                    },
                ),
                ..old(self)@
            }),
    {
        self.toplevels[i].lifecycle = SurfaceLifecycle::Mapped;
        self.toplevels[i].size = Some(size);
    }

    fn remap_toplevel(&mut self, i: usize, vid: VisualId, c: &SurfaceCommit)
        requires
            old(self)@.wf(),
            i < old(self)@.toplevels.len(),
            c.texture is Some,
        ensures
            final(self)@ == old(self)@.toplevel_remapped(i as int, vid, *c),
            final(self)@.wf(),
    {
        let (size, crop) = c.geometry();
        self.map_row(i, size);
        if self.scene.position(vid).is_some() {
            self.adopt(vid, size, crop);
            self.join_here(vid);
        }
    }

    /// The degrees a toplevel is turned when it is shown for the first
    /// time.
    pub fn angle_for(&self, surface: SurfaceId) -> (r: i32)
        ensures
            r == map_angle(surface_index(self@.toplevels, surface)),
    {
        match self.surface_position(surface) {
            Some(i) => if i == 0 {
                5
            } else if i == 2 {
                -5
            } else {
                0
            },
            None => if self.toplevels.len() == 0 {
                5
            } else if self.toplevels.len() == 2 {
                -5
            } else {
                0
            },
        }
    }

    fn take_saved(&mut self, i: usize) -> (r: Option<SavedVisual>)
        requires
            i < old(self)@.toplevels.len(),
        ensures
            r == old(self)@.returning(old(self)@.toplevels[i as int].app_id@),
            final(self)@ == (GlassModel {
                saved: if r is Some {
                    old(self)@.saved.remove(
                        saved_index(
                            old(self)@.saved,
                            old(self)@.toplevels[i as int].app_id@,
                        ),
                    )
                } else {
                    old(self)@.saved
                },
                ..old(self)@
            }),
    {
        let mut k: usize = 0;
        let ghost app = self.toplevels@[i as int].app_id@;
        while k < self.saved_visuals.len()
            invariant
                k <= self.saved_visuals@.len(),
                i < self.toplevels@.len(),
                app == self.toplevels@[i as int].app_id@,
                self@ == old(self)@,
                forall|j: int| 0 <= j < k ==> (#[trigger] self.saved_visuals@[j]).app_id@ != app,
            decreases self.saved_visuals@.len() - k,
        {
            if self.saved_visuals[k].app_id == self.toplevels[i].app_id {
                proof {
                    lemma_saved_index(self@.saved, app, k as int);
                }
                return Some(self.saved_visuals.remove(k));
            }
            k = k + 1;
        }
        proof {
            lemma_saved_index(self@.saved, app, k as int);
        }
        None
    }

    fn take_reopening(&mut self, i: usize) -> (r: Option<PendingReopen>)
        requires
            i < old(self)@.toplevels.len(),
        ensures
            r == old(self)@.reopening(old(self)@.toplevels[i as int].app_id@),
            final(self)@ == (GlassModel {
                pending_reopen: if r is Some {
                    None
                } else {
                    old(self)@.pending_reopen
                },
                ..old(self)@
            }),
    {
        let same = match &self.pending_reopen {
            Some(p) => p.app_id == self.toplevels[i].app_id,
            None => false,
        };
        if same {
            self.pending_reopen.take()
        } else {
            None
        }
    }

    fn send_home(
        &mut self,
        vid: VisualId,
        returning: &Option<SavedVisual>,
        reopening: &Option<PendingReopen>,
    )
        requires
            old(self)@.wf(),
        ensures
            final(self)@ == old(self)@.sent_home(vid, *returning, *reopening),
            final(self)@.wf(),
    {
        if let Some(s) = returning {
            self.rehome(vid, s.workspace);
        }
        if let Some(p) = reopening {
            self.rehome(vid, p.workspace);
        }
    }

    fn place_window(&mut self, i: usize, c: &SurfaceCommit) -> (r: (
        Option<SavedVisual>,
        Option<PendingReopen>,
    ))
        requires
            old(self)@.wf(),
            i < old(self)@.toplevels.len(),
            c.texture is Some,
        ensures
            final(self)@ == old(self)@.window_placed(i as int, *c),
            final(self)@.wf(),
            r.0 == old(self)@.returning(old(self)@.toplevels[i as int].app_id@),
            r.1 == old(self)@.reopening(old(self)@.toplevels[i as int].app_id@),
    {
        self.register_foreign_toplevel(c.fresh);
        let (returning, reopening) = self.take_arrivals(i, c.fresh);
        let mut v = make_visual(c.fresh, c.geometry().0);
        v.transform = placement_of(&returning, &reopening, c);
        self.present_window(i, v, c);
        (returning, reopening)
    }

    fn take_arrivals(&mut self, i: usize, vid: VisualId) -> (r: (
        Option<SavedVisual>,
        Option<PendingReopen>,
    ))
        requires
            i < old(self)@.toplevels.len(),
        ensures
            final(self)@ == old(self)@.arrivals_taken(
                old(self)@.toplevels[i as int].app_id@,
                vid,
            ),
            r.0 == old(self)@.returning(old(self)@.toplevels[i as int].app_id@),
            r.1 == old(self)@.reopening(old(self)@.toplevels[i as int].app_id@),
    {
        let reopening = self.take_reopening(i);
        let returning = self.take_saved(i);
        if let Some(s) = &returning {
            if s.detached {
                self.scene.detached_set.push(vid);
            }
        }
        (returning, reopening)
    }

    fn present_window(&mut self, i: usize, v: Visual, c: &SurfaceCommit)
        requires
            old(self)@.wf(),
            i < old(self)@.toplevels.len(),
            c.texture is Some,
        ensures
            final(self)@ == old(self)@.window_presented(i as int, v, *c),
            final(self)@.wf(),
    {
        self.toplevels[i].visual_id = Some(c.fresh);
        self.show(v, c.surface);
        let crop = c.geometry().1;
        self.order(Effect::AdoptTexture { vid: c.fresh, crop });
        self.join_here(c.fresh);
        self.fit_if_flat();
    }

    fn greet_window(&mut self, i: usize, vid: VisualId)
        requires
            i < old(self)@.toplevels.len(),
        ensures
            final(self)@ == old(self)@.window_greeted(i as int, vid),
            final(self)@.workspaces == old(self)@.workspaces,
    {
        self.app_switcher.register_visual(self.toplevels[i].app_id.as_str(), vid);
        self.set_keyboard_focus(Some(vid));
        self.order(Effect::RefreshSelection);
        self.schedule_render();
    }

    fn map_toplevel(&mut self, i: usize, c: &SurfaceCommit)
        requires
            old(self)@.wf(),
            i < old(self)@.toplevels.len(),
            c.texture is Some,
        ensures
            final(self)@ == old(self)@.toplevel_mapped(i as int, *c),
            final(self)@.wf(),
    {
        let (size, crop) = c.geometry();
        self.map_row(i, size);
        let (returning, reopening) = self.place_window(i, c);
        self.send_home(c.fresh, &returning, &reopening);
        self.greet_window(i, c.fresh);
    }

    fn answer_size(&mut self, vid: VisualId, size: (i32, i32))
        ensures
            final(self)@ == old(self)@.size_answered(vid, size),
            final(self)@.workspaces == old(self)@.workspaces,
    {
        if let CommitOutcome::Fulfilled = self.client_resizes.note_commit(vid, size) {
            self.flush_resize_desired(vid);
        }
    }

    fn update_window(&mut self, vid: VisualId, c: &SurfaceCommit)
        requires
            c.texture is Some,
        ensures
            final(self)@ == old(self)@.updated(vid, *c),
            final(self)@.workspaces == old(self)@.workspaces,
    {
        let (size, crop) = c.geometry();
        self.settle(vid, size);
        if self.scene.position(vid).is_some() {
            self.adopt(vid, size, crop);
        }
    }

    fn settle(&mut self, vid: VisualId, size: (i32, i32))
        ensures
            final(self)@ == old(self)@.settled(vid, size),
            final(self)@.workspaces == old(self)@.workspaces,
    {
        self.answer_size(vid, size);
        self.settle_maximize(vid, size);
        self.settle_fullscreen(vid, size);
    }

    fn settle_maximize(&mut self, vid: VisualId, size: (i32, i32))
        ensures
            final(self)@ == old(self)@.maximize_completed(vid, size).maximize_flushed(),
            final(self)@.workspaces == old(self)@.workspaces,
    {
        self.complete_maximize_intent(vid, size);
        self.flush_deferred_maximize();
    }

    fn settle_fullscreen(&mut self, vid: VisualId, size: (i32, i32))
        ensures
            final(self)@ == old(self)@.fullscreen_completed(vid, size).fullscreen_flushed(),
            final(self)@.workspaces == old(self)@.workspaces,
    {
        self.complete_fullscreen_intent(vid, size);
        self.flush_fullscreen_deferred();
    }

    fn x11_position(&self, surface: SurfaceId) -> (r: Option<usize>)
        ensures
            match r {
                Some(i) => i < self@.x11.len() && i == x11_surface_index(self@.x11, surface)
                    && is_x11(self@.x11, surface),
                None => !is_x11(self@.x11, surface),
            },
    {
        let mut i: usize = 0;
        while i < self.x11_windows.len()
            invariant
                i <= self.x11_windows@.len(),
                forall|j: int| 0 <= j < i ==> (#[trigger] self.x11_windows@[j]).surface != surface,
            decreases self.x11_windows@.len() - i,
        {
            if self.x11_windows[i].surface == surface {
                assert(self@.x11[i as int].surface == surface);
                proof {
                    lemma_x11_surface_index(self@.x11, surface, i as int);
                }
                return Some(i);
            }
            i = i + 1;
        }
        None
    }

    fn x11_window_visual(&self, i: usize, surface: SurfaceId) -> (r: Option<VisualId>)
        requires
            i < self@.x11.len(),
            i == x11_surface_index(self@.x11, surface),
        ensures
            r == self@.x11_window_visual(surface),
    {
        let k: usize = self.first_x11_of(self.x11_windows[i].window_id, i);
        match self.wayland_surfaces.find(self.x11_windows[k].surface) {
            Some(v) => Some(VisualId(v)),
            None => None,
        }
    }

    fn commit_x11(&mut self, i: usize, c: &SurfaceCommit)
        requires
            old(self)@.wf(),
            i < old(self)@.x11.len(),
            i == x11_surface_index(old(self)@.x11, c.surface),
            c.texture is Some,
        ensures
            final(self)@ == old(self)@.x11_committed(*c),
            final(self)@.wf(),
    {
        match self.x11_window_visual(i, c.surface) {
            Some(vid) => {
                self.update_window(vid, c);
            },
            None => {
                self.map_x11(c);
            },
        }
    }

    fn commit_popup(&mut self, i: usize, c: &SurfaceCommit)
        requires
            old(self)@.wf(),
            i < old(self)@.popups.len(),
            c.texture is Some,
        ensures
            final(self)@ == old(self)@.popup_committed(i as int, *c),
            final(self)@.wf(),
    {
        let existing = self.find_surface_visual_id(c.surface);
        match self.popups[i].lifecycle {
            SurfaceLifecycle::Mapped => {
                if let Some(vid) = existing {
                    self.update_window(vid, c);
                }
            },
            _ => {
                match existing {
                    Some(vid) => {
                        self.remap_popup(i, vid, c);
                    },
                    None => {
                        self.map_popup(i, c);
                    },
                }
            },
        }
    }

    fn commit_toplevel(&mut self, i: usize, c: &SurfaceCommit)
        requires
            old(self)@.wf(),
            i < old(self)@.toplevels.len(),
            c.texture is Some,
        ensures
            final(self)@ == old(self)@.toplevel_committed(i as int, *c),
            final(self)@.wf(),
    {
        let existing = self.toplevels[i].visual_id;
        match self.toplevels[i].lifecycle {
            SurfaceLifecycle::Mapped => {
                if let Some(vid) = existing {
                    self.update_window(vid, c);
                }
            },
            _ => {
                match existing {
                    Some(vid) => {
                        self.remap_toplevel(i, vid, c);
                    },
                    None => {
                        self.map_toplevel(i, c);
                    },
                }
            },
        }
    }

    fn is_tracked(&self, surface: SurfaceId) -> (r: bool)
        ensures
            r == self@.is_tracked(surface),
    {
        if self.x11_position(surface).is_some() {
            return true;
        }
        if let Some(i) = self.popup_position(surface) {
            return self.popups[i].lifecycle != SurfaceLifecycle::Destroyed;
        }
        match self.surface_position(surface) {
            Some(i) => self.toplevels[i].lifecycle != SurfaceLifecycle::Destroyed,
            None => false,
        }
    }

    fn import(&mut self, c: &SurfaceCommit)
        requires
            old(self)@.wf(),
            old(self)@.is_tracked(c.surface),
            c.texture is Some,
        ensures
            final(self)@ == old(self)@.imported(*c),
            final(self)@.wf(),
    {
        if let Some(i) = self.x11_position(c.surface) {
            self.commit_x11(i, c);
        } else if let Some(i) = self.popup_position(c.surface) {
            self.commit_popup(i, c);
        } else if let Some(i) = self.surface_position(c.surface) {
            self.commit_toplevel(i, c);
        }
    }

    fn commit_window(&mut self, c: &SurfaceCommit)
        requires
            old(self)@.wf(),
        ensures
            final(self)@ == old(self)@.window_committed(*c),
            final(self)@.wf(),
    {
        if !self.is_tracked(c.surface) || !c.attached || !c.backend {
            return;
        }
        if c.texture.is_some() {
            self.import(c);
        }
        self.schedule_render();
    }

    /// A commit of a surface. A first buffer shows it; later ones answer
    /// what was asked of the client and are adopted. Committed geometry
    /// always wins.
    pub fn handle_commit(&mut self, c: &SurfaceCommit)
        requires
            old(self)@.wf(),
        ensures
            final(self)@ == old(self)@.committed(*c),
            final(self)@.wf(),
    {
        match c.role {
            SurfaceRole::Subsurface { parent } => {
                self.handle_subsurface_commit(c, parent);
            },
            SurfaceRole::InputPopup => {
                self.handle_ime_popup_commit(c);
            },
            SurfaceRole::Window => {
                self.commit_window(c);
            },
        }
    }
}

} // verus!
