//! Windows and popups coming and going.
use vstd::prelude::*;

use crate::client_resize::{ack_index, requests_without, ClientResizeRequest, Serial};
use crate::app_switcher::registered;
use crate::closed::ClosedWindow;
use crate::compositor::focusing::surface_index;
use crate::compositor::state::{
    ConfigureChange, Effect, GlassModel, InputState, LookingGlass, PopupInfo, SurfaceId,
    SurfaceLifecycle, ToplevelInfo, X11Window,
};
use crate::focus::{restored, unfocused, CameraMode, FocusManager};
use crate::fullscreen::FullscreenSource;
use crate::id_list::{contains_id, remove_id, with_member, without};
use crate::maximize::{MaximizeSource, MinimizeSource};
use crate::scene::VisualId;
use crate::table::{dropped, key_of, keys_of, value_of};

verus! {

/// Position of the first popup with this surface, or the length.
pub open spec fn popup_index(s: Seq<PopupInfo>, surface: SurfaceId) -> int
    decreases s.len(),
{
    if s.len() == 0 || s[0].surface == surface {
        0
    } else {
        1 + popup_index(s.drop_first(), surface)
    }
}

pub proof fn lemma_popup_index(s: Seq<PopupInfo>, surface: SurfaceId, i: int)
    requires
        0 <= i <= s.len(),
        forall|j: int| 0 <= j < i ==> (#[trigger] s[j]).surface != surface,
        i < s.len() ==> s[i].surface == surface,
    ensures
        popup_index(s, surface) == i,
    decreases s.len(),
{
    if i > 0 {
        assert(s[0].surface != surface);
        let rest = s.drop_first();
        assert forall|j: int| 0 <= j < i - 1 implies (#[trigger] rest[j]).surface != surface by {
            assert(rest[j] == s[j + 1]);
        }
        lemma_popup_index(rest, surface, i - 1);
    }
}

/// Position of the first X11 window with this id, or the length.
pub open spec fn x11_index(s: Seq<X11Window>, window_id: u32) -> int
    decreases s.len(),
{
    if s.len() == 0 || s[0].window_id == window_id {
        0
    } else {
        1 + x11_index(s.drop_first(), window_id)
    }
}

pub proof fn lemma_x11_index(s: Seq<X11Window>, window_id: u32, i: int)
    requires
        0 <= i <= s.len(),
        forall|j: int| 0 <= j < i ==> (#[trigger] s[j]).window_id != window_id,
        i < s.len() ==> s[i].window_id == window_id,
    ensures
        x11_index(s, window_id) == i,
    decreases s.len(),
{
    if i > 0 {
        assert(s[0].window_id != window_id);
        let rest = s.drop_first();
        assert forall|j: int| 0 <= j < i - 1 implies (#[trigger] rest[j]).window_id
            != window_id by {
            assert(rest[j] == s[j + 1]);
        }
        lemma_x11_index(rest, window_id, i - 1);
    }
}

/// The popup is shown by the visual or belongs to it.
pub open spec fn hangs_on(p: PopupInfo, vid: VisualId) -> bool {
    p.visual_id == Some(vid) || p.parent_toplevel_vid == Some(vid)
}

/// The visuals of the popups that hang on a visual.
pub open spec fn hanging_visuals(s: Seq<PopupInfo>, vid: VisualId) -> Seq<VisualId>
    decreases s.len(),
{
    if s.len() == 0 {
        Seq::empty()
    } else {
        let p = s.last();
        let before = hanging_visuals(s.drop_last(), vid);
        match p.visual_id {
            Some(v) if hangs_on(p, vid) => before.push(v),
            _ => before,
        }
    }
}

/// Popups that do not hang on the visual.
pub open spec fn hangs_elsewhere(vid: VisualId) -> spec_fn(PopupInfo) -> bool {
    |p: PopupInfo| !hangs_on(p, vid)
}

/// Popups of other surfaces.
pub open spec fn of_other_surface(surface: SurfaceId) -> spec_fn(PopupInfo) -> bool {
    |p: PopupInfo| p.surface != surface
}

/// Toplevels that their clients still hold.
pub open spec fn is_alive() -> spec_fn(ToplevelInfo) -> bool {
    |t: ToplevelInfo| t.alive
}

impl GlassModel {
    /// Toplevels that their clients gave up forgotten.
    pub open spec fn swept(self) -> GlassModel {
        GlassModel { toplevels: self.toplevels.filter(is_alive()), ..self }
    }

    /// The visual of a surface: of a toplevel, else of a popup, else as
    /// the surfaces are shown.
    pub open spec fn visual_of_surface(self, surface: SurfaceId) -> Option<VisualId> {
        let t = surface_index(self.toplevels, surface);
        let p = popup_index(self.popups, surface);
        if t < self.toplevels.len() && self.toplevels[t].visual_id is Some {
            self.toplevels[t].visual_id
        } else if p < self.popups.len() && self.popups[p].visual_id is Some {
            self.popups[p].visual_id
        } else {
            match key_of(self.surfaces, surface) {
                Some(k) => Some(VisualId(k)),
                None => None,
            }
        }
    }

    /// The visual of the first X11 window with this id.
    pub open spec fn x11_visual(self, window_id: u32) -> Option<VisualId> {
        let i = x11_index(self.x11, window_id);
        if i < self.x11.len() {
            self.visual_of_surface(self.x11[i].surface)
        } else {
            None
        }
    }

    /// The visual of the parent of a popup: of the first toplevel or else
    /// popup with that surface.
    pub open spec fn parent_visual(self, parent: Option<SurfaceId>) -> Option<VisualId> {
        match parent {
            None => None,
            Some(s) => {
                let t = surface_index(self.toplevels, s);
                let p = popup_index(self.popups, s);
                if t < self.toplevels.len() {
                    self.toplevels[t].visual_id
                } else if p < self.popups.len() {
                    self.popups[p].visual_id
                } else {
                    None
                }
            },
        }
    }

    /// The visual no longer shows any surface, anywhere.
    pub open spec fn unshown(self, vid: VisualId) -> GlassModel {
        GlassModel {
            scene: self.scene.removed(vid),
            surfaces: dropped(self.surfaces, vid.0),
            workspaces: self.workspaces.left_everywhere(vid),
            ..self
        }
    }

    /// A drag of the visual ended.
    pub open spec fn drag_of_ended(self, vid: VisualId) -> GlassModel {
        if self.input.dragging == Some(vid) {
            self.drag_ended()
        } else {
            self
        }
    }

    /// A popup's visual gone, and the selection with it.
    pub open spec fn popup_unshown(self, vid: VisualId) -> GlassModel {
        let m = self.unshown(vid);
        GlassModel {
            sinks: without(m.sinks, vid),
            scene: if m.scene.selected_id == Some(vid) {
                m.scene.selected(None)
            } else {
                m.scene
            },
            ..m
        }.drag_of_ended(vid)
    }

    pub open spec fn popups_unshown(self, ids: Seq<VisualId>) -> GlassModel
        decreases ids.len(),
    {
        if ids.len() == 0 {
            self
        } else {
            self.popups_unshown(ids.drop_last()).popup_unshown(ids.last())
        }
    }

    /// The popups that hang on a visual gone with it.
    pub open spec fn popups_cleaned(self, vid: VisualId) -> GlassModel {
        let m = self.popups_unshown(hanging_visuals(self.popups, vid));
        GlassModel { popups: m.popups.filter(hangs_elsewhere(vid)), ..m }
    }

    /// A subsurface's visual gone.
    pub open spec fn subsurface_unshown(self, surface: SurfaceId) -> GlassModel {
        let m = GlassModel {
            subsurface_parents: dropped(self.subsurface_parents, surface),
            ..self
        };
        match value_of(self.subsurfaces, surface) {
            Some(v) => {
                let n = m.unshown(VisualId(v));
                GlassModel { subsurfaces: dropped(n.subsurfaces, surface), ..n }.ordering(
                    Effect::ScheduleRender,
                )
            },
            None => m,
        }
    }

    pub open spec fn subsurfaces_unshown(self, surfaces: Seq<u64>) -> GlassModel
        decreases surfaces.len(),
    {
        if surfaces.len() == 0 {
            self
        } else {
            self.subsurfaces_unshown(surfaces.drop_last()).subsurface_unshown(surfaces.last())
        }
    }

    /// The subsurfaces of a surface gone with it.
    pub open spec fn subsurfaces_cleaned(self, parent: SurfaceId) -> GlassModel {
        self.subsurfaces_unshown(keys_of(self.subsurface_parents, parent))
    }

    /// The subsurfaces of the visual's surface gone with it.
    pub open spec fn children_cleaned(self, vid: VisualId) -> GlassModel {
        match self.surface_of(vid) {
            Some(s) => self.subsurfaces_cleaned(s),
            None => self,
        }
    }

    /// The window withdrawn from docks and taskbars.
    pub open spec fn withdrawn(self, vid: VisualId) -> GlassModel {
        if self.announced.contains(vid) {
            GlassModel { announced: without(self.announced, vid), ..self }.ordering(
                Effect::WithdrawWindow { vid },
            )
        } else {
            self
        }
    }

    /// Everything the compositor was doing with the visual given up.
    pub open spec fn undertakings_dropped(self, vid: VisualId) -> GlassModel {
        GlassModel {
            resizes: requests_without(self.resizes, vid),
            maximize: self.maximize.aborted(vid),
            fullscreen: self.fullscreen.aborted(vid),
            mru: without(self.mru, vid),
            resize_session: if self.in_session(vid) {
                None
            } else {
                self.resize_session
            },
            ..self
        }
    }

    /// The camera no longer follows the visual.
    pub open spec fn camera_freed(self, vid: VisualId) -> GlassModel {
        if self.focus_manager.focus_target == Some(vid) {
            GlassModel {
                camera: restored(self.focus_manager, self.camera),
                focus_manager: unfocused(),
                ..self
            }
        } else if self.focus_manager.camera_mode == CameraMode::Focus(vid) {
            GlassModel {
                focus_manager: FocusManager {
                    camera_mode: CameraMode::Normal,
                    transition: None,
                    ..self.focus_manager
                },
                ..self
            }
        } else {
            self
        }
    }

    /// The visual gone for good, and everything that mentions it.
    pub open spec fn erased(self, vid: VisualId) -> GlassModel {
        let m = self.popups_cleaned(vid).children_cleaned(vid).withdrawn(vid);
        let m = m.undertakings_dropped(vid).unshown(vid);
        let m = GlassModel { sinks: without(m.sinks, vid), ..m }.drag_of_ended(vid);
        let m = if m.scene.selected_id == Some(vid) {
            GlassModel { scene: m.scene.selected(None), ..m }
        } else {
            m
        };
        let m = m.camera_freed(vid);
        GlassModel { scene: m.scene.ungrouped_everywhere(vid), ..m }
    }

    /// The client drag-and-drop, if any, cancelled.
    pub open spec fn dnd_cancelled(self) -> GlassModel {
        if self.input.dnd_active {
            GlassModel { input: InputState { dnd_active: false, ..self.input }, ..self }.ordering(
                Effect::UnsetGrab,
            ).ordering(Effect::ScheduleRender)
        } else {
            self
        }
    }

    /// A closed window remembered with its pose and workspace.
    pub open spec fn tombstoned(self, row: ToplevelInfo, vid: VisualId, now: u64) -> GlassModel {
        if self.scene.has(vid) {
            GlassModel {
                closed: self.closed.recorded(
                    ClosedWindow {
                        app_id: row.app_id,
                        title: row.title,
                        workspace: match self.workspaces.home(vid) {
                            Some(i) => i,
                            None => self.workspaces.active as usize,
                        },
                        transform: self.scene.visual(vid).transform,
                        closed_at_ms: now,
                    },
                ),
                ..self
            }
        } else {
            self
        }
    }

    /// A constraint of the surface let go.
    pub open spec fn constraint_dropped(self, surface: SurfaceId) -> GlassModel {
        if self.constraints.locked_surface == Some(surface) || self.constraints.confined_surface
            == Some(surface) {
            self.unlocked()
        } else {
            self
        }
    }

    /// The window of a destroyed toplevel gone: remembered as closed,
    /// erased, and focus it had moved on.
    pub open spec fn window_closed(self, row: ToplevelInfo, vid: VisualId, now: u64) -> GlassModel {
        let m = GlassModel {
            resizes: requests_without(self.resizes, vid),
            maximize: self.maximize.aborted(vid),
            ..self
        }.tombstoned(row, vid, now);
        let m = GlassModel { shelved: without(m.shelved, vid), ..m }.erased(vid);
        if self.scene.focused_id == Some(vid) || self.scene.selected_id == Some(vid) {
            m.refocused(Some(vid))
        } else {
            m
        }
    }

    /// A toplevel destroyed. `participates` says whether the drag-and-
    /// drop in progress started on the surface or is over it.
    pub open spec fn toplevel_gone(
        self,
        surface: SurfaceId,
        participates: bool,
        now: u64,
    ) -> GlassModel {
        let i = surface_index(self.toplevels, surface);
        if i < self.toplevels.len() {
            let row = self.toplevels[i];
            let m = GlassModel {
                toplevels: self.toplevels.remove(i),
                ..self
            }.constraint_dropped(surface);
            let m = if participates {
                m.dnd_cancelled()
            } else {
                m
            };
            match row.visual_id {
                Some(vid) => m.window_closed(row, vid, now),
                None => m,
            }
        } else {
            self
        }
    }

    /// An X11 window's visual gone.
    pub open spec fn x11_unshown(self, vid: VisualId) -> GlassModel {
        let m = self.children_cleaned(vid).withdrawn(vid).unshown(vid);
        let m = GlassModel { sinks: without(m.sinks, vid), mru: without(m.mru, vid), ..m };
        let m = if m.scene.focused_id == Some(vid) {
            m.refocused(Some(vid))
        } else {
            m
        };
        let m = if m.scene.selected_id == Some(vid) {
            GlassModel { scene: m.scene.selected(None), ..m }
        } else {
            m
        };
        m.drag_of_ended(vid).ordering(Effect::ScheduleRender)
    }

    /// The text of a window changed: its decorations and whoever lists
    /// windows are told.
    pub open spec fn relettered(self, vid: VisualId) -> GlassModel {
        let m = if self.scene.has(vid) {
            self.ordering(Effect::LetterChrome { vid })
        } else {
            self
        };
        if m.announced.contains(vid) {
            m.ordering(Effect::UpdateWindow { vid })
        } else {
            m
        }
    }

    /// The title and application of a toplevel as its client states them.
    pub open spec fn named(self, i: int, title: String, app_id: String) -> GlassModel {
        GlassModel {
            toplevels: self.toplevels.update(
                i,
                ToplevelInfo { title, app_id, ..self.toplevels[i] },
            ),
            ..self
        }
    }

    /// The visual of the toplevel with this surface.
    pub open spec fn toplevel_visual(self, surface: SurfaceId) -> Option<VisualId> {
        let i = surface_index(self.toplevels, surface);
        if i < self.toplevels.len() {
            self.toplevels[i].visual_id
        } else {
            None
        }
    }

    /// A popup destroyed.
    pub open spec fn popup_gone(self, surface: SurfaceId) -> GlassModel {
        let i = popup_index(self.popups, surface);
        if i < self.popups.len() {
            let m = GlassModel { popups: self.popups.remove(i), ..self };
            match self.popups[i].visual_id {
                Some(vid) => m.popup_unshown(vid),
                None => m,
            }
        } else {
            self
        }
    }

    /// A configure acknowledged; `outstanding` says whether the client
    /// still owes another acknowledgement.
    pub open spec fn acknowledged(
        self,
        surface: SurfaceId,
        serial: Serial,
        outstanding: bool,
    ) -> GlassModel {
        let k = ack_index(self.resizes, serial);
        let m = GlassModel {
            resizes: if k < self.resizes.len() {
                self.resizes.update(
                    k,
                    ClientResizeRequest { acknowledged: true, ..self.resizes[k] },
                )
            } else {
                self.resizes
            },
            ..self
        };
        let i = surface_index(self.toplevels, surface);
        if i < self.toplevels.len() {
            let n = GlassModel {
                toplevels: self.toplevels.update(
                    i,
                    ToplevelInfo { owes_ack: outstanding, ..self.toplevels[i] },
                ),
                ..m
            };
            match self.toplevels[i].visual_id {
                Some(vid) => n.desire_flushed(vid).maximize_flushed().fullscreen_flushed(),
                None => n,
            }
        } else {
            m
        }
    }
}

impl LookingGlass {
    /// Forgets the toplevels that their clients gave up.
    pub fn cleanup(&mut self)
        ensures
            final(self)@ == old(self)@.swept(),
    {
        let ghost s = self.toplevels@;
        let ghost p = is_alive();
        let mut kept: Vec<ToplevelInfo> = Vec::new();
        let mut rest: Vec<ToplevelInfo> = Vec::new();
        std::mem::swap(&mut rest, &mut self.toplevels);
        let ghost mut n: int = 0;
        while rest.len() > 0
            invariant
                0 <= n <= s.len(),
                rest@ == s.skip(n),
                p == is_alive(),
                kept@ == s.take(n).filter(p),
            decreases rest@.len(),
        {
            let t = rest.remove(0);
            proof {
                reveal(Seq::filter);
                assert(s.take(n + 1).drop_last() =~= s.take(n));
                assert(s.take(n + 1).last() == t);
                assert(s.skip(n).remove(0) =~= s.skip(n + 1));
                n = n + 1;
            }
            if t.alive {
                kept.push(t);
            }
        }
        assert(s.take(n) =~= s);
        self.toplevels = kept;
    }

    pub(crate) fn popup_position(&self, surface: SurfaceId) -> (r: Option<usize>)
        ensures
            match r {
                Some(i) => i < self@.popups.len() && i == popup_index(self@.popups, surface),
                None => popup_index(self@.popups, surface) == self@.popups.len(),
            },
    {
        let mut i: usize = 0;
        while i < self.popups.len()
            invariant
                i <= self.popups@.len(),
                forall|j: int| 0 <= j < i ==> (#[trigger] self.popups@[j]).surface != surface,
            decreases self.popups@.len() - i,
        {
            if self.popups[i].surface == surface {
                proof {
                    lemma_popup_index(self@.popups, surface, i as int);
                }
                return Some(i);
            }
            i = i + 1;
        }
        proof {
            lemma_popup_index(self@.popups, surface, i as int);
        }
        None
    }

    /// The visual of any tracked surface.
    pub fn find_vid_for_surface(&self, surface: SurfaceId) -> (r: Option<VisualId>)
        ensures
            r == self@.visual_of_surface(surface),
    {
        if let Some(i) = self.surface_position(surface) {
            if let Some(v) = self.toplevels[i].visual_id {
                return Some(v);
            }
        }
        if let Some(i) = self.popup_position(surface) {
            if let Some(v) = self.popups[i].visual_id {
                return Some(v);
            }
        }
        match self.wayland_surfaces.find(surface) {
            Some(k) => Some(VisualId(k)),
            None => None,
        }
    }

    /// The visual of the first toplevel, or else popup, with the surface.
    pub fn find_surface_visual_id(&self, surface: SurfaceId) -> (r: Option<VisualId>)
        ensures
            r == self@.parent_visual(Some(surface)),
    {
        if let Some(i) = self.surface_position(surface) {
            return self.toplevels[i].visual_id;
        }
        match self.popup_position(surface) {
            Some(i) => self.popups[i].visual_id,
            None => None,
        }
    }

    /// Index of the first X11 window with this id, the `i`th being one.
    pub(crate) fn first_x11_of(&self, window_id: u32, i: usize) -> (r: usize)
        requires
            i < self@.x11.len(),
            self@.x11[i as int].window_id == window_id,
        ensures
            r < self@.x11.len(),
            r == x11_index(self@.x11, window_id),
    {
        let mut k: usize = 0;
        while k < i
            invariant
                k <= i < self.x11_windows@.len(),
                self@.x11[i as int].window_id == window_id,
                forall|j: int|
                    0 <= j < k ==> (#[trigger] self.x11_windows@[j]).window_id != window_id,
            decreases i - k,
        {
            if self.x11_windows[k].window_id == window_id {
                proof {
                    lemma_x11_index(self@.x11, window_id, k as int);
                }
                return k;
            }
            k = k + 1;
        }
        proof {
            lemma_x11_index(self@.x11, window_id, k as int);
        }
        k
    }

    /// The visual of an X11 window.
    pub fn x11_visual_for(&self, window_id: u32) -> (r: Option<VisualId>)
        ensures
            r == self@.x11_visual(window_id),
    {
        let mut i: usize = 0;
        while i < self.x11_windows.len()
            invariant
                i <= self.x11_windows@.len(),
                forall|j: int|
                    0 <= j < i ==> (#[trigger] self.x11_windows@[j]).window_id != window_id,
            decreases self.x11_windows@.len() - i,
        {
            if self.x11_windows[i].window_id == window_id {
                proof {
                    lemma_x11_index(self@.x11, window_id, i as int);
                }
                return self.find_vid_for_surface(self.x11_windows[i].surface);
            }
            i = i + 1;
        }
        proof {
            lemma_x11_index(self@.x11, window_id, i as int);
        }
        None
    }

    /// A new toplevel: it gets its first configure.
    pub fn new_toplevel(&mut self, surface: SurfaceId, app_id: String, title: String)
        ensures
            final(self)@ == ({
                let m = old(self)@.swept();
                GlassModel {
                    toplevels: m.toplevels.push(
                        ToplevelInfo {
                            surface,
                            alive: true,
                            owes_ack: false,
                            app_id,
                            title,
                            visual_id: None,
                            lifecycle: SurfaceLifecycle::Configured,
                            size: None,
                            maximized: false,
                            minimized: false,
                            fullscreened: false,
                            restore_size: None,
                            restore_pose: None,
                            fullscreen_snapshot: None,
                        },
                    ),
                    ..m
                }.configured(m.toplevels.len() as int, None, ConfigureChange::Initial)
            }),
    {
        self.cleanup();
        let i: usize = self.toplevels.len();
        self.toplevels.push(
            ToplevelInfo {
                surface,
                alive: true,
                owes_ack: false,
                app_id,
                title,
                visual_id: None,
                lifecycle: SurfaceLifecycle::Configured,
                size: None,
                maximized: false,
                minimized: false,
                fullscreened: false,
                restore_size: None,
                restore_pose: None,
                fullscreen_snapshot: None,
            },
        );
        self.send_configure(i, None, ConfigureChange::Initial);
    }

    /// A new popup of a parent surface.
    pub fn new_popup(&mut self, surface: SurfaceId, parent: Option<SurfaceId>)
        ensures
            final(self)@ == (GlassModel {
                popups: old(self)@.popups.push(
                    PopupInfo {
                        surface,
                        parent_toplevel_vid: old(self)@.parent_visual(parent),
                        visual_id: None,
                        lifecycle: SurfaceLifecycle::Created,
                        size: None,
                    },
                ),
                ..old(self)@
            }),
    {
        let parent_toplevel_vid = match parent {
            Some(s) => self.find_surface_visual_id(s),
            None => None,
        };
        self.popups.push(
            PopupInfo {
                surface,
                parent_toplevel_vid,
                visual_id: None,
                lifecycle: SurfaceLifecycle::Created,
                size: None,
            },
        );
    }

    pub(crate) fn unshow(&mut self, vid: VisualId)
        ensures
            final(self)@ == old(self)@.unshown(vid),
    {
        self.scene.remove(vid);
        self.wayland_surfaces.remove(vid.0);
        self.workspace_manager.leave_everywhere(vid);
    }

    fn end_drag_of(&mut self, vid: VisualId)
        ensures
            final(self)@ == old(self)@.drag_of_ended(vid),
    {
        if self.input.dragging == Some(vid) {
            self.end_drag();
        }
    }

    /// Drops what presents a popup. The visual and its place in the
    /// workspaces go together with the surface.
    fn remove_popup_visual(&mut self, vid: VisualId)
        ensures
            final(self)@ == old(self)@.popup_unshown(vid),
    {
        self.unshow(vid);
        remove_id(&mut self.input_sinks, vid);
        if self.scene.selected_id == Some(vid) {
            self.scene.select(None);
        }
        self.end_drag_of(vid);
    }

    fn hanging_visuals(&self, vid: VisualId) -> (r: Vec<VisualId>)
        ensures
            r@ == hanging_visuals(self@.popups, vid),
    {
        let ghost s = self.popups@;
        let mut out: Vec<VisualId> = Vec::new();
        let mut i: usize = 0;
        assert(s.take(0) =~= Seq::empty());
        while i < self.popups.len()
            invariant
                i <= self.popups@.len(),
                s == self.popups@,
                out@ == hanging_visuals(s.take(i as int), vid),
            decreases self.popups@.len() - i,
        {
            let p = self.popups[i];
            proof {
                assert(s.take(i + 1).drop_last() =~= s.take(i as int));
                assert(s.take(i + 1).last() == p);
            }
            if let Some(v) = p.visual_id {
                if v == vid || p.parent_toplevel_vid == Some(vid) {
                    out.push(v);
                }
            }
            i = i + 1;
        }
        assert(s.take(i as int) =~= s);
        out
    }

    fn unshow_popups(&mut self, ids: &Vec<VisualId>)
        ensures
            final(self)@ == old(self)@.popups_unshown(ids@),
    {
        let ghost m = self@;
        let ghost s = ids@;
        let mut i: usize = 0;
        assert(s.take(0) =~= Seq::empty());
        while i < ids.len()
            invariant
                i <= ids@.len(),
                s == ids@,
                self@ == m.popups_unshown(s.take(i as int)),
            decreases ids@.len() - i,
        {
            proof {
                assert(s.take(i + 1).drop_last() =~= s.take(i as int));
                assert(s.take(i + 1).last() == s[i as int]);
            }
            self.remove_popup_visual(ids[i]);
            i = i + 1;
        }
        assert(s.take(i as int) =~= s);
    }

    /// Drops the popups that the visual shows or that belong to it.
    fn cleanup_popups_by_vid(&mut self, vid: VisualId)
        ensures
            final(self)@ == old(self)@.popups_cleaned(vid),
    {
        let ids = self.hanging_visuals(vid);
        self.unshow_popups(&ids);
        let ghost before = self@;
        let ghost s = self.popups@;
        let ghost p = hangs_elsewhere(vid);
        let mut kept: Vec<PopupInfo> = Vec::new();
        let mut i: usize = 0;
        while i < self.popups.len()
            invariant
                i <= self.popups@.len(),
                self@ == before,
                self.popups@ == s,
                p == hangs_elsewhere(vid),
                kept@ == s.take(i as int).filter(p),
            decreases self.popups@.len() - i,
        {
            let info = self.popups[i];
            proof {
                reveal(Seq::filter);
                assert(s.take(i + 1).drop_last() =~= s.take(i as int));
                assert(s.take(i + 1).last() == info);
            }
            if info.visual_id != Some(vid) && info.parent_toplevel_vid != Some(vid) {
                kept.push(info);
            }
            i = i + 1;
        }
        assert(s.take(i as int) =~= s);
        self.popups = kept;
    }

    /// Drops the visual of a subsurface. The surface itself lives on.
    pub fn remove_subsurface_visual(&mut self, surface: SurfaceId)
        ensures
            final(self)@ == old(self)@.subsurface_unshown(surface),
    {
        self.subsurface_parents.remove(surface);
        if let Some(v) = self.subsurface_visuals.get(surface) {
            self.subsurface_visuals.remove(surface);
            self.unshow(VisualId(v));
            self.schedule_render();
        }
    }

    /// Drops the visuals of every subsurface of a surface.
    pub fn remove_subsurfaces_of(&mut self, parent: SurfaceId)
        ensures
            final(self)@ == old(self)@.subsurfaces_cleaned(parent),
            old(self)@.wf() ==> final(self)@.wf(),
    {
        proof {
            lemma_subsurfaces_unshown_keep_workspaces(
                self@,
                keys_of(self@.subsurface_parents, parent),
            );
        }
        let children = self.subsurface_parents.keys_with(parent);
        let ghost m = self@;
        let ghost s = children@;
        let mut i: usize = 0;
        assert(s.take(0) =~= Seq::empty());
        while i < children.len()
            invariant
                i <= children@.len(),
                s == children@,
                self@ == m.subsurfaces_unshown(s.take(i as int)),
            decreases children@.len() - i,
        {
            proof {
                assert(s.take(i + 1).drop_last() =~= s.take(i as int));
                assert(s.take(i + 1).last() == s[i as int]);
            }
            self.remove_subsurface_visual(children[i]);
            i = i + 1;
        }
        assert(s.take(i as int) =~= s);
    }

    fn remove_children(&mut self, vid: VisualId)
        ensures
            final(self)@ == old(self)@.children_cleaned(vid),
    {
        if let Some(s) = self.surface_of(vid) {
            self.remove_subsurfaces_of(s);
        }
    }

    /// Announces a window to docks and taskbars.
    pub fn register_foreign_toplevel(&mut self, vid: VisualId)
        ensures
            final(self)@ == (GlassModel {
                announced: with_member(old(self)@.announced, vid),
                ..old(self)@
            }).ordering(Effect::PublishWindow { vid }),
    {
        crate::id_list::add_id(&mut self.foreign_toplevels, vid);
        self.order(Effect::PublishWindow { vid });
    }

    /// Tells docks and taskbars that a window's text changed.
    pub fn update_foreign_toplevel(&mut self, vid: VisualId)
        ensures
            final(self)@ == if old(self)@.announced.contains(vid) {
                old(self)@.ordering(Effect::UpdateWindow { vid })
            } else {
                old(self)@
            },
    {
        if contains_id(&self.foreign_toplevels, vid) {
            self.order(Effect::UpdateWindow { vid });
        }
    }

    /// Withdraws a window from docks and taskbars.
    pub fn unregister_foreign_toplevel(&mut self, vid: VisualId)
        ensures
            final(self)@ == old(self)@.withdrawn(vid),
    {
        if contains_id(&self.foreign_toplevels, vid) {
            remove_id(&mut self.foreign_toplevels, vid);
            self.order(Effect::WithdrawWindow { vid });
        }
    }

    fn drop_undertakings(&mut self, vid: VisualId)
        ensures
            final(self)@ == old(self)@.undertakings_dropped(vid),
    {
        self.client_resizes.abort(vid);
        self.maximize.abort(vid);
        self.fullscreen.abort(vid);
        self.focus_history.remove(vid);
        if let Some(s) = self.resize_session {
            if s.vid == vid {
                self.resize_session = None;
            }
        }
    }

    fn free_camera(&mut self, vid: VisualId)
        ensures
            final(self)@ == old(self)@.camera_freed(vid),
    {
        if self.focus_manager.focus_target == Some(vid) {
            let mut cam = self.camera;
            self.focus_manager.exit(&mut cam);
            self.camera = cam;
        }
        let follows = match self.focus_manager.camera_mode {
            CameraMode::Focus(t) => t == vid,
            _ => false,
        };
        if follows {
            self.focus_manager.camera_mode = CameraMode::Normal;
            self.focus_manager.transition = None;
        }
    }

    /// Removes every trace of a visual: from the workspaces, the focus,
    /// the interactions, the camera and the scene, and its popups and
    /// subsurfaces with it.
    pub fn cleanup_visual_permanently(&mut self, vid: VisualId)
        ensures
            final(self)@ == old(self)@.erased(vid),
            old(self)@.wf() ==> final(self)@.wf(),
    {
        proof {
            lemma_erased_keeps_workspaces(self@, vid);
        }
        self.cleanup_popups_by_vid(vid);
        self.remove_children(vid);
        self.unregister_foreign_toplevel(vid);
        self.drop_undertakings(vid);
        self.unshow(vid);
        remove_id(&mut self.input_sinks, vid);
        self.end_drag_of(vid);
        if self.scene.selected_id == Some(vid) {
            self.scene.select(None);
        }
        self.free_camera(vid);
        self.scene.remove_from_all_groups(vid);
    }

    /// Cancels a client drag-and-drop in progress.
    pub fn cancel_dnd_grab(&mut self)
        ensures
            final(self)@ == old(self)@.dnd_cancelled(),
    {
        if !self.input.dnd_active {
            return;
        }
        self.input.dnd_active = false;
        self.order(Effect::UnsetGrab);
        self.schedule_render();
    }

    fn close_window(&mut self, row: ToplevelInfo, vid: VisualId, now: u64)
        requires
            old(self)@.wf(),
        ensures
            final(self)@ == old(self)@.window_closed(row, vid, now),
            final(self)@.wf(),
    {
        let was_focused = self.scene.focused_id == Some(vid) || self.scene.selected_id == Some(vid);
        self.client_resizes.abort(vid);
        self.maximize.abort(vid);
        if let Some(v) = self.scene.get(vid) {
            let workspace: usize = match self.workspace_for_visual(vid) {
                Some(i) => i,
                None => self.workspace_manager.active_id(),
            };
            self.closed_windows.record(
                ClosedWindow {
                    app_id: row.app_id,
                    title: row.title,
                    workspace,
                    transform: v.transform,
                    closed_at_ms: now,
                },
            );
        }
        remove_id(&mut self.shelved, vid);
        proof {
            lemma_erased_keeps_workspaces(self@, vid);
        }
        self.cleanup_visual_permanently(vid);
        if was_focused {
            self.refocus_after_close(Some(vid));
        }
    }

    /// A toplevel was destroyed. `participates` says whether the drag-
    /// and-drop in progress started on it or is over it, `now` when it
    /// happened.
    pub fn toplevel_destroyed(&mut self, surface: SurfaceId, participates: bool, now: u64)
        requires
            old(self)@.wf(),
        ensures
            final(self)@ == old(self)@.toplevel_gone(surface, participates, now),
            final(self)@.wf(),
    {
        if let Some(i) = self.surface_position(surface) {
            let row = self.toplevels.remove(i);
            let locked = self.pointer_constraints.locked_surface == Some(surface);
            if locked || self.pointer_constraints.confined_surface == Some(surface) {
                self.unlock_pointer();
            }
            if participates {
                self.cancel_dnd_grab();
            }
            if let Some(vid) = row.visual_id {
                self.close_window(row, vid, now);
            }
        }
    }

    /// A popup was destroyed.
    pub fn popup_destroyed(&mut self, surface: SurfaceId)
        ensures
            final(self)@ == old(self)@.popup_gone(surface),
    {
        if let Some(i) = self.popup_position(surface) {
            let info = self.popups.remove(i);
            if let Some(vid) = info.visual_id {
                self.remove_popup_visual(vid);
            }
        }
    }

    /// Removes the visual of an X11 window that was unmapped.
    pub fn destroy_x11_visual(&mut self, vid: VisualId)
        requires
            old(self)@.wf(),
        ensures
            final(self)@ == old(self)@.x11_unshown(vid),
            final(self)@.wf(),
    {
        proof {
            lemma_children_cleaned_keeps_workspaces(self@, vid);
        }
        self.remove_children(vid);
        self.unregister_foreign_toplevel(vid);
        self.unshow(vid);
        remove_id(&mut self.input_sinks, vid);
        self.focus_history.remove(vid);
        if self.scene.focused_id == Some(vid) {
            self.refocus_after_close(Some(vid));
        }
        if self.scene.selected_id == Some(vid) {
            self.scene.select(None);
        }
        self.end_drag_of(vid);
        self.schedule_render();
    }

    /// A client acknowledged the configure with this serial;
    /// `outstanding` says whether it still owes another acknowledgement.
    /// What was waiting for it goes ahead.
    pub fn ack_configure(&mut self, surface: SurfaceId, serial: Serial, outstanding: bool)
        ensures
            final(self)@ == old(self)@.acknowledged(surface, serial, outstanding),
    {
        self.client_resizes.note_ack(serial);
        if let Some(i) = self.surface_position(surface) {
            self.toplevels[i].owes_ack = outstanding;
            if let Some(vid) = self.toplevels[i].visual_id {
                self.flush_resize_desired(vid);
                self.flush_deferred_maximize();
                self.flush_fullscreen_deferred();
            }
        }
    }

    fn reletter(&mut self, vid: VisualId)
        ensures
            final(self)@ == old(self)@.relettered(vid),
    {
        if self.scene.position(vid).is_some() {
            self.order(Effect::LetterChrome { vid });
        }
        self.update_foreign_toplevel(vid);
    }

    /// A client changed a title; both texts are as it states them now.
    pub fn title_changed(&mut self, surface: SurfaceId, title: String, app_id: String)
        ensures
            final(self)@ == ({
                let i = surface_index(old(self)@.toplevels, surface);
                if i < old(self)@.toplevels.len() {
                    let row = old(self)@.toplevels[i];
                    let m = old(self)@.named(i, title, app_id);
                    match row.visual_id {
                        Some(vid) if row.title@ != title@ => m.relettered(vid),
                        _ => m,
                    }
                } else {
                    old(self)@
                }
            }),
    {
        if let Some(i) = self.surface_position(surface) {
            let same = self.toplevels[i].title == title;
            self.toplevels[i].title = title;
            self.toplevels[i].app_id = app_id;
            if same {
                return;
            }
            if let Some(vid) = self.toplevels[i].visual_id {
                self.reletter(vid);
            }
        }
    }

    /// A client changed its application id; both texts are as it states
    /// them now. The application is registered for switching.
    pub fn app_id_changed(&mut self, surface: SurfaceId, title: String, app_id: String)
        ensures
            final(self)@ == ({
                let i = surface_index(old(self)@.toplevels, surface);
                if i < old(self)@.toplevels.len() {
                    let row = old(self)@.toplevels[i];
                    let m = old(self)@.named(i, title, app_id);
                    match row.visual_id {
                        Some(vid) if row.app_id@ != app_id@ => (GlassModel {
                            apps: registered(m.apps, app_id@),
                            ..m
                        }).relettered(vid),
                        _ => m,
                    }
                } else {
                    old(self)@
                }
            }),
    {
        if let Some(i) = self.surface_position(surface) {
            let same = self.toplevels[i].app_id == app_id;
            let ghost text = app_id@;
            self.toplevels[i].title = title;
            self.toplevels[i].app_id = app_id;
            if same {
                return;
            }
            if let Some(vid) = self.toplevels[i].visual_id {
                self.app_switcher.register_visual(self.toplevels[i].app_id.as_str(), vid);
                self.reletter(vid);
            }
        }
    }

    fn toplevel_visual(&self, surface: SurfaceId) -> (r: Option<VisualId>)
        ensures
            r == self@.toplevel_visual(surface),
    {
        match self.surface_position(surface) {
            Some(i) => self.toplevels[i].visual_id,
            None => None,
        }
    }

    /// A client asks to be fullscreen; ignored before it is shown.
    pub fn fullscreen_request(&mut self, surface: SurfaceId)
        ensures
            final(self)@ == match old(self)@.toplevel_visual(surface) {
                Some(vid) => old(self)@.fullscreen_begun(vid, FullscreenSource::Client),
                None => old(self)@,
            },
    {
        if let Some(vid) = self.toplevel_visual(surface) {
            self.begin_fullscreen(vid, FullscreenSource::Client);
        }
    }

    /// A client asks to leave fullscreen.
    pub fn unfullscreen_request(&mut self, surface: SurfaceId)
        ensures
            final(self)@ == match old(self)@.toplevel_visual(surface) {
                Some(vid) => old(self)@.unfullscreen_begun(vid, FullscreenSource::Client),
                None => old(self)@,
            },
    {
        if let Some(vid) = self.toplevel_visual(surface) {
            self.begin_unfullscreen(vid, FullscreenSource::Client);
        }
    }

    /// A client asks to be minimized.
    pub fn minimize_request(&mut self, surface: SurfaceId)
        requires
            old(self)@.wf(),
        ensures
            final(self)@ == match old(self)@.toplevel_visual(surface) {
                Some(vid) => old(self)@.minimize_begun(vid),
                None => old(self)@,
            },
            final(self)@.wf(),
    {
        if let Some(vid) = self.toplevel_visual(surface) {
            self.begin_minimize(vid, MinimizeSource::Client);
        }
    }

    /// A client asks to be maximized; ignored before it is shown.
    pub fn maximize_request(&mut self, surface: SurfaceId)
        ensures
            final(self)@ == match old(self)@.toplevel_visual(surface) {
                Some(vid) => old(self)@.maximize_begun(vid, MaximizeSource::Client),
                None => old(self)@,
            },
    {
        if let Some(vid) = self.toplevel_visual(surface) {
            self.begin_maximize(vid, MaximizeSource::Client);
        }
    }

    /// A client asks to be unmaximized.
    pub fn unmaximize_request(&mut self, surface: SurfaceId)
        ensures
            final(self)@ == match old(self)@.toplevel_visual(surface) {
                Some(vid) => old(self)@.unmaximize_begun(vid, MaximizeSource::Client),
                None => old(self)@,
            },
    {
        if let Some(vid) = self.toplevel_visual(surface) {
            self.begin_unmaximize(vid, MaximizeSource::Client);
        }
    }

    /// A client drag-and-drop began: no window drag runs beside it.
    pub fn dnd_started(&mut self)
        ensures
            final(self)@ == ({
                let m = old(self)@.drag_ended();
                (GlassModel {
                    input: InputState { dnd_active: true, ..m.input },
                    ..m
                }).ordering(Effect::ScheduleRender)
            }),
    {
        self.end_drag();
        self.input.dnd_active = true;
        self.schedule_render();
    }

    /// A client drag-and-drop ended.
    pub fn dnd_dropped(&mut self)
        ensures
            final(self)@ == (GlassModel {
                input: InputState { dnd_active: false, ..old(self)@.input },
                ..old(self)@
            }).ordering(Effect::ScheduleRender),
    {
        self.input.dnd_active = false;
        self.schedule_render();
    }

    /// Cancels any drag of a window or of a client.
    pub fn cancel_interaction(&mut self)
        ensures
            final(self)@ == old(self)@.drag_ended().dnd_cancelled(),
    {
        self.end_drag();
        self.cancel_dnd_grab();
    }
}

pub proof fn lemma_children_cleaned_keeps_workspaces(m: GlassModel, vid: VisualId)
    ensures
        same_workspaces(m.children_cleaned(vid), m),
{
    if let Some(s) = m.surface_of(vid) {
        lemma_subsurfaces_unshown_keep_workspaces(m, keys_of(m.subsurface_parents, s));
    }
}

/// The same workspaces, the same one shown; only membership may differ.
pub open spec fn same_workspaces(a: GlassModel, b: GlassModel) -> bool {
    a.workspaces.active == b.workspaces.active && a.workspaces.all.len() == b.workspaces.all.len()
}

proof fn lemma_popups_unshown_keep_workspaces(m: GlassModel, ids: Seq<VisualId>)
    ensures
        same_workspaces(m.popups_unshown(ids), m),
        m.popups_unshown(ids).popups == m.popups,
    decreases ids.len(),
{
    if ids.len() > 0 {
        lemma_popups_unshown_keep_workspaces(m, ids.drop_last());
    }
}

proof fn lemma_subsurfaces_unshown_keep_workspaces(m: GlassModel, surfaces: Seq<u64>)
    ensures
        same_workspaces(m.subsurfaces_unshown(surfaces), m),
    decreases surfaces.len(),
{
    if surfaces.len() > 0 {
        lemma_subsurfaces_unshown_keep_workspaces(m, surfaces.drop_last());
    }
}

pub proof fn lemma_erased_keeps_workspaces(m: GlassModel, vid: VisualId)
    ensures
        same_workspaces(m.erased(vid), m),
{
    lemma_popups_unshown_keep_workspaces(m, hanging_visuals(m.popups, vid));
    let n = m.popups_cleaned(vid);
    if let Some(s) = n.surface_of(vid) {
        lemma_subsurfaces_unshown_keep_workspaces(n, keys_of(n.subsurface_parents, s));
    }
}

} // verus!
