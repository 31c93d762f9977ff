//! Keyboard focus: who has it, who gets it next, and what follows from it.
use vstd::prelude::*;

use crate::compositor::state::{
    next_serial_after, Effect, GlassModel, LookingGlass, PointerConstraints, SurfaceId,
    ToplevelInfo, X11Window,
};
use crate::focus_history::{
    choice_from, cycle_choice, decides, replacement_choice, scanned, touched,
};
use crate::scene::VisualId;
use crate::table::key_of;

verus! {

/// Position of the first toplevel shown by this visual, or the length.
pub open spec fn window_index(s: Seq<ToplevelInfo>, vid: VisualId) -> int
    decreases s.len(),
{
    if s.len() == 0 || s[0].visual_id == Some(vid) {
        0
    } else {
        1 + window_index(s.drop_first(), vid)
    }
}

/// Position of the first toplevel with this surface, or the length.
pub open spec fn surface_index(s: Seq<ToplevelInfo>, surface: SurfaceId) -> int
    decreases s.len(),
{
    if s.len() == 0 || s[0].surface == surface {
        0
    } else {
        1 + surface_index(s.drop_first(), surface)
    }
}

/// Some toplevel is shown by this visual.
pub open spec fn is_window(s: Seq<ToplevelInfo>, vid: VisualId) -> bool {
    window_index(s, vid) < s.len()
}

pub proof fn lemma_window_index(s: Seq<ToplevelInfo>, vid: VisualId, i: int)
    requires
        0 <= i <= s.len(),
        forall|j: int| 0 <= j < i ==> (#[trigger] s[j]).visual_id != Some(vid),
        i < s.len() ==> s[i].visual_id == Some(vid),
    ensures
        window_index(s, vid) == i,
    decreases s.len(),
{
    if i > 0 {
        assert(s[0].visual_id != Some(vid));
        let rest = s.drop_first();
        assert forall|j: int| 0 <= j < i - 1 implies (#[trigger] rest[j]).visual_id != Some(
            vid,
        ) by {
            assert(rest[j] == s[j + 1]);
        }
        lemma_window_index(rest, vid, i - 1);
    }
}

pub proof fn lemma_window_index_bounds(s: Seq<ToplevelInfo>, vid: VisualId)
    ensures
        0 <= window_index(s, vid) <= s.len(),
        window_index(s, vid) < s.len() ==> s[window_index(s, vid)].visual_id == Some(vid),
        forall|j: int|
            0 <= j < window_index(s, vid) ==> (#[trigger] s[j]).visual_id != Some(vid),
    decreases s.len(),
{
    if s.len() > 0 && s[0].visual_id != Some(vid) {
        let rest = s.drop_first();
        lemma_window_index_bounds(rest, vid);
        assert forall|j: int| 0 <= j < window_index(s, vid) implies (
        #[trigger] s[j]).visual_id != Some(vid) by {
            if j > 0 {
                assert(s[j] == rest[j - 1]);
            }
        }
    }
}

pub proof fn lemma_surface_index(s: Seq<ToplevelInfo>, surface: SurfaceId, i: int)
    requires
        0 <= i <= s.len(),
        forall|j: int| 0 <= j < i ==> (#[trigger] s[j]).surface != surface,
        i < s.len() ==> s[i].surface == surface,
    ensures
        surface_index(s, surface) == i,
    decreases s.len(),
{
    if i > 0 {
        assert(s[0].surface != surface);
        let rest = s.drop_first();
        assert forall|j: int| 0 <= j < i - 1 implies (#[trigger] rest[j]).surface != surface by {
            assert(rest[j] == s[j + 1]);
        }
        lemma_surface_index(rest, surface, i - 1);
    }
}

/// Whether the surface belongs to an X11 window.
pub open spec fn is_x11(s: Seq<X11Window>, surface: SurfaceId) -> bool {
    exists|i: int| 0 <= i < s.len() && (#[trigger] s[i]).surface == surface
}

/// Each shown X11 window is told whether it is the active one.
pub open spec fn activations(
    x11: Seq<X11Window>,
    surfaces: Seq<(u64, u64)>,
    vid: Option<VisualId>,
) -> Seq<Effect>
    decreases x11.len(),
{
    if x11.len() == 0 {
        Seq::empty()
    } else {
        let w = x11.last();
        let before = activations(x11.drop_last(), surfaces, vid);
        match key_of(surfaces, w.surface) {
            Some(k) => before.push(
                Effect::X11Activated { surface: w.surface, active: vid == Some(VisualId(k)) },
            ),
            None => before,
        }
    }
}

impl GlassModel {
    /// Every pointer constraint let go.
    pub open spec fn unlocked(self) -> GlassModel {
        let first = match self.constraints.locked_surface {
            Some(s) => self.outbox.push(Effect::DeactivateConstraint { surface: s }),
            None => self.outbox,
        };
        let second = match self.constraints.confined_surface {
            Some(s) => first.push(Effect::DeactivateConstraint { surface: s }),
            None => first,
        };
        if self.constraints.locked_surface is Some || self.constraints.confined_surface is Some {
            GlassModel {
                constraints: PointerConstraints {
                    pointer_locked: false,
                    locked_surface: None,
                    confined_surface: None,
                },
                outbox: second,
                ..self
            }
        } else {
            self
        }
    }

    /// The surface shown by a visual, if there is one.
    pub open spec fn surface_shown(self, vid: Option<VisualId>) -> Option<SurfaceId> {
        match vid {
            Some(v) => self.surface_of(v),
            None => None,
        }
    }

    /// A lock on another surface than the focused one let go.
    pub open spec fn lock_checked(self, vid: Option<VisualId>) -> GlassModel {
        let same = self.surface_shown(vid) is Some && self.constraints.locked_surface
            == self.surface_shown(vid);
        if self.constraints.pointer_locked && !same {
            self.unlocked()
        } else {
            self
        }
    }

    /// The focus history after a window took focus. Only toplevels are
    /// remembered: popups and other visuals are not applications.
    pub open spec fn remembered(self, vid: Option<VisualId>) -> GlassModel {
        match vid {
            Some(v) if is_window(self.toplevels, v) => GlassModel {
                mru: touched(self.mru, v),
                ..self
            },
            _ => self,
        }
    }

    /// The keyboard follows the focus. A visual without a surface leaves
    /// it where it is.
    pub open spec fn keyboard_sent(self, vid: Option<VisualId>) -> GlassModel {
        let serial = next_serial_after(self.input.event_serial);
        if !self.input.keyboard {
            self
        } else {
            match (vid, self.surface_shown(vid)) {
                (Some(_), Some(s)) => self.with_serial(serial).ordering(
                    Effect::KeyboardFocus { target: Some(s), x11: is_x11(self.x11, s), serial },
                ),
                (Some(_), None) => self,
                (None, _) => self.with_serial(serial).ordering(
                    Effect::KeyboardFocus { target: None, x11: false, serial },
                ),
            }
        }
    }

    /// The visual takes keyboard focus, or nobody does: the scene, the
    /// history, the keyboard, the selections, the window decorations and
    /// the X11 windows all learn of it.
    pub open spec fn keyboard_focused(self, vid: Option<VisualId>) -> GlassModel {
        let m = self.lock_checked(vid);
        let m = GlassModel { scene: m.scene.focused(vid), ..m };
        let m = m.remembered(vid).keyboard_sent(vid);
        let m = m.ordering(Effect::SelectionFocus { surface: m.surface_shown(vid) });
        GlassModel {
            scene: m.scene.chrome_marked(vid),
            outbox: m.outbox + activations(m.x11, m.surfaces, vid),
            ..m
        }
    }

    /// A window that focus may go to: on the shown workspace and visible.
    pub open spec fn focusable(self, vid: VisualId) -> bool {
        &&& self.workspaces.current().visual_ids.contains(vid)
        &&& self.scene.is_visible(vid)
        &&& !self.minimized(vid)
    }

    /// Some toplevel shown by the visual is minimized.
    pub open spec fn minimized(self, vid: VisualId) -> bool {
        exists|i: int|
            0 <= i < self.toplevels.len() && (#[trigger] self.toplevels[i]).visual_id == Some(vid)
                && self.toplevels[i].minimized
    }

    pub open spec fn maximized(self, vid: VisualId) -> bool {
        exists|i: int|
            0 <= i < self.toplevels.len() && (#[trigger] self.toplevels[i]).visual_id == Some(vid)
                && self.toplevels[i].maximized
    }

    pub open spec fn fullscreened(self, vid: VisualId) -> bool {
        exists|i: int|
            0 <= i < self.toplevels.len() && (#[trigger] self.toplevels[i]).visual_id == Some(vid)
                && self.toplevels[i].fullscreened
    }

    /// Where focus goes when a window closes or hides: the most recent
    /// other window that may have it.
    pub open spec fn replacement(self, closed: Option<VisualId>) -> Option<VisualId> {
        replacement_choice(self.mru, closed, |v: VisualId| self.focusable(v))
    }

    /// Selection and focus on the same visual.
    pub open spec fn taken_up(self, vid: Option<VisualId>) -> GlassModel {
        GlassModel { scene: self.scene.selected(vid), ..self }.keyboard_focused(vid)
    }

    /// Focus after a window closed.
    pub open spec fn refocused(self, closed: Option<VisualId>) -> GlassModel {
        self.taken_up(self.replacement(closed))
    }

    /// The window an application switch goes to.
    pub open spec fn switch_choice(self, forward: bool) -> Option<VisualId> {
        cycle_choice(
            self.mru,
            self.scene.focused_id,
            forward,
            |v: VisualId| self.focusable(v),
        )
    }

    /// Focus, then selection.
    pub open spec fn focused_and_selected(self, vid: VisualId) -> GlassModel {
        let m = self.keyboard_focused(Some(vid));
        GlassModel { scene: m.scene.selected(Some(vid)), ..m }
    }

    /// Focus moved along the history, if another window can have it.
    pub open spec fn app_switched(self, forward: bool) -> GlassModel {
        match self.switch_choice(forward) {
            Some(v) => self.focused_and_selected(v),
            None => self,
        }
    }

    /// The first window of the shown workspace that may have focus.
    pub open spec fn first_choice(self) -> Option<VisualId> {
        cycle_choice(
            self.workspaces.current().visual_ids,
            None,
            true,
            |v: VisualId| self.focusable(v),
        )
    }

    /// Focus moved along the history, or to the first window of the
    /// workspace that may have it when the history offers none.
    pub open spec fn cycled(self) -> GlassModel {
        if self.switch_choice(true) is Some {
            self.app_switched(true)
        } else {
            match self.first_choice() {
                Some(v) => self.focused_and_selected(v),
                None => self,
            }
        }
    }

    /// Focus on a visual that is gone given up.
    pub open spec fn stale_focus_cleared(self) -> GlassModel {
        match self.scene.focused_id {
            Some(v) if !self.scene.has(v) => self.keyboard_focused(None),
            _ => self,
        }
    }
}

impl LookingGlass {
    /// Index of the first toplevel shown by the visual.
    pub fn window_position(&self, vid: VisualId) -> (r: Option<usize>)
        ensures
            match r {
                Some(i) => i < self@.toplevels.len() && i == window_index(self@.toplevels, vid)
                    && self@.toplevels[i as int].visual_id == Some(vid),
                None => window_index(self@.toplevels, vid) == self@.toplevels.len(),
            },
    {
        let mut i: usize = 0;
        while i < self.toplevels.len()
            invariant
                i <= self.toplevels@.len(),
                forall|j: int|
                    0 <= j < i ==> (#[trigger] self.toplevels@[j]).visual_id != Some(vid),
            decreases self.toplevels@.len() - i,
        {
            if self.toplevels[i].visual_id == Some(vid) {
                proof {
                    lemma_window_index(self@.toplevels, vid, i as int);
                }
                return Some(i);
            }
            i = i + 1;
        }
        proof {
            lemma_window_index(self@.toplevels, vid, i as int);
        }
        None
    }

    /// Index of the first toplevel with this surface.
    pub fn surface_position(&self, surface: SurfaceId) -> (r: Option<usize>)
        ensures
            match r {
                Some(i) => i < self@.toplevels.len() && i == surface_index(
                    self@.toplevels,
                    surface,
                ) && self@.toplevels[i as int].surface == surface,
                None => surface_index(self@.toplevels, surface) == self@.toplevels.len(),
            },
    {
        let mut i: usize = 0;
        while i < self.toplevels.len()
            invariant
                i <= self.toplevels@.len(),
                forall|j: int| 0 <= j < i ==> (#[trigger] self.toplevels@[j]).surface != surface,
            decreases self.toplevels@.len() - i,
        {
            if self.toplevels[i].surface == surface {
                proof {
                    lemma_surface_index(self@.toplevels, surface, i as int);
                }
                return Some(i);
            }
            i = i + 1;
        }
        proof {
            lemma_surface_index(self@.toplevels, surface, i as int);
        }
        None
    }

    /// Whether the toplevel of the visual is minimized.
    pub fn is_minimized(&self, vid: VisualId) -> (r: bool)
        ensures
            r == self@.minimized(vid),
    {
        let mut i: usize = 0;
        while i < self.toplevels.len()
            invariant
                i <= self.toplevels@.len(),
                forall|j: int|
                    0 <= j < i ==> !((#[trigger] self.toplevels@[j]).visual_id == Some(vid)
                        && self.toplevels@[j].minimized),
            decreases self.toplevels@.len() - i,
        {
            if self.toplevels[i].visual_id == Some(vid) && self.toplevels[i].minimized {
                assert(self@.toplevels[i as int].visual_id == Some(vid));
                return true;
            }
            i = i + 1;
        }
        false
    }

    /// Whether the toplevel of the visual is maximized.
    pub fn is_maximized(&self, vid: VisualId) -> (r: bool)
        ensures
            r == self@.maximized(vid),
    {
        let mut i: usize = 0;
        while i < self.toplevels.len()
            invariant
                i <= self.toplevels@.len(),
                forall|j: int|
                    0 <= j < i ==> !((#[trigger] self.toplevels@[j]).visual_id == Some(vid)
                        && self.toplevels@[j].maximized),
            decreases self.toplevels@.len() - i,
        {
            if self.toplevels[i].visual_id == Some(vid) && self.toplevels[i].maximized {
                assert(self@.toplevels[i as int].visual_id == Some(vid));
                return true;
            }
            i = i + 1;
        }
        false
    }

    /// Whether the toplevel of the visual is fullscreen.
    pub fn is_fullscreened(&self, vid: VisualId) -> (r: bool)
        ensures
            r == self@.fullscreened(vid),
    {
        let mut i: usize = 0;
        while i < self.toplevels.len()
            invariant
                i <= self.toplevels@.len(),
                forall|j: int|
                    0 <= j < i ==> !((#[trigger] self.toplevels@[j]).visual_id == Some(vid)
                        && self.toplevels@[j].fullscreened),
            decreases self.toplevels@.len() - i,
        {
            if self.toplevels[i].visual_id == Some(vid) && self.toplevels[i].fullscreened {
                assert(self@.toplevels[i as int].visual_id == Some(vid));
                return true;
            }
            i = i + 1;
        }
        false
    }

    /// Releases every pointer constraint and deactivates its object, so
    /// that no client goes on believing it holds the pointer.
    pub fn unlock_pointer(&mut self)
        ensures
            final(self)@ == old(self)@.unlocked(),
    {
        let locked = self.pointer_constraints.locked_surface;
        let confined = self.pointer_constraints.confined_surface;
        if locked.is_none() && confined.is_none() {
            return;
        }
        if let Some(s) = locked {
            self.outbox.push(Effect::DeactivateConstraint { surface: s });
        }
        if let Some(s) = confined {
            self.outbox.push(Effect::DeactivateConstraint { surface: s });
        }
        self.pointer_constraints = PointerConstraints {
            pointer_locked: false,
            locked_surface: None,
            confined_surface: None,
        };
    }

    pub(crate) fn is_x11_surface(&self, surface: SurfaceId) -> (r: bool)
        ensures
            r == is_x11(self@.x11, surface),
    {
        let mut i: usize = 0;
        while i < self.x11_windows.len()
            invariant
                i <= self.x11_windows@.len(),
                forall|j: int| 0 <= j < i ==> (#[trigger] self.x11_windows@[j]).surface != surface,
            decreases self.x11_windows@.len() - i,
        {
            if self.x11_windows[i].surface == surface {
                assert(self@.x11[i as int].surface == surface);
                return true;
            }
            i = i + 1;
        }
        false
    }

    fn activate_x11(&mut self, vid: Option<VisualId>)
        ensures
            final(self)@ == (GlassModel {
                outbox: old(self)@.outbox + activations(old(self)@.x11, old(self)@.surfaces, vid),
                ..old(self)@
            }),
    {
        let ghost m = self@;
        let mut i: usize = 0;
        assert(m.x11.take(0) =~= Seq::empty());
        assert(m.outbox + Seq::<Effect>::empty() =~= m.outbox);
        while i < self.x11_windows.len()
            invariant
                i <= self.x11_windows@.len(),
                self@ == (GlassModel {
                    outbox: m.outbox + activations(m.x11.take(i as int), m.surfaces, vid),
                    ..m
                }),
            decreases self.x11_windows@.len() - i,
        {
            let s = self.x11_windows[i].surface;
            let ghost before = activations(m.x11.take(i as int), m.surfaces, vid);
            proof {
                assert(m.x11.take(i + 1).drop_last() =~= m.x11.take(i as int));
                assert(m.x11.take(i + 1).last() == m.x11[i as int]);
            }
            if let Some(k) = self.wayland_surfaces.find(s) {
                let active = vid == Some(VisualId(k));
                let e = Effect::X11Activated { surface: s, active };
                self.outbox.push(e);
                assert((m.outbox + before).push(e) =~= m.outbox + before.push(e));
            }
            i = i + 1;
        }
        assert(m.x11.take(i as int) =~= m.x11);
    }

    /// Gives keyboard focus to a visual, or to nobody. Everything that
    /// depends on focus changes with it, and a pointer lock of another
    /// surface is released.
    pub fn set_keyboard_focus(&mut self, vid: Option<VisualId>)
        ensures
            final(self)@ == old(self)@.keyboard_focused(vid),
    {
        let shown = match vid {
            Some(v) => self.surface_of(v),
            None => None,
        };
        if self.pointer_constraints.pointer_locked {
            let same = shown.is_some() && self.pointer_constraints.locked_surface == shown;
            if !same {
                self.unlock_pointer();
            }
        }
        assert(self@ == old(self)@.lock_checked(vid));
        self.scene.focus(vid);
        if let Some(v) = vid {
            if self.window_position(v).is_some() {
                self.focus_history.touch(v);
            }
        }
        let ghost m1 = self@;
        if self.input.keyboard {
            match vid {
                Some(v) => {
                    if let Some(s) = shown {
                        let serial: u32 = self.next_serial();
                        let x11 = self.is_x11_surface(s);
                        self.order(Effect::KeyboardFocus { target: Some(s), x11, serial });
                    }
                },
                None => {
                    let serial: u32 = self.next_serial();
                    self.order(Effect::KeyboardFocus { target: None, x11: false, serial });
                },
            }
        }
        assert(self@ == m1.keyboard_sent(vid));
        self.order(Effect::SelectionFocus { surface: shown });
        self.scene.mark_chrome(vid);
        self.activate_x11(vid);
    }

    /// Whether a visual may have focus: it is on the shown workspace and
    /// neither hidden nor minimized.
    pub(crate) fn may_have_focus(&self, v: VisualId) -> (r: bool)
        requires
            self@.wf(),
        ensures
            r == self@.focusable(v),
    {
        self.workspace_manager.active().contains(v) && self.scene.is_visible(v)
            && !self.is_minimized(v)
    }

    fn replacement_for(&self, closed: Option<VisualId>) -> (r: Option<VisualId>)
        requires
            self@.wf(),
        ensures
            r == self@.replacement(closed),
    {
        let ghost ok = |v: VisualId| self@.focusable(v);
        let f = |v: VisualId| -> (b: bool)
            ensures
                b == self@.focusable(v),
            { self.may_have_focus(v) };
        assert(decides(f, ok));
        self.focus_history.focus_replacement(closed, &f)
    }

    /// After a window went away, focus and selection move to the most
    /// recently focused other window of the workspace.
    pub fn refocus_after_close(&mut self, closed: Option<VisualId>)
        requires
            old(self)@.wf(),
        ensures
            final(self)@ == old(self)@.refocused(closed),
            final(self)@.wf(),
    {
        let replacement = self.replacement_for(closed);
        self.scene.select(replacement);
        self.set_keyboard_focus(replacement);
    }

    /// Moves focus along the history, forward to less recent windows.
    /// Only windows of the shown workspace take part. Returns whether
    /// focus moved.
    pub fn switch_app_focus(&mut self, forward: bool) -> (r: bool)
        requires
            old(self)@.wf(),
        ensures
            final(self)@ == old(self)@.app_switched(forward),
            final(self)@.wf(),
            r == (old(self)@.switch_choice(forward) is Some),
    {
        let candidate = self.switch_candidate(forward);
        match candidate {
            Some(next) => {
                self.set_keyboard_focus(Some(next));
                self.scene.select(Some(next));
                true
            },
            None => false,
        }
    }

    fn switch_candidate(&self, forward: bool) -> (r: Option<VisualId>)
        requires
            self@.wf(),
        ensures
            r == self@.switch_choice(forward),
    {
        let current = self.scene.focused_id;
        let ghost ok = |v: VisualId| self@.focusable(v);
        let f = |v: VisualId| -> (b: bool)
            ensures
                b == self@.focusable(v),
            { self.may_have_focus(v) };
        assert(decides(f, ok));
        if forward {
            self.focus_history.next_after(current, &f)
        } else {
            self.focus_history.previous_before(current, &f)
        }
    }

    /// Cycles through the windows of the shown workspace. Returns whether
    /// there is one to go to.
    pub fn cycle_visuals(&mut self) -> (r: bool)
        requires
            old(self)@.wf(),
        ensures
            final(self)@ == old(self)@.cycled(),
            final(self)@.wf(),
            r == (old(self)@.switch_choice(true) is Some || old(self)@.first_choice() is Some),
    {
        if self.switch_app_focus(true) {
            return true;
        }
        match self.first_focusable() {
            Some(next) => {
                self.set_keyboard_focus(Some(next));
                self.scene.select(Some(next));
                true
            },
            None => false,
        }
    }

    /// The first window of the shown workspace that may have focus.
    pub(crate) fn first_focusable(&self) -> (r: Option<VisualId>)
        requires
            self@.wf(),
        ensures
            r == self@.first_choice(),
    {
        let ghost ids = self@.workspaces.current().visual_ids;
        let ghost ok = |v: VisualId| self@.focusable(v);
        let w = self.workspace_manager.active();
        let mut i: usize = 0;
        while i < w.visual_ids.len()
            invariant
                i <= w.visual_ids@.len(),
                w.visual_ids@ == ids,
                ids == self@.workspaces.current().visual_ids,
                self@.wf(),
                ok == (|v: VisualId| self@.focusable(v)),
                cycle_choice(ids, None, true, ok) == choice_from(ids, None, true, ok, i as int),
            decreases w.visual_ids@.len() - i,
        {
            let v = w.visual_ids[i];
            assert(v == scanned(ids, None, true, i as int));
            if self.may_have_focus(v) {
                return Some(v);
            }
            i = i + 1;
        }
        None
    }

    /// Gives up focus on a visual that is gone. Called after every frame.
    pub fn clear_stale_focus(&mut self)
        ensures
            final(self)@ == old(self)@.stale_focus_cleared(),
    {
        if let Some(focused) = self.scene.focused_id {
            if self.scene.position(focused).is_none() {
                self.set_keyboard_focus(None);
            }
        }
    }

    /// Gives up focus and selection when the focused visual is gone.
    pub fn recover_from_destroyed_focus(&mut self)
        ensures
            final(self)@ == match old(self)@.scene.focused_id {
                Some(v) if !old(self)@.scene.has(v) => {
                    let m = old(self)@.keyboard_focused(None);
                    GlassModel { scene: m.scene.selected(None), ..m }
                },
                _ => old(self)@,
            },
    {
        if let Some(focused) = self.scene.focused_id {
            if self.scene.position(focused).is_none() {
                self.set_keyboard_focus(None);
                self.scene.select(None);
            }
        }
    }
}

} // verus!
