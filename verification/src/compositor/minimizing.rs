//! Minimizing and restoring windows.
use vstd::prelude::*;

use crate::compositor::focusing::is_window;
use crate::compositor::state::{Effect, GlassModel, LookingGlass, ToplevelInfo};
use crate::focus_history::shown_in;
use crate::fullscreen::FullscreenSource;
use crate::id_list::copy_ids;
use crate::maximize::{MaximizeSource, MinimizeSource};
use crate::scene::VisualId;

verus! {

/// The last toplevel that is minimized, or -1.
pub open spec fn last_minimized(s: Seq<ToplevelInfo>) -> int
    decreases s.len(),
{
    if s.len() == 0 {
        -1
    } else if s.last().minimized {
        s.len() - 1
    } else {
        last_minimized(s.drop_last())
    }
}

/// The visuals of windows that an arrangement leaves alone: maximized
/// and fullscreen ones are centred, minimized ones keep their pose for
/// when they come back.
pub open spec fn held_windows(s: Seq<ToplevelInfo>) -> Seq<VisualId>
    decreases s.len(),
{
    if s.len() == 0 {
        Seq::empty()
    } else {
        let t = s.last();
        let before = held_windows(s.drop_last());
        match t.visual_id {
            Some(v) if t.maximized || t.minimized || t.fullscreened => before.push(v),
            _ => before,
        }
    }
}

impl GlassModel {
    /// The visual's window can be minimized.
    pub open spec fn may_minimize(self, vid: VisualId) -> bool {
        &&& !self.minimized(vid)
        &&& !self.in_session(vid)
        &&& self.scene.has(vid)
        &&& is_window(self.toplevels, vid)
    }

    /// The window hidden: transitions in progress dropped, its state
    /// marked, and every hidden window out of the focus history.
    pub open spec fn window_hidden(self, vid: VisualId) -> GlassModel {
        let m = self.with_row(vid, ToplevelInfo { minimized: true, ..self.row(vid) });
        let scene = self.scene.hidden(vid, true);
        GlassModel {
            maximize: self.maximize.aborted(vid),
            fullscreen: self.fullscreen.aborted(vid),
            scene,
            mru: self.mru.filter(shown_in(scene)),
            ..m
        }
    }

    /// A window minimized. Focus it had goes to the most recent other
    /// window.
    pub open spec fn minimize_begun(self, vid: VisualId) -> GlassModel {
        if !self.may_minimize(vid) {
            self
        } else {
            let m = self.window_hidden(vid);
            let n = if self.scene.focused_id == Some(vid) {
                m.refocused(Some(vid))
            } else {
                m
            };
            n.ordering(Effect::ScheduleRender)
        }
    }

    /// The workspace of the visual shown, if it is on another one.
    pub open spec fn brought_into_view(self, vid: VisualId) -> GlassModel {
        match self.workspaces.home(vid) {
            Some(i) if i != self.workspaces.active => self.switched(i as int),
            _ => self,
        }
    }

    /// The window visible again, raised and focused.
    pub open spec fn window_shown(self, vid: VisualId) -> GlassModel {
        let m = if is_window(self.toplevels, vid) {
            self.with_row(vid, ToplevelInfo { minimized: false, ..self.row(vid) })
        } else {
            self
        };
        let m = GlassModel { scene: m.scene.hidden(vid, false), ..m };
        let m = m.ordering(Effect::RaiseToTop { vid });
        m.keyboard_focused(Some(vid)).ordering(Effect::ScheduleRender)
    }

    pub open spec fn minimize_restored(self, vid: VisualId) -> GlassModel {
        if self.minimized(vid) {
            self.brought_into_view(vid).window_shown(vid)
        } else {
            self
        }
    }

    /// The window that a restore without a target brings back: the one
    /// that was opened last.
    pub open spec fn restorable(self) -> Option<VisualId> {
        let i = last_minimized(self.toplevels);
        if i >= 0 {
            self.toplevels[i].visual_id
        } else {
            None
        }
    }

    /// The visual a keyboard command is about: the focused one, or else
    /// the selected one.
    pub open spec fn commanded(self) -> Option<VisualId> {
        match self.scene.focused_id {
            Some(v) => Some(v),
            None => self.scene.selected_id,
        }
    }
}

pub proof fn lemma_last_minimized(s: Seq<ToplevelInfo>, n: int)
    requires
        0 <= n <= s.len(),
        forall|j: int| n <= j < s.len() ==> !(#[trigger] s[j]).minimized,
        n > 0 ==> s[n - 1].minimized,
    ensures
        last_minimized(s) == n - 1,
    decreases s.len(),
{
    if n < s.len() {
        assert(!s[s.len() - 1].minimized);
        let rest = s.drop_last();
        assert forall|j: int| n <= j < rest.len() implies !(#[trigger] rest[j]).minimized by {
            assert(rest[j] == s[j]);
        }
        lemma_last_minimized(rest, n);
    }
}

impl LookingGlass {
    /// Minimizes a window: it is hidden from view and picking while its
    /// client lives on. Pose and workspace stay as they are.
    pub fn begin_minimize(&mut self, vid: VisualId, _source: MinimizeSource)
        requires
            old(self)@.wf(),
        ensures
            final(self)@ == old(self)@.minimize_begun(vid),
            final(self)@.wf(),
    {
        if self.is_minimized(vid) {
            return;
        }
        if let Some(s) = self.resize_session {
            if s.vid == vid {
                return;
            }
        }
        if self.scene.position(vid).is_none() {
            return;
        }
        let i: usize = match self.window_position(vid) {
            Some(i) => i,
            None => {
                return;
            },
        };
        let was_focused = self.scene.focused_id == Some(vid);
        self.maximize.abort(vid);
        self.fullscreen.abort(vid);
        self.toplevels[i].minimized = true;
        self.scene.set_minimized(vid, true);
        self.focus_history.forget_minimized(&self.scene);
        assert(self@ == old(self)@.window_hidden(vid));
        if was_focused {
            self.refocus_after_close(Some(vid));
        }
        self.schedule_render();
    }

    /// Restores a minimized window: visible at exactly the pose it had,
    /// raised and focused, with its workspace shown.
    pub fn restore_minimized(&mut self, vid: VisualId, _source: MinimizeSource)
        requires
            old(self)@.wf(),
        ensures
            final(self)@ == old(self)@.minimize_restored(vid),
            final(self)@.wf(),
    {
        if !self.is_minimized(vid) {
            return;
        }
        self.bring_into_view(vid);
        self.show_window(vid);
    }

    pub(crate) fn bring_into_view(&mut self, vid: VisualId)
        requires
            old(self)@.wf(),
        ensures
            final(self)@ == old(self)@.brought_into_view(vid),
            final(self)@.wf(),
    {
        if let Some(i) = self.workspace_for_visual(vid) {
            if i != self.workspace_manager.active_id() {
                self.switch_workspace(i);
            }
        }
    }

    fn show_window(&mut self, vid: VisualId)
        ensures
            final(self)@ == old(self)@.window_shown(vid),
            final(self)@.workspaces == old(self)@.workspaces,
    {
        if let Some(i) = self.window_position(vid) {
            self.toplevels[i].minimized = false;
        }
        self.scene.set_minimized(vid, false);
        self.order(Effect::RaiseToTop { vid });
        self.set_keyboard_focus(Some(vid));
        self.schedule_render();
    }

    /// Restores the minimized window that was opened last.
    pub fn restore_last_minimized(&mut self, source: MinimizeSource)
        requires
            old(self)@.wf(),
        ensures
            final(self)@ == match old(self)@.restorable() {
                Some(vid) => old(self)@.minimize_restored(vid),
                None => old(self)@,
            },
            final(self)@.wf(),
    {
        let mut n: usize = self.toplevels.len();
        while n > 0 && !self.toplevels[n - 1].minimized
            invariant
                n <= self.toplevels@.len(),
                forall|j: int|
                    n <= j < self.toplevels@.len() ==> !(#[trigger] self.toplevels@[j]).minimized,
            decreases n,
        {
            n = n - 1;
        }
        proof {
            lemma_last_minimized(self@.toplevels, n as int);
        }
        if n > 0 {
            if let Some(vid) = self.toplevels[n - 1].visual_id {
                self.restore_minimized(vid, source);
            }
        }
    }

    fn commanded(&self) -> (r: Option<VisualId>)
        ensures
            r == self@.commanded(),
    {
        match self.scene.focused_id {
            Some(v) => Some(v),
            None => self.scene.selected_id,
        }
    }

    /// Minimizes the focused or else the selected window.
    pub fn minimize_selected(&mut self, source: MinimizeSource)
        requires
            old(self)@.wf(),
        ensures
            final(self)@ == match old(self)@.commanded() {
                Some(vid) => old(self)@.minimize_begun(vid),
                None => old(self)@,
            },
            final(self)@.wf(),
    {
        if let Some(vid) = self.commanded() {
            self.begin_minimize(vid, source);
        }
    }

    /// Toggles maximize on the focused or else the selected window.
    pub fn toggle_maximize_selected(&mut self, source: MaximizeSource)
        ensures
            final(self)@ == match old(self)@.commanded() {
                Some(vid) => old(self)@.maximize_toggled(vid, source),
                None => old(self)@,
            },
    {
        if let Some(vid) = self.commanded() {
            self.toggle_maximize_for(vid, source);
        }
    }

    /// Toggles fullscreen on the focused or else the selected window.
    pub fn toggle_fullscreen_selected(&mut self, source: FullscreenSource)
        ensures
            final(self)@ == match old(self)@.commanded() {
                Some(vid) => old(self)@.fullscreen_toggled(vid, source),
                None => old(self)@,
            },
    {
        if let Some(vid) = self.commanded() {
            self.toggle_fullscreen_for(vid, source);
        }
    }

    /// The visuals that an arrangement must not move.
    pub fn layout_detached(&self) -> (r: Vec<VisualId>)
        ensures
            r@ == self@.scene.detached_set + held_windows(self@.toplevels),
    {
        let mut held = copy_ids(&self.scene.detached_set);
        let ghost s = self.toplevels@;
        let ghost d = self.scene.detached_set@;
        let mut i: usize = 0;
        assert(s.take(0) =~= Seq::empty());
        assert(held@ =~= d + held_windows(s.take(0)));
        while i < self.toplevels.len()
            invariant
                i <= self.toplevels@.len(),
                s == self.toplevels@,
                held@ == d + held_windows(s.take(i as int)),
            decreases self.toplevels@.len() - i,
        {
            proof {
                assert(s.take(i + 1).drop_last() =~= s.take(i as int));
                assert(s.take(i + 1).last() == s[i as int]);
            }
            let ghost before = held_windows(s.take(i as int));
            if let Some(v) = self.toplevels[i].visual_id {
                if self.toplevels[i].maximized || self.toplevels[i].minimized
                    || self.toplevels[i].fullscreened {
                    held.push(v);
                    assert((d + before).push(v) =~= d + before.push(v));
                }
            }
            i = i + 1;
        }
        assert(s.take(i as int) =~= s);
        held
    }
}

} // verus!
