//! What the taskbar shows: a button for every window on every workspace,
//! and the first applications of the launcher. Pure projection of the
//! compositor's state; the order never jumps when a window is chosen.
use vstd::prelude::*;

use crate::compositor::focusing::{lemma_window_index_bounds, window_index};
use crate::compositor::keyboard::LaunchEntry;
use crate::compositor::state::{GlassModel, LookingGlass};
use crate::scene::VisualId;
use crate::text::{trim, trimmed, Margin};

verus! {

/// Launcher entries that the taskbar pins.
pub const TASKBAR_PINS: usize = 4;

/// The button of one window.
#[derive(Debug)]
pub struct TaskbarButton {
    pub vid: VisualId,
    pub label: String,
    pub focused: bool,
    pub minimized: bool,
    /// The workspace the window lives on.
    pub workspace: usize,
}

/// The button of one window, as a mathematical value.
pub ghost struct ButtonModel {
    pub vid: VisualId,
    pub label: Seq<char>,
    pub focused: bool,
    pub minimized: bool,
    pub workspace: usize,
}

impl View for TaskbarButton {
    type V = ButtonModel;

    open spec fn view(&self) -> ButtonModel {
        ButtonModel {
            vid: self.vid,
            label: self.label@,
            focused: self.focused,
            minimized: self.minimized,
            workspace: self.workspace,
        }
    }
}

/// The buttons' values.
pub open spec fn buttons_of(s: Seq<TaskbarButton>) -> Seq<ButtonModel> {
    s.map_values(|b: TaskbarButton| b@)
}

impl GlassModel {
    /// Whether the visual is a window of an application.
    pub open spec fn is_window(self, vid: VisualId) -> bool {
        window_index(self.toplevels, vid) < self.toplevels.len()
    }

    /// A window goes by its title, or without one by its application.
    pub open spec fn window_label(self, vid: VisualId) -> Seq<char> {
        let row = self.toplevels[window_index(self.toplevels, vid)];
        let title = trimmed(row.title@, Margin::Blanks);
        if title.len() > 0 {
            title
        } else {
            row.app_id@
        }
    }

    pub open spec fn button(self, vid: VisualId, workspace: int) -> ButtonModel {
        ButtonModel {
            vid,
            label: self.window_label(vid),
            focused: self.scene.focused_id == Some(vid),
            minimized: self.minimized(vid),
            workspace: workspace as usize,
        }
    }

    /// Buttons of the first `k` members of workspace `i`.
    pub open spec fn buttons_in(self, i: int, k: int) -> Seq<ButtonModel>
        decreases k,
    {
        if k <= 0 {
            Seq::empty()
        } else {
            let vid = self.workspaces.all[i].visual_ids[k - 1];
            if self.is_window(vid) {
                self.buttons_in(i, k - 1).push(self.button(vid, i))
            } else {
                self.buttons_in(i, k - 1)
            }
        }
    }

    /// Buttons of the first `n` workspaces, in the order in which windows
    /// joined them.
    pub open spec fn buttons_upto(self, n: int) -> Seq<ButtonModel>
        decreases n,
    {
        if n <= 0 {
            Seq::empty()
        } else {
            self.buttons_upto(n - 1) + self.buttons_in(
                n - 1,
                self.workspaces.all[n - 1].visual_ids.len() as int,
            )
        }
    }

    /// The taskbar's window buttons.
    pub open spec fn taskbar(self) -> Seq<ButtonModel> {
        self.buttons_upto(self.workspaces.all.len() as int)
    }
}

/// The launcher entries that are pinned.
pub open spec fn pinned(n: nat) -> nat {
    if n < TASKBAR_PINS {
        n
    } else {
        TASKBAR_PINS as nat
    }
}

/// The launcher's pins: the position and name of its first entries.
pub fn taskbar_pins(entries: &Vec<LaunchEntry>) -> (r: Vec<(usize, String)>)
    ensures
        r@.len() == pinned(entries@.len()),
        forall|i: int|
            0 <= i < r@.len() ==> (#[trigger] r@[i]).0 == i && r@[i].1@ == entries@[i].name@,
{
    let mut out: Vec<(usize, String)> = Vec::new();
    let mut i: usize = 0;
    while i < entries.len() && i < TASKBAR_PINS
        invariant
            i <= entries@.len(),
            i <= TASKBAR_PINS,
            out@.len() == i,
            forall|j: int|
                0 <= j < i ==> (#[trigger] out@[j]).0 == j && out@[j].1@ == entries@[j].name@,
        decreases entries@.len() - i,
    {
        out.push((i, entries[i].name.clone()));
        i = i + 1;
    }
    out
}

impl LookingGlass {
    fn window_label(&self, i: usize) -> (r: String)
        requires
            i < self@.toplevels.len(),
        ensures
            r@ == {
                let title = trimmed(self@.toplevels[i as int].title@, Margin::Blanks);
                if title.len() > 0 {
                    title
                } else {
                    self@.toplevels[i as int].app_id@
                }
            },
    {
        let title = trim(self.toplevels[i].title.as_str(), Margin::Blanks);
        if title.is_empty() {
            self.toplevels[i].app_id.clone()
        } else {
            title.to_owned()
        }
    }

    fn add_buttons(&self, i: usize, out: &mut Vec<TaskbarButton>)
        requires
            i < self@.workspaces.all.len(),
        ensures
            buttons_of(final(out)@) == buttons_of(old(out)@) + self@.buttons_in(
                i as int,
                self@.workspaces.all[i as int].visual_ids.len() as int,
            ),
    {
        let ws = &self.workspace_manager.workspaces[i];
        let mut k: usize = 0;
        assert(ws@ == self@.workspaces.all[i as int]);
        assert(buttons_of(out@) + self@.buttons_in(i as int, 0) =~= buttons_of(old(out)@));
        while k < ws.visual_ids.len()
            invariant
                k <= ws.visual_ids@.len(),
                ws@ == self@.workspaces.all[i as int],
                buttons_of(out@) == buttons_of(old(out)@) + self@.buttons_in(i as int, k as int),
            decreases ws.visual_ids@.len() - k,
        {
            let vid = ws.visual_ids[k];
            assert(vid == self@.workspaces.all[i as int].visual_ids[k as int]);
            proof {
                lemma_window_index_bounds(self@.toplevels, vid);
            }
            if let Some(row) = self.window_position(vid) {
                let focused = match self.scene.focused_id {
                    Some(f) => f == vid,
                    None => false,
                };
                let b = TaskbarButton {
                    vid,
                    label: self.window_label(row),
                    focused,
                    minimized: self.is_minimized(vid),
                    workspace: i,
                };
                let ghost before = out@;
                out.push(b);
                assert(buttons_of(out@) =~= buttons_of(before).push(b@));
                assert(b@ == self@.button(vid, i as int));
            }
            k = k + 1;
            assert(buttons_of(out@) =~= buttons_of(old(out)@) + self@.buttons_in(
                i as int,
                k as int,
            ));
        }
    }

    /// The taskbar's window buttons.
    pub fn build_taskbar(&self) -> (r: Vec<TaskbarButton>)
        ensures
            buttons_of(r@) == self@.taskbar(),
    {
        let mut out: Vec<TaskbarButton> = Vec::new();
        let n: usize = self.workspace_manager.workspaces.len();
        let mut i: usize = 0;
        assert(n == self@.workspaces.all.len());
        assert(buttons_of(out@) =~= self@.buttons_upto(0));
        while i < n
            invariant
                i <= n,
                n == self@.workspaces.all.len(),
                buttons_of(out@) == self@.buttons_upto(i as int),
            decreases n - i,
        {
            self.add_buttons(i, &mut out);
            i = i + 1;
        }
        out
    }
}

proof fn lemma_buttons_in(m: GlassModel, i: int, k: int, at: int)
    requires
        0 <= at < k <= m.workspaces.all[i].visual_ids.len(),
        m.is_window(m.workspaces.all[i].visual_ids[at]),
    ensures
        m.buttons_in(i, k).contains(m.button(m.workspaces.all[i].visual_ids[at], i)),
    decreases k,
{
    let b = m.button(m.workspaces.all[i].visual_ids[at], i);
    if at == k - 1 {
        assert(m.buttons_in(i, k).last() == b);
    } else {
        lemma_buttons_in(m, i, k - 1, at);
        let earlier = m.buttons_in(i, k - 1);
        let j = choose|j: int| 0 <= j < earlier.len() && earlier[j] == b;
        assert(m.buttons_in(i, k)[j] == b);
    }
}

proof fn lemma_buttons_upto(m: GlassModel, n: int, i: int, b: ButtonModel)
    requires
        0 <= i < n,
        m.buttons_in(i, m.workspaces.all[i].visual_ids.len() as int).contains(b),
    ensures
        m.buttons_upto(n).contains(b),
    decreases n,
{
    let ids = m.workspaces.all[n - 1].visual_ids.len() as int;
    let earlier = m.buttons_upto(n - 1);
    let here = m.buttons_in(n - 1, ids);
    if i == n - 1 {
        let j = choose|j: int| 0 <= j < here.len() && here[j] == b;
        assert(m.buttons_upto(n)[earlier.len() + j] == b);
    } else {
        lemma_buttons_upto(m, n - 1, i, b);
        let j = choose|j: int| 0 <= j < earlier.len() && earlier[j] == b;
        assert(m.buttons_upto(n)[j] == b);
    }
}

/// Every window on every workspace has its button.
pub proof fn law_every_window_has_a_button(m: GlassModel, i: int, vid: VisualId)
    requires
        0 <= i < m.workspaces.all.len(),
        m.workspaces.all[i].visual_ids.contains(vid),
        m.is_window(vid),
    ensures
        m.taskbar().contains(m.button(vid, i)),
{
    let ids = m.workspaces.all[i].visual_ids;
    let at = choose|at: int| 0 <= at < ids.len() && ids[at] == vid;
    lemma_buttons_in(m, i, ids.len() as int, at);
    lemma_buttons_upto(m, m.workspaces.all.len() as int, i, m.button(vid, i));
}

proof fn lemma_focus_keeps_buttons(m: GlassModel, focus: Option<VisualId>, n: int)
    ensures
        ({
            let other = GlassModel {
                scene: crate::scene::SceneModel { focused_id: focus, ..m.scene },
                ..m
            };
            &&& other.buttons_upto(n).len() == m.buttons_upto(n).len()
            &&& forall|j: int|
                0 <= j < m.buttons_upto(n).len() ==> (#[trigger] other.buttons_upto(n)[j]).vid
                    == m.buttons_upto(n)[j].vid
        }),
    decreases n,
{
    if n > 0 {
        lemma_focus_keeps_buttons(m, focus, n - 1);
        lemma_focus_keeps_members(
            m,
            focus,
            n - 1,
            m.workspaces.all[n - 1].visual_ids.len() as int,
        );
    }
}

proof fn lemma_focus_keeps_members(m: GlassModel, focus: Option<VisualId>, i: int, k: int)
    ensures
        ({
            let other = GlassModel {
                scene: crate::scene::SceneModel { focused_id: focus, ..m.scene },
                ..m
            };
            &&& other.buttons_in(i, k).len() == m.buttons_in(i, k).len()
            &&& forall|j: int|
                0 <= j < m.buttons_in(i, k).len() ==> (#[trigger] other.buttons_in(i, k)[j]).vid
                    == m.buttons_in(i, k)[j].vid
        }),
    decreases k,
{
    if k > 0 {
        lemma_focus_keeps_members(m, focus, i, k - 1);
    }
}

/// Focusing another window moves no button.
pub proof fn law_focus_moves_no_button(m: GlassModel, focus: Option<VisualId>, j: int)
    requires
        0 <= j < m.taskbar().len(),
    ensures
        ({
            let other = GlassModel {
                scene: crate::scene::SceneModel { focused_id: focus, ..m.scene },
                ..m
            };
            other.taskbar().len() == m.taskbar().len() && other.taskbar()[j].vid
                == m.taskbar()[j].vid
        }),
{
    lemma_focus_keeps_buttons(m, focus, m.workspaces.all.len() as int);
}

} // verus!
