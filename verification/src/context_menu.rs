//! The right-click menu of a window.
use vstd::prelude::*;

use crate::scene::VisualId;

verus! {

#[derive(Debug, Clone, Copy, PartialEq, Eq, Structural)]
pub enum MenuAction {
    Focus,
    Arrange,
    MoveToWorkspace(usize),
    Group,
    Ungroup,
    DeEmphasize,
    Restore,
    ResetTransform,
    Maximize,
    Fullscreen,
    Minimize,
    Close,
    Dismiss,
}

#[derive(Debug)]
pub struct MenuItem {
    pub label: String,
    pub action: MenuAction,
}

impl View for MenuItem {
    type V = (Seq<char>, MenuAction);

    open spec fn view(&self) -> (Seq<char>, MenuAction) {
        (self.label@, self.action)
    }
}

impl MenuItem {
    pub fn new(label: &str, action: MenuAction) -> (r: Self)
        ensures
            r@ == (label@, action),
    {
        MenuItem { label: label.to_owned(), action }
    }
}

/// The bit pattern of an IEEE double: a screen coordinate.
pub type Coordinate = u64;

#[derive(Debug)]
pub struct ContextMenu {
    pub visible: bool,
    pub position: (Coordinate, Coordinate),
    pub target: Option<VisualId>,
    pub items: Vec<MenuItem>,
    pub selected: Option<usize>,
}

/// The menu, as a mathematical value.
#[verifier::ext_equal]
pub ghost struct MenuModel {
    pub visible: bool,
    pub position: (Coordinate, Coordinate),
    pub target: Option<VisualId>,
    pub items: Seq<(Seq<char>, MenuAction)>,
    pub selected: Option<usize>,
}

impl View for ContextMenu {
    type V = MenuModel;

    open spec fn view(&self) -> MenuModel {
        MenuModel {
            visible: self.visible,
            position: self.position,
            target: self.target,
            items: self.items@.map_values(|i: MenuItem| i@),
            selected: self.selected,
        }
    }
}

/// The entries of a window's menu, top to bottom.
pub open spec fn window_entries() -> Seq<(Seq<char>, MenuAction)> {
    seq![
        ("Focus"@, MenuAction::Focus),
        ("Arrange"@, MenuAction::Arrange),
        ("Move to Workspace ▸"@, MenuAction::MoveToWorkspace(0)),
        ("Group"@, MenuAction::Group),
        ("Ungroup"@, MenuAction::Ungroup),
        ("De-emphasize"@, MenuAction::DeEmphasize),
        ("Restore"@, MenuAction::Restore),
        ("Reset Transform"@, MenuAction::ResetTransform),
        ("Maximize"@, MenuAction::Maximize),
        ("Fullscreen"@, MenuAction::Fullscreen),
        ("Minimize"@, MenuAction::Minimize),
        ("Close"@, MenuAction::Close),
    ]
}

/// Position of the first entry with this action, or the length.
pub open spec fn action_index(s: Seq<(Seq<char>, MenuAction)>, a: MenuAction) -> int
    decreases s.len(),
{
    if s.len() == 0 || s[0].1 == a {
        0
    } else {
        1 + action_index(s.drop_first(), a)
    }
}

pub proof fn lemma_action_index(s: Seq<(Seq<char>, MenuAction)>, a: MenuAction, i: int)
    requires
        0 <= i <= s.len(),
        forall|j: int| 0 <= j < i ==> (#[trigger] s[j]).1 != a,
        i < s.len() ==> s[i].1 == a,
    ensures
        action_index(s, a) == i,
    decreases s.len(),
{
    if i > 0 {
        assert(s[0].1 != a);
        let rest = s.drop_first();
        assert forall|j: int| 0 <= j < i - 1 implies (#[trigger] rest[j]).1 != a by {
            assert(rest[j] == s[j + 1]);
        }
        lemma_action_index(rest, a, i - 1);
    }
}

impl MenuModel {
    pub open spec fn empty() -> MenuModel {
        MenuModel {
            visible: false,
            position: (0, 0),
            target: None,
            items: Seq::empty(),
            selected: None,
        }
    }

    pub open spec fn shown(self, x: Coordinate, y: Coordinate, target: VisualId) -> MenuModel {
        MenuModel {
            visible: true,
            position: (x, y),
            target: Some(target),
            items: window_entries(),
            selected: None,
        }
    }

    pub open spec fn dismissed(self) -> MenuModel {
        MenuModel {
            visible: false,
            target: None,
            selected: None,
            items: Seq::empty(),
            ..self
        }
    }

    /// With the first maximize entry renamed for a maximized window.
    pub open spec fn labelled(self, maximized: bool) -> MenuModel {
        let i = action_index(self.items, MenuAction::Maximize);
        if maximized && i < self.items.len() {
            MenuModel {
                items: self.items.update(i, ("Restore size"@, self.items[i].1)),
                ..self
            }
        } else {
            self
        }
    }

    /// One entry further down, wrapping; the first one from nothing.
    pub open spec fn next(self) -> MenuModel {
        if !self.visible || self.items.len() == 0 {
            self
        } else {
            MenuModel {
                selected: match self.selected {
                    None => Some(0),
                    Some(i) => Some(((i + 1) % self.items.len() as int) as usize),
                },
                ..self
            }
        }
    }

    /// One entry further up, wrapping; the last one from nothing.
    pub open spec fn prev(self) -> MenuModel {
        if !self.visible || self.items.len() == 0 {
            self
        } else {
            MenuModel {
                selected: match self.selected {
                    None => Some((self.items.len() - 1) as usize),
                    Some(i) => Some(((i + self.items.len() - 1) % self.items.len() as int) as usize),
                },
                ..self
            }
        }
    }

    /// The action of the selected entry.
    pub open spec fn choice(self) -> Option<MenuAction> {
        match self.selected {
            Some(i) if i < self.items.len() => Some(self.items[i as int].1),
            _ => None,
        }
    }
}

impl ContextMenu {
    pub fn new() -> (r: Self)
        ensures
            r@ == MenuModel::empty(),
    {
        let r = ContextMenu {
            visible: false,
            position: (0, 0),
            target: None,
            items: Vec::new(),
            selected: None,
        };
        assert(r@ =~= MenuModel::empty());
        r
    }

    /// Show the context menu at the given screen position for the given visual.
    pub fn show(&mut self, x: Coordinate, y: Coordinate, target: VisualId, _workspace_count: usize)
        ensures
            final(self)@ == old(self)@.shown(x, y, target),
    {
        self.visible = true;
        self.position = (x, y);
        self.target = Some(target);
        self.selected = None;
        let mut items: Vec<MenuItem> = Vec::new();
        items.push(MenuItem::new("Focus", MenuAction::Focus));
        items.push(MenuItem::new("Arrange", MenuAction::Arrange));
        items.push(MenuItem::new("Move to Workspace ▸", MenuAction::MoveToWorkspace(0)));
        items.push(MenuItem::new("Group", MenuAction::Group));
        items.push(MenuItem::new("Ungroup", MenuAction::Ungroup));
        items.push(MenuItem::new("De-emphasize", MenuAction::DeEmphasize));
        items.push(MenuItem::new("Restore", MenuAction::Restore));
        items.push(MenuItem::new("Reset Transform", MenuAction::ResetTransform));
        items.push(MenuItem::new("Maximize", MenuAction::Maximize));
        items.push(MenuItem::new("Fullscreen", MenuAction::Fullscreen));
        items.push(MenuItem::new("Minimize", MenuAction::Minimize));
        items.push(MenuItem::new("Close", MenuAction::Close));
        self.items = items;
        assert(self@.items =~= window_entries());
    }

    pub fn dismiss(&mut self)
        ensures
            final(self)@ == old(self)@.dismissed(),
    {
        self.visible = false;
        self.target = None;
        self.selected = None;
        self.items.clear();
        assert(self@ =~= old(self)@.dismissed());
    }

    /// Rename the maximize entry for an already-maximized target.
    pub fn set_maximize_label(&mut self, maximized: bool)
        ensures
            final(self)@ == old(self)@.labelled(maximized),
    {
        if !maximized {
            return ;
        }
        let mut i: usize = 0;
        while i < self.items.len()
            invariant
                i <= self.items@.len(),
                *self == *old(self),
                maximized,
                forall|j: int| 0 <= j < i ==> (#[trigger] self@.items[j]).1 != MenuAction::Maximize,
            decreases self.items@.len() - i,
        {
            if self.items[i].action == MenuAction::Maximize {
                proof {
                    lemma_action_index(self@.items, MenuAction::Maximize, i as int);
                }
                let renamed = MenuItem::new("Restore size", MenuAction::Maximize);
                self.items.set(i, renamed);
                proof {
                    assert(self@.items =~= old(self)@.items.update(i as int, renamed@));
                }
                return ;
            }
            i = i + 1;
        }
        proof {
            lemma_action_index(self@.items, MenuAction::Maximize, i as int);
        }
    }

    /// Whether a hit within the menu's rectangle hits the menu.
    pub fn hit_test(&self, within: bool) -> (r: bool)
        ensures
            r == (self@.visible && within),
    {
        self.visible && within
    }

    /// The entry in the given row of a hit within the menu's rectangle.
    pub fn item_at(&self, within: bool, row: usize) -> (r: Option<usize>)
        ensures
            r == if self@.visible && within && row < self@.items.len() {
                Some(row)
            } else {
                None
            },
    {
        if !self.hit_test(within) {
            return None;
        }
        if row < self.items.len() {
            Some(row)
        } else {
            None
        }
    }

    /// Select the next item in the menu (down arrow).
    pub fn select_next(&mut self)
        ensures
            final(self)@ == old(self)@.next(),
    {
        let n: usize = self.items.len();
        if !self.visible || n == 0 {
            return ;
        }
        let next: usize = match self.selected {
            None => 0,
            Some(current) => {
                let c: usize = current % n;
                proof {
                    lemma_next_mod(current as int, n as int);
                }
                if c + 1 == n {
                    0
                } else {
                    c + 1
                }
            },
        };
        self.selected = Some(next);
    }

    /// Select the previous item in the menu (up arrow).
    pub fn select_prev(&mut self)
        ensures
            final(self)@ == old(self)@.prev(),
    {
        let n: usize = self.items.len();
        if !self.visible || n == 0 {
            return ;
        }
        let prev: usize = match self.selected {
            None => n - 1,
            Some(current) => {
                let c: usize = current % n;
                proof {
                    lemma_prev_mod(current as int, n as int);
                }
                if c == 0 {
                    n - 1
                } else {
                    c - 1
                }
            },
        };
        self.selected = Some(prev);
    }

    /// Confirm the current selection and return the action.
    pub fn confirm_selection(&self) -> (r: Option<MenuAction>)
        ensures
            r == self@.choice(),
    {
        match self.selected {
            Some(i) => {
                if i < self.items.len() {
                    Some(self.items[i].action)
                } else {
                    None
                }
            },
            None => None,
        }
    }
}

proof fn lemma_next_mod(current: int, n: int)
    requires
        0 <= current,
        n > 0,
    ensures
        (current + 1) % n == if current % n + 1 == n {
            0
        } else {
            current % n + 1
        },
{
    vstd::arithmetic::div_mod::lemma_add_mod_noop(current, 1, n);
    if n == 1 {
        vstd::arithmetic::div_mod::lemma_mod_bound(current + 1, n);
        vstd::arithmetic::div_mod::lemma_mod_bound(current, n);
    } else {
        vstd::arithmetic::div_mod::lemma_small_mod(1, n as nat);
        vstd::arithmetic::div_mod::lemma_mod_bound(current, n);
        if current % n + 1 == n {
            vstd::arithmetic::div_mod::lemma_mod_self_0(n);
        } else {
            vstd::arithmetic::div_mod::lemma_small_mod((current % n + 1) as nat, n as nat);
        }
    }
}

proof fn lemma_prev_mod(current: int, n: int)
    requires
        0 <= current,
        n > 0,
    ensures
        (current + n - 1) % n == if current % n == 0 {
            n - 1
        } else {
            current % n - 1
        },
{
    vstd::arithmetic::div_mod::lemma_add_mod_noop(current, n - 1, n);
    vstd::arithmetic::div_mod::lemma_mod_bound(current, n);
    vstd::arithmetic::div_mod::lemma_small_mod((n - 1) as nat, n as nat);
    let c = current % n;
    if c == 0 {
        vstd::arithmetic::div_mod::lemma_small_mod((n - 1) as nat, n as nat);
    } else {
        vstd::arithmetic::div_mod::lemma_mod_add_multiples_vanish(c - 1, n);
        vstd::arithmetic::div_mod::lemma_small_mod((c - 1) as nat, n as nat);
    }
}

impl Default for ContextMenu {
    fn default() -> (r: Self)
        ensures
            r@ == MenuModel::empty(),
    {
        ContextMenu::new()
    }
}

/// Moving down and then up (or up and then down) from a selected entry
/// comes back to it.
pub proof fn law_next_and_prev_undo_each_other(m: MenuModel)
    requires
        m.visible,
        m.items.len() <= usize::MAX,
        m.selected matches Some(i) && i < m.items.len(),
    ensures
        m.next().prev() == m,
        m.prev().next() == m,
{
    let i = m.selected->0 as int;
    let n = m.items.len() as int;
    vstd::arithmetic::div_mod::lemma_small_mod(i as nat, n as nat);
    lemma_next_mod(i, n);
    lemma_prev_mod(i, n);
    let up = (i + 1) % n;
    let down = (i + n - 1) % n;
    vstd::arithmetic::div_mod::lemma_mod_bound(i + 1, n);
    vstd::arithmetic::div_mod::lemma_mod_bound(i + n - 1, n);
    vstd::arithmetic::div_mod::lemma_small_mod(up as nat, n as nat);
    vstd::arithmetic::div_mod::lemma_small_mod(down as nat, n as nat);
    lemma_prev_mod(up, n);
    lemma_next_mod(down, n);
}

/// A dismissed menu offers nothing: it is hidden, without entries and
/// without a choice.
pub proof fn law_dismissed_menu_offers_nothing(m: MenuModel)
    ensures
        !m.dismissed().visible,
        m.dismissed().target is None,
        m.dismissed().items.len() == 0,
        m.dismissed().choice() is None,
{
}

/// A step down from an entry goes to the next one and from the last to the
/// first; a step up goes the other way; from nothing the first step goes
/// to the near end.
pub proof fn law_menu_steps(m: MenuModel, i: usize)
    requires
        m.visible,
        0 < m.items.len() <= usize::MAX,
        i < m.items.len(),
    ensures
        m.selected is None ==> m.next().selected == Some(0usize),
        m.selected is None ==> (m.prev().selected matches Some(j) && j == m.items.len() - 1),
        m.selected == Some(i) ==> (m.next().selected matches Some(j) && j == if i + 1
            == m.items.len() {
            0
        } else {
            i + 1
        }),
        m.selected == Some(i) ==> (m.prev().selected matches Some(j) && j == if i == 0 {
            m.items.len() - 1
        } else {
            i - 1
        }),
        m.next().items == m.items,
        m.prev().items == m.items,
        m.next().target == m.target,
        m.prev().target == m.target,
{
    let n = m.items.len() as int;
    vstd::arithmetic::div_mod::lemma_small_mod(i as nat, n as nat);
    lemma_next_mod(i as int, n);
    lemma_prev_mod(i as int, n);
}

/// The selected entry is the one that is chosen.
pub proof fn law_choice_is_the_selected_entry(m: MenuModel, i: usize)
    requires
        i < m.items.len(),
    ensures
        m.selected == Some(i) ==> m.choice() == Some(m.items[i as int].1),
        m.selected is None ==> m.choice() is None,
{
}

/// A menu is shown for its target where it was asked for, with an entry
/// for everything that can be done with a window, each under its own name.
pub proof fn law_shown_menu_offers_all(m: MenuModel, x: Coordinate, y: Coordinate, target: VisualId)
    ensures
        ({
            let n = m.shown(x, y, target);
            &&& n.visible
            &&& n.position.0 == x
            &&& n.position.1 == y
            &&& n.target == Some(target)
            &&& n.selected is None
            &&& n.items.len() == 12
            &&& n.items[0] == ("Focus"@, MenuAction::Focus)
            &&& n.items[1] == ("Arrange"@, MenuAction::Arrange)
            &&& n.items[2].1 == MenuAction::MoveToWorkspace(0)
            &&& n.items[3] == ("Group"@, MenuAction::Group)
            &&& n.items[4] == ("Ungroup"@, MenuAction::Ungroup)
            &&& n.items[5] == ("De-emphasize"@, MenuAction::DeEmphasize)
            &&& n.items[6] == ("Restore"@, MenuAction::Restore)
            &&& n.items[7] == ("Reset Transform"@, MenuAction::ResetTransform)
            &&& n.items[8] == ("Maximize"@, MenuAction::Maximize)
            &&& n.items[9] == ("Fullscreen"@, MenuAction::Fullscreen)
            &&& n.items[10] == ("Minimize"@, MenuAction::Minimize)
            &&& n.items[11] == ("Close"@, MenuAction::Close)
            &&& n.labelled(true).items[8] == ("Restore size"@, MenuAction::Maximize)
            &&& n.labelled(false) == n
            &&& forall|j: int|
                0 <= j < 12 && j != 8 ==> #[trigger] n.labelled(true).items[j] == n.items[j]
        }),
{
    lemma_action_index(m.shown(x, y, target).items, MenuAction::Maximize, 8);
}

} // verus!
