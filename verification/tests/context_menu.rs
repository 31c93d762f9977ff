use veyra::context_menu::{ContextMenu, Coordinate, MenuAction};
use veyra::scene::VisualId;

fn c(x: f64) -> Coordinate {
    x.to_bits()
}

fn opened(x: f64, y: f64) -> ContextMenu {
    let mut menu = ContextMenu::new();
    menu.show(c(x), c(y), VisualId(1), 3);
    menu
}

/// Whether a point is within the menu, and the row it is in.
fn place(menu: &ContextMenu, x: f64, y: f64, width: f64, row: f64) -> (bool, usize) {
    let (left, top) = (f64::from_bits(menu.position.0), f64::from_bits(menu.position.1));
    let height = menu.items.len() as f64 * row;
    let within = x >= left && x <= left + width && y >= top && y <= top + height;
    (within, ((y - top) / row).floor().max(0.0) as usize)
}

fn hit_test(menu: &ContextMenu, x: f64, y: f64, width: f64, row: f64) -> bool {
    menu.hit_test(place(menu, x, y, width, row).0)
}

fn item_at(menu: &ContextMenu, x: f64, y: f64, width: f64, row: f64) -> Option<usize> {
    let (within, index) = place(menu, x, y, width, row);
    menu.item_at(within, index)
}

#[test]
fn menu_starts_hidden() {
    let menu = ContextMenu::new();
    assert!(!menu.visible);
    assert!(menu.target.is_none());
    assert!(menu.items.is_empty());
}

#[test]
fn show_creates_items() {
    let mut menu = ContextMenu::new();
    let vid = VisualId(42);
    menu.show(c(100.0), c(200.0), vid, 3);
    assert!(menu.visible);
    assert_eq!(menu.target, Some(vid));
    assert_eq!(menu.position, (c(100.0), c(200.0)));
    assert!(!menu.items.is_empty());
}

#[test]
fn dismiss_clears_state() {
    let mut menu = opened(0.0, 0.0);
    assert!(menu.visible);
    menu.dismiss();
    assert!(!menu.visible);
    assert!(menu.target.is_none());
    assert!(menu.items.is_empty());
}

#[test]
fn hit_test_outside() {
    let menu = opened(100.0, 100.0);
    assert!(!hit_test(&menu, 10.0, 10.0, 200.0, 24.0));
    assert!(hit_test(&menu, 110.0, 110.0, 200.0, 24.0));
}

#[test]
fn item_at_returns_correct_index() {
    let menu = opened(100.0, 100.0);
    assert_eq!(item_at(&menu, 110.0, 100.0, 200.0, 24.0), Some(0));
    assert_eq!(item_at(&menu, 110.0, 124.0, 200.0, 24.0), Some(1));
    assert_eq!(item_at(&menu, 110.0, 315.0, 200.0, 24.0), Some(8));
    assert_eq!(item_at(&menu, 110.0, 400.0, 200.0, 24.0), None);
}

#[test]
fn menu_has_expected_items() {
    let menu = opened(0.0, 0.0);
    assert!(menu.items.iter().any(|i| matches!(i.action, MenuAction::Focus)));
    assert!(menu.items.iter().any(|i| matches!(i.action, MenuAction::Arrange)));
    assert!(menu.items.iter().any(|i| matches!(i.action, MenuAction::Close)));
    assert!(menu.items.iter().any(|i| matches!(i.action, MenuAction::ResetTransform)));
    assert!(menu.items.iter().any(|i| matches!(i.action, MenuAction::Maximize)));
    assert!(menu.items.iter().any(|i| matches!(i.action, MenuAction::Fullscreen)));
    assert!(menu.items.iter().any(|i| matches!(i.action, MenuAction::Minimize)));
}

#[test]
fn maximize_label_renames_when_maximized() {
    let mut menu = opened(0.0, 0.0);
    let label = |m: &ContextMenu| {
        m.items
            .iter()
            .find(|i| i.action == MenuAction::Maximize)
            .map(|i| i.label.clone())
            .expect("maximize item present")
    };
    assert_eq!(label(&menu), "Maximize");
    menu.set_maximize_label(false);
    assert_eq!(label(&menu), "Maximize");
    menu.set_maximize_label(true);
    assert_eq!(label(&menu), "Restore size");
    menu.dismiss();
}

#[test]
fn keyboard_navigate_next() {
    let mut menu = opened(0.0, 0.0);
    assert_eq!(menu.selected, None);
    menu.select_next();
    assert_eq!(menu.selected, Some(0));
    menu.select_next();
    assert_eq!(menu.selected, Some(1));
}

#[test]
fn keyboard_navigate_prev() {
    let mut menu = opened(0.0, 0.0);
    menu.select_prev();
    let last = menu.items.len() - 1;
    assert_eq!(menu.selected, Some(last));
}

#[test]
fn keyboard_navigate_wraps_around() {
    let mut menu = opened(0.0, 0.0);
    let count = menu.items.len();
    for _ in 0..count + 1 {
        menu.select_next();
    }
    assert_eq!(menu.selected, Some(0));
}

#[test]
fn keyboard_confirm_selection() {
    let mut menu = opened(0.0, 0.0);
    assert!(menu.confirm_selection().is_none());
    menu.selected = Some(0);
    assert_eq!(menu.confirm_selection(), Some(MenuAction::Focus));
    menu.selected = Some(8);
    assert_eq!(menu.confirm_selection(), Some(MenuAction::Maximize));
    menu.selected = Some(9);
    assert_eq!(menu.confirm_selection(), Some(MenuAction::Fullscreen));
    menu.selected = Some(10);
    assert_eq!(menu.confirm_selection(), Some(MenuAction::Minimize));
    menu.selected = Some(11);
    assert_eq!(menu.confirm_selection(), Some(MenuAction::Close));
}

#[test]
fn escape_dismisses_context_menu() {
    let mut menu = opened(0.0, 0.0);
    assert!(menu.visible);
    menu.dismiss();
    assert!(!menu.visible);
    assert!(menu.target.is_none());
}

#[test]
fn select_next_from_none_starts_at_zero() {
    let mut menu = opened(0.0, 0.0);
    menu.selected = None;
    menu.select_next();
    assert_eq!(menu.selected, Some(0));
}

#[test]
fn select_prev_from_none_starts_at_end() {
    let mut menu = opened(0.0, 0.0);
    menu.selected = None;
    menu.select_prev();
    assert_eq!(menu.selected, Some(menu.items.len() - 1));
}

#[test]
fn next_and_previous_undo_each_other() {
    let mut menu = opened(0.0, 0.0);
    menu.selected = Some(4);
    menu.select_next();
    menu.select_prev();
    assert_eq!(menu.selected, Some(4));
}

#[test]
fn a_hidden_menu_is_never_hit() {
    let menu = ContextMenu::new();
    assert!(!menu.hit_test(true));
    assert_eq!(menu.item_at(true, 0), None);
    assert!(menu.confirm_selection().is_none());
}
