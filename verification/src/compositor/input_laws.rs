//! What holds of keys: modifiers, swallowed releases, and the commands
//! that undo themselves.
use vstd::prelude::*;

use crate::compositor::command_laws::lemma_focus;
use crate::compositor::menu::Views;
use crate::compositor::room_laws::law_switching_goes_along_the_history;
use crate::compositor::state::{Effect, GlassModel, InputState};
use crate::focus::CameraMode;
use crate::focus_history::{away, law_cycle_takes_the_first, law_cycle_takes_the_next};
use crate::input::{straight_view, view_of, Camera, CameraView, DEFAULT_DISTANCE};
use crate::keys::{modifier_key, Modifier};
use crate::navigation::{Binding, KeyMeaning};
use crate::scene::VisualId;

verus! {

/// A modifier that is already as the event says is ignored.
pub proof fn law_duplicate_modifier_is_ignored(
    m: GlassModel,
    consumed: Set<u32>,
    key: u32,
    pressed: bool,
    meaning: KeyMeaning,
    views: Views,
)
    requires
        modifier_key(key) matches Some(k) && m.held(k) == pressed,
    ensures
        m.key_handled(consumed, key, pressed, meaning, views) == m,
{
}

/// A modifier's press and release both reach the seat, and after them no
/// modifier is held that was not held before.
pub proof fn law_modifier_cannot_latch(
    m: GlassModel,
    consumed: Set<u32>,
    key: u32,
    meaning: KeyMeaning,
    views: Views,
)
    requires
        modifier_key(key) matches Some(k) && !m.held(k),
        !consumed.contains(key),
        m.input.keyboard,
    ensures
        ({
            let down = m.key_handled(consumed, key, true, meaning, views);
            let held = m.consumed_after(consumed, key, true, meaning);
            let up = down.key_handled(held, key, false, meaning, views);
            let k = modifier_key(key).unwrap();
            &&& down.held(k)
            &&& !up.held(k)
            &&& down.outbox.len() == m.outbox.len() + 1
            &&& up.outbox.len() == m.outbox.len() + 2
            &&& up.input.ctrl_pressed == m.input.ctrl_pressed
            &&& up.input.shift_pressed == m.input.shift_pressed
            &&& up.input.alt_pressed == m.input.alt_pressed
            &&& up.input.meta_pressed == m.input.meta_pressed
        }),
{
}

/// A key event, with the compositor as it was when the event came.
pub ghost struct KeyStep {
    pub glass: GlassModel,
    pub key: u32,
    pub pressed: bool,
    pub meaning: KeyMeaning,
}

impl KeyStep {
    /// The event is a press that the compositor took for itself.
    pub open spec fn is_command(self) -> bool {
        self.pressed && self.glass.consumes(self.key, self.meaning)
    }
}

/// The consumed keys after a run of key events. Between two of them
/// anything may have happened to the compositor.
pub open spec fn consumed_through(consumed: Set<u32>, steps: Seq<KeyStep>) -> Set<u32>
    decreases steps.len(),
{
    if steps.len() == 0 {
        consumed
    } else {
        let s = steps.last();
        s.glass.consumed_after(
            consumed_through(consumed, steps.drop_last()),
            s.key,
            s.pressed,
            s.meaning,
        )
    }
}

/// A key pressed for a command is remembered through any other events,
/// until it is released.
pub proof fn law_consumed_key_is_not_forgotten(
    consumed: Set<u32>,
    steps: Seq<KeyStep>,
    at: int,
)
    requires
        0 <= at < steps.len(),
        steps[at].is_command(),
        forall|i: int|
            at < i < steps.len() && (#[trigger] steps[i]).key == steps[at].key
                ==> steps[i].pressed,
    ensures
        consumed_through(consumed, steps).contains(steps[at].key),
    decreases steps.len(),
{
    if at < steps.len() - 1 {
        let rest = steps.drop_last();
        assert(rest[at] == steps[at]);
        assert forall|i: int|
            at < i < rest.len() && (#[trigger] rest[i]).key == rest[at].key implies rest[i].pressed by {
            assert(rest[i] == steps[i]);
        }
        law_consumed_key_is_not_forgotten(consumed, rest, at);
        assert(steps[steps.len() - 1] == steps.last());
    }
}

/// A key is consumed only if it was pressed for a command and has not been
/// released since.
pub proof fn law_only_commands_are_consumed(steps: Seq<KeyStep>, key: u32)
    requires
        consumed_through(Set::empty(), steps).contains(key),
    ensures
        exists|at: int|
            0 <= at < steps.len() && (#[trigger] steps[at]).key == key && steps[at].is_command()
                && (forall|i: int|
                at < i < steps.len() && (#[trigger] steps[i]).key == key ==> steps[i].pressed),
    decreases steps.len(),
{
    let last = steps.len() - 1;
    let rest = steps.drop_last();
    if steps[last].key == key && steps[last].is_command() {
    } else {
        law_only_commands_are_consumed(rest, key);
        let at = choose|at: int|
            0 <= at < rest.len() && (#[trigger] rest[at]).key == key && rest[at].is_command()
                && (forall|i: int|
                at < i < rest.len() && (#[trigger] rest[i]).key == key ==> rest[i].pressed);
        assert(steps[at] == rest[at]);
        assert forall|i: int|
            at < i < steps.len() && (#[trigger] steps[i]).key == key implies steps[i].pressed by {
            if i < last {
                assert(steps[i] == rest[i]);
            }
        }
    }
}

/// No client hears the release of a key whose press was a command: if the
/// key was not released since, then whatever happened meanwhile, other keys
/// pressed and released among it, the release changes nothing and orders
/// nothing.
pub proof fn law_command_release_is_unheard(
    consumed: Set<u32>,
    steps: Seq<KeyStep>,
    at: int,
    now: GlassModel,
    meaning: KeyMeaning,
    views: Views,
)
    requires
        0 <= at < steps.len(),
        steps[at].is_command(),
        forall|i: int|
            at < i < steps.len() && (#[trigger] steps[i]).key == steps[at].key
                ==> steps[i].pressed,
    ensures
        ({
            let held = consumed_through(consumed, steps);
            let key = steps[at].key;
            &&& now.key_handled(held, key, false, meaning, views) == now
            &&& !now.consumed_after(held, key, false, meaning).contains(key)
        }),
{
    law_consumed_key_is_not_forgotten(consumed, steps, at);
}

/// What is neither a modifier nor a command goes on to whoever has focus,
/// and so does its release.
pub proof fn law_other_keys_are_passed_on(
    m: GlassModel,
    consumed: Set<u32>,
    key: u32,
    pressed: bool,
    meaning: KeyMeaning,
    views: Views,
)
    requires
        modifier_key(key) is None,
        if pressed {
            !m.consumes(key, meaning)
        } else {
            !consumed.contains(key)
        },
    ensures
        m.key_handled(consumed, key, pressed, meaning, views) == ({
            let n = m.awake(pressed);
            if n.scene.focused_id is None {
                n.ordering(Effect::CameraKey { key, pressed })
            } else {
                n
            }
        }).key_routed(key, pressed),
{
}

/// Leaving spatial mode and coming back shows the view it was left with,
/// wherever the camera went meanwhile.
pub proof fn law_spatial_mode_comes_back(m: GlassModel, meanwhile: Camera, a: Views, b: Views)
    requires
        m.spatial.spatial_mode,
    ensures
        ({
            let flat = GlassModel { camera: meanwhile, ..m.spatial_toggled(a) };
            let back = flat.spatial_toggled(b);
            &&& !flat.spatial.spatial_mode
            &&& back.spatial.spatial_mode
            &&& view_of(back.camera) == view_of(m.camera)
        }),
{
}

/// Focus mode gives back the camera exactly as it was.
pub proof fn law_focus_mode_gives_the_camera_back(m: GlassModel, target: Camera)
    requires
        m.focus_manager.camera_mode == CameraMode::Normal,
        m.scene.focused_id is Some,
    ensures
        m.focus_toggled(target).focus_toggled(target).camera == m.camera,
        m.focus_toggled(target).focus_toggled(target).focus_manager.camera_mode
            == CameraMode::Normal,
{
}

/// Showing and hiding the shelf undo each other.
pub proof fn law_shelf_toggle_undoes_itself(m: GlassModel)
    ensures
        m.shelf_toggled().shelf_toggled() == m,
{
}

/// Letting go of Alt ends a round of switching.
pub proof fn law_alt_release_ends_switching(m: GlassModel)
    ensures
        !m.holding(Modifier::Alt, false).input.alt_tab_active,
{
}

/// A lost camera is one key away: wherever the camera was, it shows the
/// whole room afterwards, or an empty room from where a session starts.
pub proof fn law_whole_room_is_one_key_away(m: GlassModel, lost: CameraView, views: Views)
    ensures
        view_of(m.looking(lost).commanded_to(Binding::FrameAll, views).camera) == match views.all {
            Some(v) => v,
            None => straight_view(DEFAULT_DISTANCE),
        },
{
}

/// The window `d` steps on in the history from the one that has focus is
/// the next that may have it.
pub open spec fn is_next_in_history(m: GlassModel, p: int, d: int, forward: bool) -> bool {
    let n = m.mru.len() as int;
    &&& m.mru.no_duplicates()
    &&& 0 <= p < n
    &&& m.scene.focused_id == Some(m.mru[p])
    &&& 1 <= d < n
    &&& m.focusable(m.mru[away(n, p, d, forward)])
    &&& forall|e: int| 1 <= e < d ==> !m.focusable(m.mru[#[trigger] away(n, p, e, forward)])
}

/// The commands for the next and the previous application go along the
/// history, the one towards the less recent and the other back.
pub proof fn law_application_commands_switch(
    m: GlassModel,
    p: int,
    d: int,
    forward: bool,
    views: Views,
)
    requires
        is_next_in_history(m, p, d, forward),
    ensures
        ({
            let b = if forward {
                Binding::AppNext
            } else {
                Binding::AppPrev
            };
            let n = m.commanded_to(b, views);
            let to = m.mru[away(m.mru.len() as int, p, d, forward)];
            &&& n.scene.focused_id == Some(to)
            &&& n.scene.selected_id == Some(to)
            &&& forward ==> m.commanded_to(Binding::CycleVisuals, views).scene.focused_id == Some(to)
        }),
{
    law_switching_goes_along_the_history(m, forward, p, d);
}

/// While Alt is held, Tab switches to the next application, and with Shift
/// to the previous one, and the round of switching goes on until Alt is
/// let go.
pub proof fn law_tab_switches_applications(
    m: GlassModel,
    p: int,
    d: int,
    forward: bool,
    consumed: Set<u32>,
    meaning: KeyMeaning,
    views: Views,
)
    requires
        m.wf(),
        is_next_in_history(m, p, d, forward),
        m.input.alt_pressed,
        m.input.shift_pressed == !forward,
    ensures
        ({
            let n = m.key_handled(consumed, 23, true, meaning, views);
            &&& n.scene.focused_id == Some(m.mru[away(m.mru.len() as int, p, d, forward)])
            &&& n.input.alt_tab_active
        }),
{
    let a = m.orbit_stopped();
    let t = GlassModel { input: InputState { alt_tab_active: true, ..a.input }, ..a };
    let n = m.mru.len() as int;
    assert forall|v: VisualId| t.focusable(v) == m.focusable(v) by {
        assert(t.minimized(v) == m.minimized(v));
    }
    assert(is_next_in_history(t, p, d, forward));
    law_switching_goes_along_the_history(t, forward, p, d);
    let to = m.mru[away(n, p, d, forward)];
    law_cycle_takes_the_next(t.mru, p, d, forward, |v: VisualId| t.focusable(v));
    lemma_focus(t, Some(to));
}

/// Cycling through a room whose windows nobody remembers starts with its
/// first window that may have focus.
pub proof fn law_cycling_starts_with_the_room(m: GlassModel, views: Views, k: int)
    requires
        m.wf(),
        m.scene.focused_id is None,
        m.mru.len() == 0,
        0 <= k < m.workspaces.all[m.workspaces.active].visual_ids.len(),
        m.focusable(m.workspaces.all[m.workspaces.active].visual_ids[k]),
        forall|j: int|
            0 <= j < k ==> !m.focusable(
                #[trigger] m.workspaces.all[m.workspaces.active].visual_ids[j],
            ),
    ensures
        m.commanded_to(Binding::CycleVisuals, views).scene.focused_id == Some(
            m.workspaces.all[m.workspaces.active].visual_ids[k],
        ),
{
    let ids = m.workspaces.all[m.workspaces.active].visual_ids;
    law_cycle_takes_the_first(ids, k, |v: VisualId| m.focusable(v));
    lemma_focus(m, Some(ids[k]));
}

/// The help overlay is the shelf.
pub proof fn law_help_shows_the_shelf(m: GlassModel, views: Views)
    ensures
        m.commanded_to(Binding::HelpOverlay, views) == (GlassModel {
            shelf_visible: !m.shelf_visible,
            ..m
        }),
        m.commanded_to(Binding::ToggleShelf, views) == (GlassModel {
            shelf_visible: !m.shelf_visible,
            ..m
        }),
{
}

/// The keys the compositor takes for itself are Tab with Alt, the keys of
/// an open menu, the three function keys, and keys bound to a command or a
/// bookmark. No modifier is among them.
pub proof fn law_keys_the_compositor_takes(
    m: GlassModel,
    consumed: Set<u32>,
    key: u32,
    meaning: KeyMeaning,
)
    requires
        !consumed.contains(key),
    ensures
        ({
            let taken = m.consumed_after(consumed, key, true, meaning).contains(key);
            let modifier = key == 37 || key == 105 || key == 50 || key == 62 || key == 64 || key
                == 108 || key == 133 || key == 134;
            &&& modifier ==> !taken
            &&& !modifier ==> taken == ((m.input.alt_pressed && key == 23) || (m.menu.visible && (
            key == 111 || key == 116 || key == 36)) || 67 <= key <= 69
                || meaning.binding is Some || meaning.bookmark is Some)
            &&& m.consumed_after(consumed.insert(key), key, false, meaning) == consumed
        }),
{
    assert(consumed.insert(key).remove(key) =~= consumed);
}

} // verus!
