//! What commands are for: each key and each menu entry does to its window
//! what it says, and to no other.
use vstd::prelude::*;

use crate::compositor::focus_laws::{
    law_refocus_goes_to_a_focusable_window, law_switch_glides, lemma_switch_keeps_members,
};
use crate::compositor::menu::Views;
use crate::compositor::state::{ConfigureChange, Effect, GlassModel, SurfaceId, ToplevelInfo};
use crate::compositor::terms::{
    is_let_be, is_row, is_visual, lemma_changed, lemma_row, lemma_visual, one_or_more,
    owes_nothing, same_but, succ,
};
use crate::compositor::transition_laws::{
    asked, law_fullscreen_asks_for_the_view, law_maximize_asks_for_the_view,
    law_unfullscreen_asks_for_the_former_size, law_unmaximize_asks_for_the_former_size,
    same_rows_but,
};
use crate::context_menu::MenuAction;
use crate::focus::CameraMode;
use crate::fullscreen::{law_aborted_fullscreen_is_gone, FullscreenKind};
use crate::id_list::lemma_without_members;
use crate::keys::Modifier;
use crate::maximize::{law_aborted_maximize_is_gone, MaximizeKind};
use crate::navigation::{Binding, KeyMeaning};
use crate::scene::{SceneModel, Visual, VisualId, WindowState};

verus! {

/// The visual that a command is about: the one with focus, else the one
/// that is selected.
pub open spec fn is_addressed(m: GlassModel, vid: VisualId) -> bool {
    m.scene.focused_id == Some(vid) || (m.scene.focused_id is None && m.scene.selected_id == Some(
        vid,
    ))
}

/// The window can be changed: its client owes nothing, it has something
/// to show, and nobody is resizing it.
pub open spec fn is_ready(m: GlassModel, vid: VisualId, k: int, i: int) -> bool {
    &&& is_row(m, vid, k)
    &&& is_visual(m.scene, vid, i)
    &&& owes_nothing(m, vid, k)
    &&& is_let_be(m, vid)
    &&& m.scene.visuals[i].width > 0
    &&& m.scene.visuals[i].height > 0
}

/// The maximize command leaves a pending maximize of the window it is
/// about, asked of its client at the size of the view, and no fullscreen
/// transition of it; on a maximized window it asks for the size from
/// before.
pub proof fn law_maximize_command_maximizes(
    m: GlassModel,
    views: Views,
    vid: VisualId,
    k: int,
    i: int,
)
    requires
        is_ready(m, vid, k, i),
        is_addressed(m, vid),
        !m.toplevels[k].fullscreened,
    ensures
        ({
            let n = m.commanded_to(Binding::ToggleMaximize, views);
            &&& n.fullscreen == m.fullscreen
            &&& n.scene == m.scene
            &&& !m.toplevels[k].maximized ==> {
                &&& asked(
                    m,
                    n,
                    vid,
                    k,
                    (one_or_more(m.view_size.0), one_or_more(m.view_size.1)),
                    ConfigureChange::Maximize,
                )
                &&& n.maximize.intent(vid) matches Some(t) && t.kind == MaximizeKind::Maximize
            }
            &&& m.toplevels[k].maximized && m.toplevels[k].restore_size is Some ==> {
                &&& asked(
                    m,
                    n,
                    vid,
                    k,
                    m.toplevels[k].restore_size.unwrap(),
                    ConfigureChange::Unmaximize,
                )
                &&& n.maximize.intent(vid) matches Some(t) && t.kind == MaximizeKind::Unmaximize
            }
        }),
{
    lemma_row(m, vid, k);
    if m.toplevels[k].maximized {
        if let Some(former) = m.toplevels[k].restore_size {
            law_unmaximize_asks_for_the_former_size(
                m,
                vid,
                k,
                i,
                crate::maximize::MaximizeSource::Compositor,
                former,
            );
        }
    } else {
        law_maximize_asks_for_the_view(
            m,
            vid,
            k,
            i,
            crate::maximize::MaximizeSource::Compositor,
        );
    }
}

/// The fullscreen command leaves a pending fullscreen of the window it is
/// about, asked of its client at the size of the view, and no maximize of
/// it; on a fullscreen window it asks for the size from before.
pub proof fn law_fullscreen_command_fills_the_view(
    m: GlassModel,
    views: Views,
    vid: VisualId,
    k: int,
    i: int,
)
    requires
        is_ready(m, vid, k, i),
        is_addressed(m, vid),
    ensures
        ({
            let n = m.commanded_to(Binding::ToggleFullscreen, views);
            &&& n.scene == m.scene
            &&& !m.toplevels[k].fullscreened && m.fullscreen.intent(vid) is None ==> {
                &&& asked(
                    m,
                    n,
                    vid,
                    k,
                    (one_or_more(m.view_size.0), one_or_more(m.view_size.1)),
                    ConfigureChange::Fullscreen { keep_maximized: m.toplevels[k].maximized },
                )
                &&& n.fullscreen.intent(vid) matches Some(t) && t.kind
                    == FullscreenKind::Fullscreen
                &&& n.maximize.intent(vid) is None
            }
            &&& m.toplevels[k].fullscreened && m.toplevels[k].fullscreen_snapshot is Some ==> {
                &&& asked(
                    m,
                    n,
                    vid,
                    k,
                    m.toplevels[k].fullscreen_snapshot.unwrap().restore_size,
                    ConfigureChange::Unfullscreen,
                )
                &&& n.fullscreen.intent(vid) matches Some(t) && t.kind
                    == FullscreenKind::Unfullscreen
                &&& n.maximize == m.maximize
            }
        }),
{
    lemma_row(m, vid, k);
    lemma_visual(m.scene, vid, i);
    let by = crate::maximize::MaximizeSource::Compositor;
    if m.toplevels[k].fullscreened {
        if let Some(s) = m.toplevels[k].fullscreen_snapshot {
            law_unfullscreen_asks_for_the_former_size(m, vid, k, i, by, s.restore_size);
        }
    } else if m.fullscreen.intent(vid) is None {
        law_fullscreen_asks_for_the_view(m, vid, k, i, by);
    }
}

/// The menu's maximize and fullscreen entries do the same to the window
/// whose menu it is, whoever has focus, and the menu closes.
pub proof fn law_menu_maximizes_and_fills_the_view(
    m: GlassModel,
    views: Views,
    vid: VisualId,
    k: int,
    i: int,
)
    requires
        is_ready(m, vid, k, i),
        m.menu.target == Some(vid),
        !m.toplevels[k].maximized,
        !m.toplevels[k].fullscreened,
        m.fullscreen.intent(vid) is None,
    ensures
        ({
            let n = m.menu_executed(MenuAction::Maximize, views);
            &&& asked(
                m,
                n,
                vid,
                k,
                (one_or_more(m.view_size.0), one_or_more(m.view_size.1)),
                ConfigureChange::Maximize,
            )
            &&& n.maximize.intent(vid) matches Some(t) && t.kind == MaximizeKind::Maximize
            &&& n.fullscreen == m.fullscreen
            &&& !n.menu.visible && n.menu.target is None
        }),
        ({
            let n = m.menu_executed(MenuAction::Fullscreen, views);
            &&& asked(
                m,
                n,
                vid,
                k,
                (one_or_more(m.view_size.0), one_or_more(m.view_size.1)),
                ConfigureChange::Fullscreen { keep_maximized: false },
            )
            &&& n.fullscreen.intent(vid) matches Some(t) && t.kind == FullscreenKind::Fullscreen
            &&& n.maximize.intent(vid) is None
            &&& !n.menu.visible && n.menu.target is None
        }),
{
    lemma_row(m, vid, k);
    let by = crate::maximize::MaximizeSource::Compositor;
    law_maximize_asks_for_the_view(m, vid, k, i, by);
    law_fullscreen_asks_for_the_view(m, vid, k, i, by);
}

/// What giving focus leaves alone, and what it does not.
pub proof fn lemma_focus(m: GlassModel, vid: Option<VisualId>)
    ensures
        ({
            let n = m.keyboard_focused(vid);
            &&& n.scene.visuals.len() == m.scene.visuals.len()
            &&& forall|j: int|
                0 <= j < m.scene.visuals.len() ==> #[trigger] n.scene.visuals[j] == (Visual {
                    chrome_focused: Some(m.scene.visuals[j].id) == vid,
                    ..m.scene.visuals[j]
                })
            &&& n.scene == (SceneModel {
                visuals: n.scene.visuals,
                focused_id: vid,
                ..m.scene
            })
            &&& n == (GlassModel {
                scene: n.scene,
                constraints: n.constraints,
                mru: n.mru,
                input: n.input,
                outbox: n.outbox,
                ..m
            })
            &&& n.input.dragging == m.input.dragging
            &&& n.outbox.len() > m.outbox.len()
            &&& n.outbox.take(m.outbox.len() as int) == m.outbox
        }),
{
    let n = m.keyboard_focused(vid);
    assert(n.outbox.take(m.outbox.len() as int) =~= m.outbox);
}

/// A window that takes focus gets the keyboard and is offered the
/// selections, each X11 window is told whether it is the active one, and
/// nothing else is said.
pub proof fn law_focus_is_announced(m: GlassModel, vid: VisualId, s: SurfaceId)
    requires
        !m.constraints.pointer_locked,
        m.input.keyboard,
        m.surface_of(vid) == Some(s),
    ensures
        ({
            let n = m.keyboard_focused(Some(vid));
            let at = m.outbox.len() as int;
            &&& n.outbox.len() >= at + 2
            &&& n.outbox[at] == (Effect::KeyboardFocus {
                target: Some(s),
                x11: exists|j: int| 0 <= j < m.x11.len() && (#[trigger] m.x11[j]).surface == s,
                serial: n.input.event_serial,
            })
            &&& n.input.event_serial == succ(m.input.event_serial)
            &&& n.outbox[at + 1] == (Effect::SelectionFocus { surface: Some(s) })
            &&& forall|j: int|
                at + 2 <= j < n.outbox.len() ==> (#[trigger] n.outbox[j]) is X11Activated
        }),
{
    lemma_activations(m.x11, m.surfaces, Some(vid));
    let n = m.keyboard_focused(Some(vid));
    let at = m.outbox.len() as int;
    let a = crate::compositor::focusing::activations(m.x11, m.surfaces, Some(vid));
    assert forall|j: int| at + 2 <= j < n.outbox.len() implies (#[trigger] n.outbox[j]) is X11Activated by {
        assert(n.outbox[j] == a[j - at - 2]);
    }
}

proof fn lemma_activations(
    x11: Seq<crate::compositor::state::X11Window>,
    surfaces: Seq<(u64, u64)>,
    vid: Option<VisualId>,
)
    ensures
        forall|j: int|
            0 <= j < crate::compositor::focusing::activations(x11, surfaces, vid).len() ==> (
            #[trigger] crate::compositor::focusing::activations(x11, surfaces, vid)[j]) is X11Activated,
    decreases x11.len(),
{
    if x11.len() > 0 {
        lemma_activations(x11.drop_last(), surfaces, vid);
    }
}

/// Of the X11 windows that are shown, exactly that of the visual is told
/// it is active.
pub proof fn law_x11_windows_learn_who_is_active(
    m: GlassModel,
    vid: Option<VisualId>,
    x: int,
    shown: u64,
)
    requires
        0 <= x < m.x11.len(),
        crate::table::key_of(m.surfaces, m.x11[x].surface) == Some(shown),
    ensures
        m.keyboard_focused(vid).outbox.contains(
            Effect::X11Activated {
                surface: m.x11[x].surface,
                active: vid == Some(VisualId(shown)),
            },
        ),
{
    lemma_activation(m.x11, m.surfaces, vid, x);
    let a = crate::compositor::focusing::activations(m.x11, m.surfaces, vid);
    let e = Effect::X11Activated {
        surface: m.x11[x].surface,
        active: vid == Some(VisualId(shown)),
    };
    let j = choose|j: int| 0 <= j < a.len() && a[j] == e;
    let n = m.keyboard_focused(vid);
    assert(n.outbox[n.outbox.len() - a.len() + j] == e);
}

proof fn lemma_activation(
    x11: Seq<crate::compositor::state::X11Window>,
    surfaces: Seq<(u64, u64)>,
    vid: Option<VisualId>,
    x: int,
)
    requires
        0 <= x < x11.len(),
        crate::table::key_of(surfaces, x11[x].surface) is Some,
    ensures
        crate::compositor::focusing::activations(x11, surfaces, vid).contains(
            Effect::X11Activated {
                surface: x11[x].surface,
                active: vid == Some(
                    VisualId(crate::table::key_of(surfaces, x11[x].surface).unwrap()),
                ),
            },
        ),
    decreases x11.len(),
{
    let a = crate::compositor::focusing::activations(x11, surfaces, vid);
    let e = Effect::X11Activated {
        surface: x11[x].surface,
        active: vid == Some(VisualId(crate::table::key_of(surfaces, x11[x].surface).unwrap())),
    };
    if x == x11.len() - 1 {
        assert(a[a.len() - 1] == e);
    } else {
        let rest = x11.drop_last();
        lemma_activation(rest, surfaces, vid, x);
        let b = crate::compositor::focusing::activations(rest, surfaces, vid);
        let j = choose|j: int| 0 <= j < b.len() && b[j] == e;
        assert(a[j] == e);
    }
}

/// Nobody's focus takes the keyboard and the selections from everybody.
pub proof fn law_nobodys_focus_is_announced(m: GlassModel)
    requires
        !m.constraints.pointer_locked,
        m.input.keyboard,
    ensures
        ({
            let n = m.keyboard_focused(None);
            let at = m.outbox.len() as int;
            &&& n.outbox[at] == (Effect::KeyboardFocus {
                target: None,
                x11: false,
                serial: n.input.event_serial,
            })
            &&& n.outbox[at + 1] == (Effect::SelectionFocus { surface: None })
            &&& n.scene.focused_id is None
        }),
{
}

/// A minimized window is hidden where it is: its row and its visual say
/// so, nothing else of either changes, no other window is touched, its
/// transitions are given up, and it is not remembered for focus.
pub proof fn law_minimize_hides_the_window(
    m: GlassModel,
    vid: VisualId,
    k: int,
    i: int,
)
    requires
        is_row(m, vid, k),
        is_visual(m.scene, vid, i),
        is_let_be(m, vid),
        !m.toplevels[k].minimized,
    ensures
        ({
            let n = m.minimize_begun(vid);
            let v = n.scene.visuals[i];
            &&& n.toplevels == m.toplevels.update(
                k,
                ToplevelInfo { minimized: true, ..m.toplevels[k] },
            )
            &&& v.window_state == WindowState::Minimized
            &&& v.id == vid
            &&& v.transform == m.scene.visuals[i].transform
            &&& v.width == m.scene.visuals[i].width
            &&& v.height == m.scene.visuals[i].height
            &&& forall|j: int|
                0 <= j < m.scene.visuals.len() && j != i ==> {
                    &&& (#[trigger] n.scene.visuals[j]).window_state
                        == m.scene.visuals[j].window_state
                    &&& n.scene.visuals[j].transform == m.scene.visuals[j].transform
                }
            &&& n.maximize.intent(vid) is None
            &&& n.fullscreen.intent(vid) is None
            &&& n.scene.focused_id != Some(vid)
            &&& n.workspaces == m.workspaces
            &&& n.camera == m.camera
            &&& n.outbox.last() == Effect::ScheduleRender
            &&& m.scene.focused_id != Some(vid) ==> n.scene.focused_id == m.scene.focused_id
                && n.outbox == m.outbox.push(Effect::ScheduleRender)
        }),
{
    lemma_row(m, vid, k);
    lemma_visual(m.scene, vid, i);
    law_aborted_maximize_is_gone(m.maximize, vid);
    law_aborted_fullscreen_is_gone(m.fullscreen, vid);
    let hid = Visual { window_state: WindowState::Minimized, ..m.scene.visuals[i] };
    lemma_changed(m.scene, vid, i, hid);
    let h = m.window_hidden(vid);
    law_refocus_goes_to_a_focusable_window(h, Some(vid));
    let r = h.replacement(Some(vid));
    let s = GlassModel { scene: h.scene.selected(r), ..h };
    lemma_focus(s, r);
    assert(h.toplevels =~= m.toplevels.update(
        k,
        ToplevelInfo { minimized: true, ..m.toplevels[k] },
    ));
    if m.scene.focused_id == Some(vid) {
        let n = m.minimize_begun(vid);
        assert(n.scene.visuals[i] == (Visual {
            chrome_focused: Some(s.scene.visuals[i].id) == r,
            ..s.scene.visuals[i]
        }));
    }
}

/// The minimize command and the menu's minimize entry hide the window they
/// are about.
pub proof fn law_minimize_command_hides(
    m: GlassModel,
    views: Views,
    vid: VisualId,
    k: int,
    i: int,
)
    requires
        is_row(m, vid, k),
        is_visual(m.scene, vid, i),
        is_let_be(m, vid),
        !m.toplevels[k].minimized,
    ensures
        is_addressed(m, vid) ==> {
            let n = m.commanded_to(Binding::MinimizeSelected, views);
            &&& n.toplevels[k].minimized
            &&& n.scene.visuals[i].window_state == WindowState::Minimized
            &&& same_rows_but(m, n, k)
        },
        m.menu.target == Some(vid) ==> {
            let n = m.menu_executed(MenuAction::Minimize, views);
            &&& n.toplevels[k].minimized
            &&& n.scene.visuals[i].window_state == WindowState::Minimized
            &&& same_rows_but(m, n, k)
            &&& !n.menu.visible
        },
{
    law_minimize_hides_the_window(m, vid, k, i);
}

/// Closing asks the client of the window to close it, and does nothing to
/// the window itself.
pub proof fn law_close_asks_the_client(m: GlassModel, views: Views, vid: VisualId, k: int)
    requires
        is_row(m, vid, k),
    ensures
        m.scene.focused_id == Some(vid) ==> m.commanded_to(Binding::CloseApp, views) == (GlassModel {
            outbox: m.outbox.push(Effect::SendClose { surface: m.toplevels[k].surface }),
            ..m
        }),
        m.menu.target == Some(vid) ==> {
            let n = m.menu_executed(MenuAction::Close, views);
            &&& n.outbox == m.outbox.push(Effect::SendClose { surface: m.toplevels[k].surface })
            &&& n.scene == m.scene
            &&& n.toplevels == m.toplevels
            &&& !n.menu.visible
        },
        m.scene.focused_id is None ==> m.commanded_to(Binding::CloseApp, views) == m,
{
    lemma_row(m, vid, k);
}

/// The keys for the next and the previous workspace show the one after and
/// the one before, round the ends, and each undoes the other's step.
pub proof fn law_workspace_keys_step(m: GlassModel, views: Views)
    requires
        m.wf(),
    ensures
        ({
            let n = m.workspaces.all.len() as int;
            let a = m.workspaces.active;
            let next = m.commanded_to(Binding::WorkspaceNext, views);
            let prev = m.commanded_to(Binding::WorkspacePrev, views);
            &&& next.workspaces.active == if a + 1 < n {
                a + 1
            } else {
                0
            }
            &&& prev.workspaces.active == if a > 0 {
                a - 1
            } else {
                n - 1
            }
            &&& n > 1 ==> next.camera == m.workspaces.all[next.workspaces.active].camera
            &&& n > 1 ==> prev.camera == m.workspaces.all[prev.workspaces.active].camera
        }),
{
    let n = m.workspaces.all.len() as int;
    let a = m.workspaces.active;
    if a + 1 == n {
        vstd::arithmetic::div_mod::lemma_mod_self_0(n);
    } else {
        vstd::arithmetic::div_mod::lemma_small_mod((a + 1) as nat, n as nat);
    }
    let next = (a + 1) % n;
    let prev = if a == 0 {
        n - 1
    } else {
        a - 1
    };
    lemma_switch_keeps_members(m, next, a);
    lemma_switch_keeps_members(m, prev, a);
    if n > 1 {
        law_switch_glides(m, next);
        law_switch_glides(m, prev);
    }
}

/// The first three function keys show the first three workspaces, if there
/// are so many.
pub proof fn law_function_keys_show_workspaces(
    m: GlassModel,
    consumed: Set<u32>,
    meaning: KeyMeaning,
    views: Views,
)
    requires
        m.wf(),
        !m.menu.visible,
    ensures
        m.key_handled(consumed, 67, true, meaning, views).workspaces.active == 0,
        m.key_handled(consumed, 68, true, meaning, views).workspaces.active
            == if m.workspaces.all.len() > 1 {
            1
        } else {
            m.workspaces.active
        },
        m.key_handled(consumed, 69, true, meaning, views).workspaces.active
            == if m.workspaces.all.len() > 2 {
            2
        } else {
            m.workspaces.active
        },
{
    let w = m.orbit_stopped();
    assert(w.wf());
    lemma_switch_keeps_members(w, 0, w.workspaces.active);
    lemma_switch_keeps_members(w, 1, w.workspaces.active);
    lemma_switch_keeps_members(w, 2, w.workspaces.active);
}

/// A key that is bound to a command, and has no other meaning, carries out
/// exactly that command; the workspace's orbit stops.
pub proof fn law_bound_key_carries_out_its_command(
    m: GlassModel,
    consumed: Set<u32>,
    key: u32,
    b: Binding,
    bookmark: Option<usize>,
    views: Views,
)
    requires
        m.wf(),
        forall|k: Modifier| crate::keys::modifier_key(key) != Some(k),
        key != 67 && key != 68 && key != 69,
        !(m.input.alt_pressed && key == 23),
        !m.menu.visible,
    ensures
        ({
            let stopped = m.orbit_stopped();
            &&& m.key_handled(
                consumed,
                key,
                true,
                KeyMeaning { binding: Some(b), bookmark },
                views,
            ) == stopped.commanded_to(b, views)
            &&& stopped == (GlassModel { workspaces: stopped.workspaces, ..m })
            &&& !stopped.workspaces.all[m.workspaces.active].auto_orbit
            &&& stopped.workspaces.all[m.workspaces.active].visual_ids
                == m.workspaces.all[m.workspaces.active].visual_ids
            &&& stopped.workspaces.active == m.workspaces.active
        }),
{
}

/// Which keys are modifiers, left and right.
pub proof fn law_modifier_keys(key: u32)
    ensures
        crate::keys::modifier_key(key) == Some(Modifier::Ctrl) <==> key == 37 || key == 105,
        crate::keys::modifier_key(key) == Some(Modifier::Shift) <==> key == 50 || key == 62,
        crate::keys::modifier_key(key) == Some(Modifier::Alt) <==> key == 64 || key == 108,
        crate::keys::modifier_key(key) == Some(Modifier::Meta) <==> key == 133 || key == 134,
{
}

/// A modifier that is pressed is held, and no other; it is fed to the
/// keyboard as it is.
pub proof fn law_modifier_is_held(
    m: GlassModel,
    consumed: Set<u32>,
    key: u32,
    pressed: bool,
    k: Modifier,
    meaning: KeyMeaning,
    views: Views,
)
    requires
        m.input.keyboard,
        crate::keys::modifier_key(key) == Some(k),
        m.held(k) != pressed,
        !consumed.contains(key),
    ensures
        ({
            let n = m.key_handled(consumed, key, pressed, meaning, views);
            &&& n.input.ctrl_pressed == if k == Modifier::Ctrl {
                pressed
            } else {
                m.input.ctrl_pressed
            }
            &&& n.input.shift_pressed == if k == Modifier::Shift {
                pressed
            } else {
                m.input.shift_pressed
            }
            &&& n.input.alt_pressed == if k == Modifier::Alt {
                pressed
            } else {
                m.input.alt_pressed
            }
            &&& n.input.meta_pressed == if k == Modifier::Meta {
                pressed
            } else {
                m.input.meta_pressed
            }
            &&& n.outbox == m.outbox.push(
                Effect::FeedKey { key, pressed, serial: n.input.event_serial },
            )
            &&& n.input.event_serial == succ(m.input.event_serial)
            &&& n.scene == m.scene
        }),
{
}

/// A key that is left for clients goes to the surface of the window with
/// focus, and only there.
pub proof fn law_key_goes_to_the_focused_surface(
    m: GlassModel,
    key: u32,
    pressed: bool,
    vid: VisualId,
    i: int,
    s: SurfaceId,
)
    requires
        m.scene.focused_id == Some(vid),
        is_visual(m.scene, vid, i),
        m.scene.visuals[i].connected,
        m.surface_of(vid) == Some(s),
        m.input.keyboard,
    ensures
        ({
            let n = m.key_routed(key, pressed);
            &&& n.outbox == m.outbox.push(
                Effect::DeliverKey {
                    surface: s,
                    x11: exists|j: int| 0 <= j < m.x11.len() && (#[trigger] m.x11[j]).surface == s,
                    key,
                    pressed,
                    serial: n.input.event_serial,
                },
            )
            &&& n.input.event_serial == succ(m.input.event_serial)
            &&& n == (GlassModel { outbox: n.outbox, input: n.input, ..m })
        }),
{
    lemma_visual(m.scene, vid, i);
}

/// A key for a window of our own, which has no surface, goes to its input
/// sink as a usage; one that has no usage goes nowhere. With nobody
/// focused, or the source gone, it goes nowhere either.
pub proof fn law_key_goes_to_the_focused_sink(
    m: GlassModel,
    key: u32,
    pressed: bool,
    vid: VisualId,
    i: int,
)
    requires
        is_visual(m.scene, vid, i),
    ensures
        m.scene.focused_id is None ==> m.key_routed(key, pressed) == m,
        m.scene.focused_id == Some(vid) && !m.scene.visuals[i].connected ==> m.key_routed(
            key,
            pressed,
        ) == m,
        m.scene.focused_id == Some(vid) && m.scene.visuals[i].connected && m.surface_of(vid) is None
            && m.sinks.contains(vid) && key > 8 ==> {
            let usage = crate::input_router::hid_usage(key - 8);
            m.key_routed(key, pressed) == if usage == 0 {
                m
            } else {
                GlassModel {
                    outbox: m.outbox.push(Effect::SinkKey { vid, key: usage as u16, pressed }),
                    ..m
                }
            }
        },
{
    lemma_visual(m.scene, vid, i);
}

/// While the menu is open the arrow keys walk its entries, round the ends,
/// and Enter carries out the selected one.
pub proof fn law_menu_is_walked_by_keys(
    m: GlassModel,
    consumed: Set<u32>,
    meaning: KeyMeaning,
    views: Views,
    at: usize,
)
    requires
        m.wf(),
        m.menu.visible,
        m.menu.selected == Some(at),
        at < m.menu.items.len() <= usize::MAX,
    ensures
        m.key_handled(consumed, 116, true, meaning, views).menu.selected == if at + 1
            < m.menu.items.len() {
            Some((at + 1) as usize)
        } else {
            Some(0usize)
        },
        m.key_handled(consumed, 111, true, meaning, views).menu.selected == if at > 0 {
            Some((at - 1) as usize)
        } else {
            Some((m.menu.items.len() - 1) as usize)
        },
        m.key_handled(consumed, 36, true, meaning, views) == m.orbit_stopped().menu_executed(
            m.menu.items[at as int].1,
            views,
        ),
        m.key_handled(consumed, 116, true, meaning, views).menu.items == m.menu.items,
        m.key_handled(consumed, 111, true, meaning, views).menu.items == m.menu.items,
{
    let n = m.menu.items.len() as int;
    if at + 1 == n {
        vstd::arithmetic::div_mod::lemma_mod_self_0(n);
    } else {
        vstd::arithmetic::div_mod::lemma_small_mod((at + 1) as nat, n as nat);
    }
    if at == 0 {
        vstd::arithmetic::div_mod::lemma_small_mod((n - 1) as nat, n as nat);
    } else {
        vstd::arithmetic::div_mod::lemma_mod_add_multiples_vanish(at - 1, n);
        vstd::arithmetic::div_mod::lemma_small_mod((at - 1) as nat, n as nat);
        assert((at + n - 1) % n == at - 1);
    }
}

/// The menu's other entries: the camera follows the window, a rearrangement
/// is ordered, the window moves to a workspace, is grouped, dimmed or not,
/// or gets its pose reset.
pub proof fn law_menu_entries_do_what_they_say(
    m: GlassModel,
    views: Views,
    vid: VisualId,
    i: int,
)
    requires
        m.menu.target == Some(vid),
        is_visual(m.scene, vid, i),
    ensures
        ({
            let n = m.menu_executed(MenuAction::Focus, views);
            &&& n.focus_manager.camera_mode == CameraMode::Focus(vid)
            &&& n.focus_manager.saved_camera == Some(m.camera)
            &&& n.focus_manager.transition matches Some(t) && t.source_camera == m.camera
                && t.target_camera == views.menu_target
            &&& n.camera == m.camera
        }),
        m.menu_executed(MenuAction::Arrange, views).outbox == m.outbox.push(Effect::Arrange),
        m.menu_executed(MenuAction::Arrange, views).scene == m.scene,
        ({
            let n = m.menu_executed(MenuAction::DeEmphasize, views);
            &&& n.outbox == m.outbox.push(Effect::DeEmphasize { vid })
            &&& n.de_emphasized.contains(vid)
        }),
        ({
            let n = m.menu_executed(MenuAction::Restore, views);
            &&& n.outbox == m.outbox.push(Effect::Emphasize { vid })
            &&& !n.de_emphasized.contains(vid)
        }),
        ({
            let n = m.menu_executed(MenuAction::ResetTransform, views);
            let t = n.scene.visuals[i].transform;
            &&& t.position.x == 0 && t.position.y == 0 && t.position.z == 0
            &&& t.rotation.s == 0x3f80_0000u32
            &&& t.rotation.x == 0 && t.rotation.y == 0 && t.rotation.z == 0
            &&& t.scale.x == 0x3f80_0000u32 && t.scale.y == 0x3f80_0000u32 && t.scale.z
                == 0x3f80_0000u32
            &&& n.scene.visuals[i].width == m.scene.visuals[i].width
            &&& n.scene.visuals[i].height == m.scene.visuals[i].height
            &&& same_but(m.scene, n.scene, i)
        }),
        m.menu_executed(MenuAction::Dismiss, views) == (GlassModel {
            menu: m.menu_executed(MenuAction::Dismiss, views).menu,
            ..m
        }),
{
    lemma_visual(m.scene, vid, i);
    lemma_changed(
        m.scene,
        vid,
        i,
        Visual {
            transform: crate::scene::identity_transform(),
            ..m.scene.visuals[i]
        },
    );
    lemma_without_members(m.de_emphasized, vid);
    let d = m.menu_executed(MenuAction::DeEmphasize, views).de_emphasized;
    assert(d.contains(vid)) by {
        if !m.de_emphasized.contains(vid) {
            assert(d[m.de_emphasized.len() as int] == vid);
        }
    }
}

/// Whatever entry of the menu is carried out, the menu closes and offers
/// nothing any more.
pub proof fn law_menu_closes(m: GlassModel, action: MenuAction, views: Views)
    ensures
        !m.menu_executed(action, views).menu.visible,
        m.menu_executed(action, views).menu.target is None,
        m.menu_executed(action, views).menu.selected is None,
        m.menu_executed(action, views).menu.items.len() == 0,
{
}

/// The dimming and shelving keys turn what is selected on and off, and say
/// so; with nothing selected they do nothing.
pub proof fn law_dimming_and_shelving_go_both_ways(m: GlassModel, views: Views, vid: VisualId)
    ensures
        m.scene.selected_id is None ==> m.commanded_to(Binding::DeEmphasize, views) == m
            && m.commanded_to(Binding::SendToShelf, views) == m,
        m.scene.selected_id == Some(vid) ==> {
            let d = m.commanded_to(Binding::DeEmphasize, views);
            let s = m.commanded_to(Binding::SendToShelf, views);
            &&& d.de_emphasized.contains(vid) == !m.de_emphasized.contains(vid)
            &&& d.outbox == m.outbox.push(
                if m.de_emphasized.contains(vid) {
                    Effect::Emphasize { vid }
                } else {
                    Effect::DeEmphasize { vid }
                },
            )
            &&& s.shelved.contains(vid) == !m.shelved.contains(vid)
            &&& s.outbox == m.outbox.push(
                if m.shelved.contains(vid) {
                    Effect::Unshelve { vid }
                } else {
                    Effect::Shelve { vid }
                },
            )
        },
        m.commanded_to(Binding::ToggleShelf, views) == (GlassModel {
            shelf_visible: !m.shelf_visible,
            ..m
        }),
        m.commanded_to(Binding::Launcher, views) == m,
        m.commanded_to(Binding::ReopenClosed, views) == (GlassModel {
            outbox: m.outbox.push(Effect::ReopenClosed),
            ..m
        }),
{
    lemma_without_members(m.de_emphasized, vid);
    lemma_without_members(m.shelved, vid);
    if m.scene.selected_id == Some(vid) {
        let d = m.commanded_to(Binding::DeEmphasize, views).de_emphasized;
        let s = m.commanded_to(Binding::SendToShelf, views).shelved;
        if !m.de_emphasized.contains(vid) {
            assert(d[m.de_emphasized.len() as int] == vid);
        }
        if !m.shelved.contains(vid) {
            assert(s[m.shelved.len() as int] == vid);
        }
    }
}

/// The menu key opens the menu of the window with focus in the middle of
/// the screen, with nothing selected yet.
pub proof fn law_menu_opens_for_the_focused_window(m: GlassModel, views: Views, vid: VisualId)
    requires
        m.scene.focused_id == Some(vid),
    ensures
        ({
            let n = m.commanded_to(Binding::OpenContextMenu, views);
            &&& n.menu.visible
            &&& n.menu.target == Some(vid)
            &&& n.menu.position == views.centre
            &&& n.menu.selected is None
            &&& n.menu.items.len() == 12
            &&& n.menu.items[0].1 == MenuAction::Focus
            &&& n.menu.items[1].1 == MenuAction::Arrange
            &&& n.menu.items[2].1 == MenuAction::MoveToWorkspace(0)
            &&& n.menu.items[3].1 == MenuAction::Group
            &&& n.menu.items[4].1 == MenuAction::Ungroup
            &&& n.menu.items[5].1 == MenuAction::DeEmphasize
            &&& n.menu.items[6].1 == MenuAction::Restore
            &&& n.menu.items[7].1 == MenuAction::ResetTransform
            &&& n.menu.items[8].1 == MenuAction::Maximize
            &&& n.menu.items[9].1 == MenuAction::Fullscreen
            &&& n.menu.items[10].1 == MenuAction::Minimize
            &&& n.menu.items[11].1 == MenuAction::Close
            &&& m.maximized(vid) ==> n.menu.items[8].0 == "Restore size"@
            &&& !m.maximized(vid) ==> n.menu.items[8].0 == "Maximize"@
            &&& n == (GlassModel { menu: n.menu, ..m })
        }),
{
    crate::context_menu::lemma_action_index(
        crate::context_menu::window_entries(),
        MenuAction::Maximize,
        8,
    );
}

} // verus!
