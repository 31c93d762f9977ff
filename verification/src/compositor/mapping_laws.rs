//! What showing a client's surface is for: the visual has the size that
//! was committed, hangs on the right parent at the place its client gave,
//! shows the surface, and is on the right workspace.
use vstd::prelude::*;

use crate::compositor::commit::{
    lemma_saved_index, lemma_x11_surface_index, SurfaceCommit, SurfaceRole,
};
use crate::compositor::damage::SourceUv;
use crate::compositor::focusing::{is_x11, lemma_surface_index};
use crate::compositor::lifecycle::{lemma_popup_index, lemma_x11_index};
use crate::compositor::resize_laws::law_answer_brings_the_next_request;
use crate::compositor::state::{
    ConfigureChange, Effect, GlassModel, SurfaceId, SurfaceLifecycle, ToplevelInfo,
};
use crate::compositor::terms::{
    is_fresh_id, is_row, is_visual, lemma_changed, lemma_fresh, lemma_row, lemma_visual, same_but,
};
use crate::id_list::with_member;
use crate::scene::{SceneModel, Transform3D, Vec3, Visual, VisualId, WindowState};
use crate::table::{law_bound_key_is_found, value_of};
use crate::workspace::{lemma_home_index, WorkspacesModel};

verus! {

/// A commit that brought a buffer which could be imported.
pub open spec fn brings_content(c: SurfaceCommit) -> bool {
    c.attached && c.backend && c.texture is Some
}

/// A commit's size is the destination of its viewport, if it has one.
pub proof fn law_viewport_destination_is_the_size(c: SurfaceCommit, d: (i32, i32))
    requires
        c.viewport_dst == Some(d),
    ensures
        c.size() == d,
        c.child_size() == d,
{
}

/// Without a viewport, a buffer that is not scaled is shown in its own
/// size: the buffer's where it is known, else the texture's; a subsurface
/// in its texture's.
pub proof fn law_plain_buffer_is_its_size(c: SurfaceCommit)
    requires
        c.viewport_dst is None,
        c.viewport_src is None,
        c.buffer_scale <= 1,
        c.texture is Some,
    ensures
        c.buffer_size matches Some(b) ==> c.size() == b,
        c.buffer_size is None ==> c.size() == c.texture.unwrap(),
        c.child_size() == c.texture.unwrap(),
{
    let b = c.buffer();
    let t = c.texture.unwrap();
    lemma_whole(b.0 as int);
    lemma_whole(b.1 as int);
    lemma_whole(t.0 as int);
    lemma_whole(t.1 as int);
}

proof fn lemma_whole(a: int)
    ensures
        a / 1 == a,
        -((-a) / 1) == a,
{
}

/// Without a viewport, each side of a scaled buffer is shown as often as
/// the scale goes into it.
pub proof fn law_scaled_buffer_is_divided(c: SurfaceCommit)
    requires
        c.viewport_dst is None,
        c.viewport_src is None,
        c.buffer_scale > 1,
        c.buffer_size matches Some(b) && b.0 >= 0 && b.1 >= 0,
    ensures
        ({
            let b = c.buffer_size.unwrap();
            let s = c.size();
            &&& c.buffer_scale * s.0 <= b.0 < c.buffer_scale * s.0 + c.buffer_scale
            &&& c.buffer_scale * s.1 <= b.1 < c.buffer_scale * s.1 + c.buffer_scale
        }),
{
    let b = c.buffer_size.unwrap();
    let k = c.buffer_scale as int;
    lemma_quotient(b.0 as int, k);
    lemma_quotient(b.1 as int, k);
}

proof fn lemma_quotient(a: int, k: int)
    requires
        a >= 0,
        k > 1,
    ensures
        k * (a / k) <= a < k * (a / k) + k,
        0 <= a / k <= a,
{
    vstd::arithmetic::div_mod::lemma_fundamental_div_mod(a, k);
    vstd::arithmetic::div_mod::lemma_mod_bound(a, k);
    assert(0 <= a / k <= a) by (nonlinear_arith)
        requires
            a >= 0,
            k > 1,
    ;
}

/// With a viewport source and no destination, the size is that of the
/// source in whole pixels, the nearest ones.
pub proof fn law_viewport_source_is_rounded(c: SurfaceCommit)
    requires
        c.viewport_dst is None,
        c.viewport_src is Some,
    ensures
        ({
            let v = c.viewport_src.unwrap();
            &&& -128 <= 256 * c.size().0 - v.w <= 128
            &&& -128 <= 256 * c.size().1 - v.h <= 128
            &&& c.child_size() == c.size()
        }),
{
}

/// A viewport source is what is shown of the texture, measured against
/// the buffer; without one all of it is.
pub proof fn law_crop_is_the_viewport_source(c: SurfaceCommit)
    requires
        c.texture is Some,
    ensures
        c.viewport_src is None ==> c.crop() is None && c.child_crop() is None,
        c.viewport_src matches Some(v) ==> {
            &&& c.crop() matches Some(uv) && uv.source == v
            &&& c.child_crop() matches Some(uv) && uv.source == v
        },
        c.viewport_src is Some ==> {
            let t = c.texture.unwrap();
            &&& c.child_crop().unwrap().over_w == 256 * if t.0 > 1 {
                t.0 as int
            } else {
                1
            }
            &&& c.child_crop().unwrap().over_h == 256 * if t.1 > 1 {
                t.1 as int
            } else {
                1
            }
        },
        c.viewport_src is Some ==> {
            let t = match c.buffer_size {
                Some(b) => b,
                None => c.texture.unwrap(),
            };
            &&& c.crop().unwrap().over_w == 256 * if t.0 > 1 {
                t.0 as int
            } else {
                1
            }
            &&& c.crop().unwrap().over_h == 256 * if t.1 > 1 {
                t.1 as int
            } else {
                1
            }
        },
{
}

/// The visual is new: at this place, upright and in its own scale, of this
/// size, visible and live.
pub open spec fn is_placed(v: Visual, id: VisualId, size: (i32, i32), place: Vec3) -> bool {
    &&& v.id == id
    &&& v.width == size.0
    &&& v.height == size.1
    &&& v.transform.position == place
    &&& v.transform.rotation.s == 0x3f80_0000u32
    &&& v.transform.rotation.x == 0
    &&& v.transform.rotation.y == 0
    &&& v.transform.rotation.z == 0
    &&& v.transform.scale.x == 0x3f80_0000u32
    &&& v.transform.scale.y == 0x3f80_0000u32
    &&& v.transform.scale.z == 0x3f80_0000u32
    &&& v.window_state == WindowState::Normal
    &&& v.connected
}

/// The scene has one more visual, at its end, and the others as before.
pub open spec fn one_more(a: SceneModel, b: SceneModel) -> bool {
    &&& b.visuals.len() == a.visuals.len() + 1
    &&& b.visuals.drop_last() == a.visuals
}

/// The workspace at `h` is the first that has the visual.
pub open spec fn is_home(w: WorkspacesModel, vid: VisualId, h: int) -> bool {
    &&& 0 <= h < w.all.len()
    &&& w.all[h].visual_ids.contains(vid)
    &&& forall|j: int| 0 <= j < h ==> !(#[trigger] w.all[j]).visual_ids.contains(vid)
}

/// The visual joined the workspace at `h`, at its end, and no other
/// workspace and nothing else of that one changed.
pub open spec fn joined_at(a: WorkspacesModel, b: WorkspacesModel, vid: VisualId, h: int) -> bool {
    &&& b.active == a.active
    &&& b.all.len() == a.all.len()
    &&& b.all[h].visual_ids == if a.all[h].visual_ids.contains(vid) {
        a.all[h].visual_ids
    } else {
        a.all[h].visual_ids.push(vid)
    }
    &&& b.all[h].camera == a.all[h].camera
    &&& forall|j: int| 0 <= j < a.all.len() && j != h ==> #[trigger] b.all[j] == a.all[j]
}

/// A popup that is mapped hangs on its parent, exactly at the place that
/// the commit gives for it, shows its surface, and is where its parent is.
pub proof fn law_popup_is_shown_at_its_place(
    m: GlassModel,
    c: SurfaceCommit,
    p: int,
    parent: VisualId,
    i: int,
    h: int,
)
    requires
        c.role == SurfaceRole::Window,
        brings_content(c),
        forall|j: int| 0 <= j < m.x11.len() ==> (#[trigger] m.x11[j]).surface != c.surface,
        forall|j: int|
            0 <= j < m.toplevels.len() ==> (#[trigger] m.toplevels[j]).surface != c.surface,
        0 <= p < m.popups.len(),
        m.popups[p].surface == c.surface,
        forall|j: int| 0 <= j < p ==> (#[trigger] m.popups[j]).surface != c.surface,
        m.popups[p].visual_id is None,
        m.popups[p].lifecycle != SurfaceLifecycle::Mapped,
        m.popups[p].lifecycle != SurfaceLifecycle::Destroyed,
        m.popups[p].parent_toplevel_vid == Some(parent),
        is_visual(m.scene, parent, i),
        is_home(m.workspaces, parent, h),
        m.workspaces.all.len() <= usize::MAX,
    ensures
        ({
            let n = m.committed(c);
            let v = n.scene.visuals.last();
            &&& one_more(m.scene, n.scene)
            &&& is_placed(v, c.fresh, c.size(), c.child_place)
            &&& v.parent == Some(parent)
            &&& n.surface_of(c.fresh) == Some(c.surface)
            &&& n.popups[p].visual_id == Some(c.fresh)
            &&& n.popups[p].lifecycle == SurfaceLifecycle::Mapped
            &&& n.popups[p].surface == c.surface
            &&& n.popups[p].size == c.texture
            &&& joined_at(m.workspaces, n.workspaces, c.fresh, h)
            &&& n.outbox == m.outbox.push(
                Effect::AdoptTexture { vid: c.fresh, crop: c.crop() },
            ).push(Effect::ScheduleRender)
            &&& n.scene.focused_id == m.scene.focused_id
            &&& n.scene.selected_id == m.scene.selected_id
        }),
{
    lemma_popup_index(m.popups, c.surface, p);
    lemma_surface_index(m.toplevels, c.surface, m.toplevels.len() as int);
    lemma_visual(m.scene, parent, i);
    lemma_home_index(m.workspaces.all, parent, h);
    law_bound_key_is_found(m.surfaces, c.fresh.0, c.surface, 0);
    let n = m.committed(c);
    assert(n.scene.visuals.drop_last() =~= m.scene.visuals);
}

/// A popup whose parent is not in the scene is shown by itself, on the
/// shown workspace.
pub proof fn law_popup_without_a_parent_is_shown_here(
    m: GlassModel,
    c: SurfaceCommit,
    p: int,
)
    requires
        m.wf(),
        c.role == SurfaceRole::Window,
        brings_content(c),
        forall|j: int| 0 <= j < m.x11.len() ==> (#[trigger] m.x11[j]).surface != c.surface,
        forall|j: int|
            0 <= j < m.toplevels.len() ==> (#[trigger] m.toplevels[j]).surface != c.surface,
        0 <= p < m.popups.len(),
        m.popups[p].surface == c.surface,
        forall|j: int| 0 <= j < p ==> (#[trigger] m.popups[j]).surface != c.surface,
        m.popups[p].visual_id is None,
        m.popups[p].lifecycle != SurfaceLifecycle::Mapped,
        m.popups[p].lifecycle != SurfaceLifecycle::Destroyed,
        m.popups[p].parent_toplevel_vid matches Some(q) ==> is_fresh_id(m.scene, q),
    ensures
        ({
            let n = m.committed(c);
            let v = n.scene.visuals.last();
            &&& one_more(m.scene, n.scene)
            &&& v.id == c.fresh
            &&& v.width == c.size().0
            &&& v.height == c.size().1
            &&& v.parent is None
            &&& n.surface_of(c.fresh) == Some(c.surface)
            &&& n.popups[p].visual_id == Some(c.fresh)
            &&& joined_at(m.workspaces, n.workspaces, c.fresh, m.workspaces.active)
        }),
{
    lemma_popup_index(m.popups, c.surface, p);
    lemma_surface_index(m.toplevels, c.surface, m.toplevels.len() as int);
    if let Some(q) = m.popups[p].parent_toplevel_vid {
        lemma_fresh(m.scene, q);
    }
    law_bound_key_is_found(m.surfaces, c.fresh.0, c.surface, 0);
    let n = m.committed(c);
    assert(n.scene.visuals.drop_last() =~= m.scene.visuals);
}

/// A subsurface that is shown for the first time hangs on the visual of
/// its parent surface, exactly at the place that the commit gives for it,
/// and is where its parent is.
pub proof fn law_subsurface_is_shown_at_its_place(
    m: GlassModel,
    c: SurfaceCommit,
    on: SurfaceId,
    parent: VisualId,
    h: int,
)
    requires
        c.role == (SurfaceRole::Subsurface { parent: Some(on) }),
        brings_content(c),
        m.visual_of_surface(on) == Some(parent),
        value_of(m.subsurfaces, c.surface) is None,
        is_home(m.workspaces, parent, h),
        m.workspaces.all.len() <= usize::MAX,
    ensures
        ({
            let n = m.committed(c);
            let v = n.scene.visuals.last();
            &&& one_more(m.scene, n.scene)
            &&& is_placed(v, c.fresh, c.child_size(), c.child_place)
            &&& v.parent == Some(parent)
            &&& n.surface_of(c.fresh) == Some(c.surface)
            &&& value_of(n.subsurfaces, c.surface) == Some(c.fresh.0)
            &&& value_of(n.subsurface_parents, c.surface) == Some(on)
            &&& joined_at(m.workspaces, n.workspaces, c.fresh, h)
            &&& n.outbox == m.outbox.push(
                Effect::AdoptTexture { vid: c.fresh, crop: c.child_crop() },
            ).push(Effect::ScheduleRender)
        }),
{
    lemma_home_index(m.workspaces.all, parent, h);
    law_bound_key_is_found(m.surfaces, c.fresh.0, c.surface, 0);
    law_bound_key_is_found(m.subsurfaces, c.surface, c.fresh.0, 0);
    law_bound_key_is_found(m.subsurface_parents, c.surface, on, 0);
    let n = m.committed(c);
    assert(n.scene.visuals.drop_last() =~= m.scene.visuals);
}

/// A later commit of a subsurface gives its visual the new size and place;
/// turn and scale stay, and so does every other visual.
pub proof fn law_subsurface_follows_its_commits(
    m: GlassModel,
    c: SurfaceCommit,
    on: SurfaceId,
    vid: VisualId,
    i: int,
)
    requires
        c.role == (SurfaceRole::Subsurface { parent: Some(on) }),
        brings_content(c),
        m.visual_of_surface(on) is Some,
        value_of(m.subsurfaces, c.surface) == Some(vid.0),
        is_visual(m.scene, vid, i),
    ensures
        ({
            let n = m.committed(c);
            let was = m.scene.visuals[i];
            &&& n.scene.visuals[i] == (Visual {
                width: c.child_size().0,
                height: c.child_size().1,
                transform: Transform3D { position: c.child_place, ..was.transform },
                ..was
            })
            &&& same_but(m.scene, n.scene, i)
            &&& n.workspaces == m.workspaces
            &&& n.outbox == m.outbox.push(
                Effect::AdoptTexture { vid, crop: c.child_crop() },
            ).push(Effect::ScheduleRender)
        }),
{
    lemma_child(m, vid, i, c.child_size(), c.child_crop(), c.child_place);
}

proof fn lemma_child(
    m: GlassModel,
    vid: VisualId,
    i: int,
    size: (i32, i32),
    crop: Option<SourceUv>,
    place: Vec3,
)
    requires
        is_visual(m.scene, vid, i),
    ensures
        ({
            let n = m.child_updated(vid, size, crop, place);
            let was = m.scene.visuals[i];
            &&& n.scene.visuals[i] == (Visual {
                width: size.0,
                height: size.1,
                transform: Transform3D { position: place, ..was.transform },
                ..was
            })
            &&& same_but(m.scene, n.scene, i)
            &&& n.outbox == m.outbox.push(Effect::AdoptTexture { vid, crop })
            &&& n.workspaces == m.workspaces
        }),
{
    lemma_visual(m.scene, vid, i);
    let was = m.scene.visuals[i];
    let v = Visual { width: size.0, height: size.1, ..was };
    lemma_changed(m.scene, vid, i, v);
    let s = m.scene.resized(vid, size.0, size.1);
    lemma_visual(s, vid, i);
    lemma_changed(s, vid, i, Visual { transform: Transform3D { position: place, ..v.transform }, ..v });
}

/// The popup of the input method hangs on the window that is typed into,
/// exactly at the place that the commit gives for it, in its texture's
/// size.
pub proof fn law_input_popup_is_shown_at_its_place(m: GlassModel, c: SurfaceCommit, parent: VisualId)
    requires
        m.wf(),
        c.role == SurfaceRole::InputPopup,
        brings_content(c),
        m.ime_parent == Some(parent),
        m.ime_popups.contains(c.surface),
        value_of(m.ime_visuals, c.surface) is None,
    ensures
        ({
            let n = m.committed(c);
            let v = n.scene.visuals.last();
            &&& one_more(m.scene, n.scene)
            &&& is_placed(v, c.fresh, c.texture.unwrap(), c.child_place)
            &&& v.parent == Some(parent)
            &&& n.surface_of(c.fresh) == Some(c.surface)
            &&& value_of(n.ime_visuals, c.surface) == Some(c.fresh.0)
            &&& joined_at(m.workspaces, n.workspaces, c.fresh, m.workspaces.active)
            &&& n.outbox == m.outbox.push(Effect::AdoptTexture { vid: c.fresh, crop: None }).push(
                Effect::ScheduleRender,
            )
        }),
{
    law_bound_key_is_found(m.surfaces, c.fresh.0, c.surface, 0);
    law_bound_key_is_found(m.ime_visuals, c.surface, c.fresh.0, 0);
    let n = m.committed(c);
    assert(n.scene.visuals.drop_last() =~= m.scene.visuals);
}

/// A later commit of the input method's popup gives its visual the new
/// size and place.
pub proof fn law_input_popup_follows_its_commits(
    m: GlassModel,
    c: SurfaceCommit,
    vid: VisualId,
    i: int,
)
    requires
        c.role == SurfaceRole::InputPopup,
        brings_content(c),
        m.ime_parent is Some,
        m.ime_popups.contains(c.surface),
        value_of(m.ime_visuals, c.surface) == Some(vid.0),
        is_visual(m.scene, vid, i),
    ensures
        ({
            let n = m.committed(c);
            let was = m.scene.visuals[i];
            &&& n.scene.visuals[i] == (Visual {
                width: c.texture.unwrap().0,
                height: c.texture.unwrap().1,
                transform: Transform3D { position: c.child_place, ..was.transform },
                ..was
            })
            &&& same_but(m.scene, n.scene, i)
            &&& n.workspaces == m.workspaces
        }),
{
    lemma_child(m, vid, i, c.texture.unwrap(), None, c.child_place);
}

/// A commit that brought no content shows nothing and changes nothing
/// that is shown.
pub proof fn law_commit_without_content_shows_nothing(m: GlassModel, c: SurfaceCommit)
    requires
        !brings_content(c),
    ensures
        m.committed(c).scene == m.scene,
        m.committed(c).workspaces == m.workspaces,
        m.committed(c).toplevels == m.toplevels,
        m.committed(c).popups == m.popups,
        m.committed(c).surfaces == m.surfaces,
{
}

/// A commit that shows a window for the first time.
pub open spec fn is_first_showing(m: GlassModel, c: SurfaceCommit, k: int) -> bool {
    &&& c.role == SurfaceRole::Window
    &&& brings_content(c)
    &&& forall|j: int| 0 <= j < m.x11.len() ==> (#[trigger] m.x11[j]).surface != c.surface
    &&& forall|j: int| 0 <= j < m.popups.len() ==> (#[trigger] m.popups[j]).surface != c.surface
    &&& 0 <= k < m.toplevels.len()
    &&& m.toplevels[k].surface == c.surface
    &&& forall|j: int| 0 <= j < k ==> (#[trigger] m.toplevels[j]).surface != c.surface
    &&& m.toplevels[k].visual_id is None
    &&& m.toplevels[k].lifecycle != SurfaceLifecycle::Mapped
    &&& m.toplevels[k].lifecycle != SurfaceLifecycle::Destroyed
    &&& is_fresh_id(m.scene, c.fresh)
}

/// The saved window at `s` is the first of this application.
pub open spec fn is_first_saved(m: GlassModel, app: Seq<char>, s: int) -> bool {
    &&& 0 <= s < m.saved.len()
    &&& m.saved[s].app_id@ == app
    &&& forall|j: int| 0 <= j < s ==> (#[trigger] m.saved[j]).app_id@ != app
}

/// No saved window is of this application, and none waits to be reopened.
pub open spec fn is_unexpected(m: GlassModel, app: Seq<char>) -> bool {
    &&& forall|j: int| 0 <= j < m.saved.len() ==> (#[trigger] m.saved[j]).app_id@ != app
    &&& m.pending_reopen matches Some(p) ==> p.app_id@ != app
}

/// What holds of a window that was just shown, wherever it was placed.
pub open spec fn is_welcomed(m: GlassModel, n: GlassModel, c: SurfaceCommit, k: int) -> bool {
    let v = n.scene.visuals.last();
    &&& n.scene.visuals.len() == m.scene.visuals.len() + 1
    &&& v.id == c.fresh
    &&& v.width == c.size().0
    &&& v.height == c.size().1
    &&& v.parent is None
    &&& v.window_state == WindowState::Normal
    &&& v.connected
    &&& forall|j: int|
        0 <= j < m.scene.visuals.len() ==> {
            &&& (#[trigger] n.scene.visuals[j]).id == m.scene.visuals[j].id
            &&& n.scene.visuals[j].transform == m.scene.visuals[j].transform
            &&& n.scene.visuals[j].width == m.scene.visuals[j].width
            &&& n.scene.visuals[j].height == m.scene.visuals[j].height
        }
    &&& n.scene.focused_id == Some(c.fresh)
    &&& n.surface_of(c.fresh) == Some(c.surface)
    &&& n.announced.contains(c.fresh)
    &&& n.toplevels == m.toplevels.update(
        k,
        ToplevelInfo {
            lifecycle: SurfaceLifecycle::Mapped,
            size: Some(c.size()),
            visual_id: Some(c.fresh),
            ..m.toplevels[k]
        },
    )
    &&& n.outbox.len() > m.outbox.len() + 2
    &&& n.outbox.take(m.outbox.len() as int) == m.outbox
    &&& n.outbox[m.outbox.len() as int] == (Effect::PublishWindow { vid: c.fresh })
    &&& n.outbox[m.outbox.len() as int + 1] == (Effect::AdoptTexture { vid: c.fresh, crop: c.crop() })
    &&& n.outbox.last() == Effect::ScheduleRender
    &&& n.camera == m.camera
}

/// The row of a toplevel that is being shown.
spec fn shown_row(m: GlassModel, c: SurfaceCommit, k: int) -> ToplevelInfo {
    ToplevelInfo {
        lifecycle: SurfaceLifecycle::Mapped,
        size: Some(c.size()),
        visual_id: Some(c.fresh),
        ..m.toplevels[k]
    }
}

proof fn lemma_placed(m: GlassModel, c: SurfaceCommit, k: int)
    requires
        0 <= k < m.toplevels.len(),
    ensures
        ({
            let app = m.toplevels[k].app_id@;
            let p = m.mapped_row(k, c).window_placed(k, c);
            &&& p.scene.visuals == m.scene.visuals.push(
                Visual {
                    transform: m.placement(app, c),
                    ..crate::compositor::commit::new_visual(c.fresh, c.size())
                },
            )
            &&& p.toplevels == m.toplevels.update(k, shown_row(m, c, k))
            &&& p.surfaces == crate::table::bound(m.surfaces, c.fresh.0, c.surface)
            &&& p.announced == with_member(m.announced, c.fresh)
            &&& p.saved == m.arrivals_taken(app, c.fresh).saved
            &&& p.pending_reopen == m.arrivals_taken(app, c.fresh).pending_reopen
            &&& p.scene.detached_set == m.arrivals_taken(app, c.fresh).scene.detached_set
            &&& p.workspaces == m.joined_here(c.fresh).workspaces
            &&& p.camera == m.camera
            &&& p.outbox.len() >= m.outbox.len() + 2
            &&& p.outbox.take(m.outbox.len() as int) == m.outbox
            &&& p.outbox[m.outbox.len() as int] == (Effect::PublishWindow { vid: c.fresh })
            &&& p.outbox[m.outbox.len() as int + 1] == (Effect::AdoptTexture {
                vid: c.fresh,
                crop: c.crop(),
            })
        }),
{
    let p = m.mapped_row(k, c).window_placed(k, c);
    assert(p.toplevels =~= m.toplevels.update(k, shown_row(m, c, k)));
    assert(p.outbox.take(m.outbox.len() as int) =~= m.outbox);
}

proof fn lemma_homing(
    m: GlassModel,
    vid: VisualId,
    returning: Option<crate::compositor::state::SavedVisual>,
    reopening: Option<crate::closed::PendingReopen>,
    other: GlassModel,
)
    requires
        other.workspaces == m.workspaces,
    ensures
        m.sent_home(vid, returning, reopening) == (GlassModel {
            workspaces: m.sent_home(vid, returning, reopening).workspaces,
            ..m
        }),
        other.sent_home(vid, returning, reopening).workspaces == m.sent_home(
            vid,
            returning,
            reopening,
        ).workspaces,
{
}

proof fn lemma_greeted(m: GlassModel, k: int, vid: VisualId)
    ensures
        ({
            let g = m.window_greeted(k, vid);
            &&& g.scene.visuals.len() == m.scene.visuals.len()
            &&& forall|j: int|
                0 <= j < m.scene.visuals.len() ==> #[trigger] g.scene.visuals[j] == (Visual {
                    chrome_focused: m.scene.visuals[j].id == vid,
                    ..m.scene.visuals[j]
                })
            &&& g.scene.focused_id == Some(vid)
            &&& g.scene.detached_set == m.scene.detached_set
            &&& g.toplevels == m.toplevels
            &&& g.surfaces == m.surfaces
            &&& g.announced == m.announced
            &&& g.saved == m.saved
            &&& g.pending_reopen == m.pending_reopen
            &&& g.workspaces == m.workspaces
            &&& g.camera == m.camera
            &&& g.outbox.len() > m.outbox.len()
            &&& g.outbox.take(m.outbox.len() as int) == m.outbox
        }),
{
    let g = m.window_greeted(k, vid);
    assert(g.outbox.take(m.outbox.len() as int) =~= m.outbox);
}

proof fn lemma_first_showing(m: GlassModel, c: SurfaceCommit, k: int)
    requires
        m.wf(),
        is_first_showing(m, c, k),
    ensures
        is_welcomed(m, m.committed(c), c, k),
        m.committed(c).scene.visuals.last().transform == m.placement(m.toplevels[k].app_id@, c),
        m.committed(c).workspaces == m.joined_here(c.fresh).sent_home(
            c.fresh,
            m.returning(m.toplevels[k].app_id@),
            m.reopening(m.toplevels[k].app_id@),
        ).workspaces,
        m.committed(c).saved == m.arrivals_taken(m.toplevels[k].app_id@, c.fresh).saved,
        m.committed(c).pending_reopen == m.arrivals_taken(
            m.toplevels[k].app_id@,
            c.fresh,
        ).pending_reopen,
        m.committed(c).scene.detached_set == m.arrivals_taken(
            m.toplevels[k].app_id@,
            c.fresh,
        ).scene.detached_set,
{
    lemma_surface_index(m.toplevels, c.surface, k);
    lemma_popup_index(m.popups, c.surface, m.popups.len() as int);
    let app = m.toplevels[k].app_id@;
    let p = m.mapped_row(k, c).window_placed(k, c);
    lemma_placed(m, c, k);
    law_bound_key_is_found(m.surfaces, c.fresh.0, c.surface, 0);
    lemma_homing(p, c.fresh, m.returning(app), m.reopening(app), m.joined_here(c.fresh));
    let h = p.sent_home(c.fresh, m.returning(app), m.reopening(app));
    lemma_greeted(h, k, c.fresh);
    let g = h.window_greeted(k, c.fresh);
    let n = m.committed(c);
    assert(n == g.ordering(Effect::ScheduleRender)) by {
        assert(m.toplevel_mapped(k, c) == g);
        assert(m.imported(c) == g);
    }
    assert(n.outbox.take(m.outbox.len() as int) =~= m.outbox) by {
        assert(h.outbox.take(m.outbox.len() as int) == m.outbox);
        assert forall|j: int| 0 <= j < m.outbox.len() implies n.outbox[j] == m.outbox[j] by {
            assert(g.outbox.take(h.outbox.len() as int)[j] == h.outbox[j]);
            assert(h.outbox.take(m.outbox.len() as int)[j] == m.outbox[j]);
        }
    }
    let o = m.outbox.len() as int;
    assert(g.outbox.take(h.outbox.len() as int)[o] == h.outbox[o]);
    assert(g.outbox.take(h.outbox.len() as int)[o + 1] == h.outbox[o + 1]);
    assert forall|j: int| 0 <= j < m.scene.visuals.len() implies {
        &&& (#[trigger] n.scene.visuals[j]).id == m.scene.visuals[j].id
        &&& n.scene.visuals[j].transform == m.scene.visuals[j].transform
        &&& n.scene.visuals[j].width == m.scene.visuals[j].width
        &&& n.scene.visuals[j].height == m.scene.visuals[j].height
    } by {
        assert(g.scene.visuals[j].id == h.scene.visuals[j].id);
        assert(h.scene.visuals[j] == m.scene.visuals[j]);
    }
    let last = m.scene.visuals.len() as int;
    assert(g.scene.visuals[last].id == h.scene.visuals[last].id);
    assert(n.announced.contains(c.fresh)) by {
        if !m.announced.contains(c.fresh) {
            assert(n.announced[m.announced.len() as int] == c.fresh);
        }
    }
}

/// A new window that nobody expected is shown at the place and in the turn
/// that the commit gives, on the shown workspace, and takes focus.
pub proof fn law_new_window_is_shown_at_its_place(m: GlassModel, c: SurfaceCommit, k: int)
    requires
        m.wf(),
        is_first_showing(m, c, k),
        is_unexpected(m, m.toplevels[k].app_id@),
    ensures
        ({
            let n = m.committed(c);
            let t = n.scene.visuals.last().transform;
            &&& is_welcomed(m, n, c, k)
            &&& t.position == c.place
            &&& t.rotation == c.tilt
            &&& t.scale.x == 0x3f80_0000u32 && t.scale.y == 0x3f80_0000u32 && t.scale.z
                == 0x3f80_0000u32
            &&& joined_at(m.workspaces, n.workspaces, c.fresh, m.workspaces.active)
            &&& n.scene.detached_set == m.scene.detached_set
            &&& n.saved == m.saved
            &&& n.pending_reopen == m.pending_reopen
        }),
{
    lemma_first_showing(m, c, k);
    lemma_saved_index(m.saved, m.toplevels[k].app_id@, m.saved.len() as int);
}

/// The visual is on the workspace at `idx`, if that is another one than
/// the shown, and then not on the shown one; else on the shown one.
pub open spec fn went_to(a: GlassModel, b: GlassModel, vid: VisualId, idx: int) -> bool {
    &&& b.workspaces.active == a.workspaces.active
    &&& 0 <= idx < a.workspaces.all.len() && idx != a.workspaces.active ==> {
        &&& b.workspaces.all[idx].visual_ids.contains(vid)
        &&& !b.workspaces.all[b.workspaces.active].visual_ids.contains(vid)
    }
    &&& !(0 <= idx < a.workspaces.all.len()) || idx == a.workspaces.active
        ==> b.workspaces.all[b.workspaces.active].visual_ids.contains(vid)
}

proof fn lemma_went(m: GlassModel, vid: VisualId, idx: int)
    requires
        m.wf(),
    ensures
        went_to(m, m.joined_here(vid).rehomed(vid, idx), vid, idx),
        m.joined_here(vid).workspaces.all[m.workspaces.active].visual_ids.contains(vid),
{
    let j = m.joined_here(vid);
    let ids = m.workspaces.current().visual_ids;
    assert(with_member(ids, vid).contains(vid)) by {
        if !ids.contains(vid) {
            assert(with_member(ids, vid)[ids.len() as int] == vid);
        }
    }
    if 0 <= idx < m.workspaces.all.len() && idx != m.workspaces.active {
        crate::compositor::lifetime_laws::law_saved_window_goes_home(j, vid, idx);
    }
}

/// A window of an application that was saved comes back exactly in the
/// pose, on the workspace and with the hold on layout it was saved with,
/// and is not waited for any more.
pub proof fn law_saved_window_is_shown_where_it_was(
    m: GlassModel,
    c: SurfaceCommit,
    k: int,
    s: int,
)
    requires
        m.wf(),
        is_first_showing(m, c, k),
        is_first_saved(m, m.toplevels[k].app_id@, s),
        m.pending_reopen matches Some(p) ==> p.app_id@ != m.toplevels[k].app_id@,
    ensures
        ({
            let n = m.committed(c);
            &&& is_welcomed(m, n, c, k)
            &&& n.scene.visuals.last().transform == m.saved[s].transform
            &&& went_to(m, n, c.fresh, m.saved[s].workspace as int)
            &&& n.saved == m.saved.remove(s)
            &&& m.saved[s].detached ==> n.scene.detached_set == m.scene.detached_set.push(c.fresh)
            &&& !m.saved[s].detached ==> n.scene.detached_set == m.scene.detached_set
        }),
{
    lemma_first_showing(m, c, k);
    lemma_saved_index(m.saved, m.toplevels[k].app_id@, s);
    lemma_went(m, c.fresh, m.saved[s].workspace as int);
}

/// A window that was closed and is reopened comes back exactly in the pose
/// and on the workspace it was closed in, and is not waited for any more.
pub proof fn law_reopened_window_is_shown_where_it_was(
    m: GlassModel,
    c: SurfaceCommit,
    k: int,
)
    requires
        m.wf(),
        is_first_showing(m, c, k),
        forall|j: int|
            0 <= j < m.saved.len() ==> (#[trigger] m.saved[j]).app_id@ != m.toplevels[k].app_id@,
        m.pending_reopen matches Some(p) && p.app_id@ == m.toplevels[k].app_id@,
    ensures
        ({
            let n = m.committed(c);
            let p = m.pending_reopen.unwrap();
            &&& is_welcomed(m, n, c, k)
            &&& n.scene.visuals.last().transform == p.transform
            &&& went_to(m, n, c.fresh, p.workspace as int)
            &&& n.pending_reopen is None
            &&& n.saved == m.saved
        }),
{
    lemma_first_showing(m, c, k);
    lemma_saved_index(m.saved, m.toplevels[k].app_id@, m.saved.len() as int);
    lemma_went(m, c.fresh, m.pending_reopen.unwrap().workspace as int);
}

/// An X11 window that is shown for the first time is at the place that the
/// commit gives, upright, on the shown workspace, and takes focus exactly
/// if it may.
pub proof fn law_x11_window_is_shown_at_its_place(m: GlassModel, c: SurfaceCommit, x: int)
    requires
        m.wf(),
        c.role == SurfaceRole::Window,
        brings_content(c),
        0 <= x < m.x11.len(),
        m.x11[x].surface == c.surface,
        forall|j: int| 0 <= j < m.x11.len() && j != x ==> (#[trigger] m.x11[j]).surface != c.surface
            && m.x11[j].window_id != m.x11[x].window_id,
        forall|j: int| 0 <= j < m.surfaces.len() ==> (#[trigger] m.surfaces[j]).1 != c.surface,
        is_fresh_id(m.scene, c.fresh),
    ensures
        ({
            let n = m.committed(c);
            let v = n.scene.visuals.last();
            &&& n.scene.visuals.len() == m.scene.visuals.len() + 1
            &&& is_placed(v, c.fresh, c.size(), c.place)
            &&& v.parent is None
            &&& n.surface_of(c.fresh) == Some(c.surface)
            &&& n.announced.contains(c.fresh)
            &&& joined_at(m.workspaces, n.workspaces, c.fresh, m.workspaces.active)
            &&& n.scene.focused_id == if c.x11_focusable {
                Some(c.fresh)
            } else {
                m.scene.focused_id
            }
            &&& n.outbox[m.outbox.len() as int] == (Effect::PublishWindow { vid: c.fresh })
            &&& n.outbox[m.outbox.len() as int + 1] == (Effect::AdoptTexture {
                vid: c.fresh,
                crop: c.crop(),
            })
            &&& n.toplevels == m.toplevels
        }),
{
    lemma_x11_surface_index(m.x11, c.surface, x);
    lemma_x11_index(m.x11, m.x11[x].window_id, x);
    crate::table::lemma_value_index(m.surfaces, c.surface, m.surfaces.len() as int);
    law_bound_key_is_found(m.surfaces, c.fresh.0, c.surface, 0);
    let n = m.committed(c);
    assert(n.announced.contains(c.fresh)) by {
        if !m.announced.contains(c.fresh) {
            assert(n.announced[m.announced.len() as int] == c.fresh);
        }
    }
}

/// A commit of a window that is shown, while nothing is asked of its
/// client and no transition goes on, gives the visual exactly the size
/// that was committed; its pose stays, and so does every other visual.
pub proof fn law_window_follows_its_commits(
    m: GlassModel,
    c: SurfaceCommit,
    vid: VisualId,
    k: int,
    i: int,
)
    requires
        c.role == SurfaceRole::Window,
        brings_content(c),
        is_row(m, vid, k),
        is_visual(m.scene, vid, i),
        m.toplevels[k].surface == c.surface,
        m.toplevels[k].lifecycle == SurfaceLifecycle::Mapped,
        forall|j: int| 0 <= j < m.x11.len() ==> (#[trigger] m.x11[j]).surface != c.surface,
        forall|j: int| 0 <= j < m.popups.len() ==> (#[trigger] m.popups[j]).surface != c.surface,
        m.maximize.intent(vid) is None,
        m.fullscreen.intent(vid) is None,
        m.maximize.deferred is None,
        m.fullscreen.deferred is None,
        m.resize_session is None,
    ensures
        ({
            let n = m.committed(c);
            &&& n.scene.visuals[i] == (Visual {
                width: c.size().0,
                height: c.size().1,
                ..m.scene.visuals[i]
            })
            &&& same_but(m.scene, n.scene, i)
            &&& n.toplevels == m.toplevels
            &&& n.workspaces == m.workspaces
            &&& n.scene.focused_id == m.scene.focused_id
            &&& n.outbox == m.outbox.push(Effect::AdoptTexture { vid, crop: c.crop() }).push(
                Effect::ScheduleRender,
            )
        }),
{
    lemma_row(m, vid, k);
    lemma_visual(m.scene, vid, i);
    lemma_popup_index(m.popups, c.surface, m.popups.len() as int);
    let a = m.settled(vid, c.size());
    assert(a.scene == m.scene);
    assert(a.outbox == m.outbox);
    assert(a.toplevels == m.toplevels);
    assert(a.workspaces == m.workspaces);
    lemma_changed(
        m.scene,
        vid,
        i,
        Visual { width: c.size().0, height: c.size().1, ..m.scene.visuals[i] },
    );
    let b = a.adopted(vid, c.size(), c.crop());
    assert(a.scene.has(vid));
    assert(m.updated(vid, c) == b);
    assert(m.imported(c) == b);
}

/// The commit that answers a maximize makes the window maximized and gives
/// it the size that was committed.
#[verifier::rlimit(60)]
#[verifier::spinoff_prover]
pub proof fn law_commit_carries_out_a_maximize(
    m: GlassModel,
    c: SurfaceCommit,
    vid: VisualId,
    k: int,
    i: int,
    t: crate::maximize::MaximizeIntent,
)
    requires
        c.role == SurfaceRole::Window,
        brings_content(c),
        is_row(m, vid, k),
        is_visual(m.scene, vid, i),
        m.toplevels[k].surface == c.surface,
        m.toplevels[k].lifecycle == SurfaceLifecycle::Mapped,
        forall|j: int| 0 <= j < m.x11.len() ==> (#[trigger] m.x11[j]).surface != c.surface,
        forall|j: int| 0 <= j < m.popups.len() ==> (#[trigger] m.popups[j]).surface != c.surface,
        m.maximize.intent(vid) == Some(t),
        t.vid == vid,
        t.kind == crate::maximize::MaximizeKind::Maximize,
        c.size() != t.previous || c.size() == t.target,
        m.fullscreen.intent(vid) is None,
        m.maximize.deferred is None,
        m.fullscreen.deferred is None,
        m.resize_session is None,
    ensures
        ({
            let n = m.committed(c);
            &&& n.toplevels[k].maximized
            &&& n.toplevels[k].restore_size == Some(t.restore)
            &&& n.toplevels[k].restore_pose == Some((t.restore_pos, t.restore_rot))
            &&& n.scene.visuals[i].width == c.size().0
            &&& n.scene.visuals[i].height == c.size().1
            &&& crate::compositor::terms::faces_front(
                n.scene.visuals[i].transform,
                m.scene.visuals[i].transform,
            )
            &&& same_but(m.scene, n.scene, i)
        }),
{
    lemma_row(m, vid, k);
    lemma_visual(m.scene, vid, i);
    lemma_popup_index(m.popups, c.surface, m.popups.len() as int);
    let a = m.size_answered(vid, c.size());
    assert(a.toplevels == m.toplevels && a.scene == m.scene && a.maximize == m.maximize);
    crate::compositor::transition_laws::law_maximize_is_carried_out(a, vid, k, i, t, c.size());
    let b = a.maximize_completed(vid, c.size());
    assert(b.maximize.deferred is None);
    assert(b.fullscreen == m.fullscreen);
    let d = m.settled(vid, c.size());
    assert(d.scene == b.scene && d.toplevels == b.toplevels);
    assert(is_visual(b.scene, vid, i));
    lemma_visual(b.scene, vid, i);
    lemma_changed(
        b.scene,
        vid,
        i,
        Visual { width: c.size().0, height: c.size().1, ..b.scene.visuals[i] },
    );
    assert(m.updated(vid, c) == d.adopted(vid, c.size(), c.crop()));
}

/// The commit that answers a request to become fullscreen makes the window
/// so and gives it the size that was committed.
#[verifier::rlimit(60)]
#[verifier::spinoff_prover]
pub proof fn law_commit_carries_out_a_fullscreen(
    m: GlassModel,
    c: SurfaceCommit,
    vid: VisualId,
    k: int,
    i: int,
    t: crate::fullscreen::FullscreenIntent,
)
    requires
        c.role == SurfaceRole::Window,
        brings_content(c),
        is_row(m, vid, k),
        is_visual(m.scene, vid, i),
        m.toplevels[k].surface == c.surface,
        m.toplevels[k].lifecycle == SurfaceLifecycle::Mapped,
        forall|j: int| 0 <= j < m.x11.len() ==> (#[trigger] m.x11[j]).surface != c.surface,
        forall|j: int| 0 <= j < m.popups.len() ==> (#[trigger] m.popups[j]).surface != c.surface,
        m.fullscreen.intent(vid) == Some(t),
        t.kind == crate::fullscreen::FullscreenKind::Fullscreen,
        c.size() != t.previous || c.size() == t.target,
        m.maximize.intent(vid) is None,
        m.maximize.deferred is None,
        m.fullscreen.deferred is None,
        m.resize_session is None,
    ensures
        ({
            let n = m.committed(c);
            &&& n.toplevels[k].fullscreened
            &&& n.toplevels[k].fullscreen_snapshot == m.toplevels[k].fullscreen_snapshot
            &&& n.scene.visuals[i].width == c.size().0
            &&& n.scene.visuals[i].height == c.size().1
            &&& crate::compositor::terms::faces_front(
                n.scene.visuals[i].transform,
                m.scene.visuals[i].transform,
            )
            &&& same_but(m.scene, n.scene, i)
        }),
{
    lemma_row(m, vid, k);
    lemma_visual(m.scene, vid, i);
    lemma_popup_index(m.popups, c.surface, m.popups.len() as int);
    let a = m.size_answered(vid, c.size()).maximize_completed(vid, c.size()).maximize_flushed();
    assert(a.toplevels == m.toplevels && a.scene == m.scene && a.fullscreen == m.fullscreen);
    crate::compositor::transition_laws::law_fullscreen_is_carried_out(a, vid, k, i, t, c.size());
    let b = a.fullscreen_completed(vid, c.size());
    assert(b.fullscreen.deferred is None);
    let d = m.settled(vid, c.size());
    assert(d.scene == b.scene && d.toplevels == b.toplevels);
    assert(is_visual(b.scene, vid, i));
    lemma_visual(b.scene, vid, i);
    lemma_changed(
        b.scene,
        vid,
        i,
        Visual { width: c.size().0, height: c.size().1, ..b.scene.visuals[i] },
    );
    assert(m.updated(vid, c) == d.adopted(vid, c.size(), c.crop()));
}

/// A window that is shown again keeps its visual and pose, gets the size
/// that was committed, and is on the shown workspace.
pub proof fn law_window_shown_again_keeps_its_pose(
    m: GlassModel,
    c: SurfaceCommit,
    vid: VisualId,
    k: int,
    i: int,
)
    requires
        m.wf(),
        c.role == SurfaceRole::Window,
        brings_content(c),
        is_row(m, vid, k),
        is_visual(m.scene, vid, i),
        m.toplevels[k].surface == c.surface,
        m.toplevels[k].lifecycle != SurfaceLifecycle::Mapped,
        m.toplevels[k].lifecycle != SurfaceLifecycle::Destroyed,
        forall|j: int| 0 <= j < m.x11.len() ==> (#[trigger] m.x11[j]).surface != c.surface,
        forall|j: int| 0 <= j < m.popups.len() ==> (#[trigger] m.popups[j]).surface != c.surface,
    ensures
        ({
            let n = m.committed(c);
            &&& n.scene.visuals[i] == (Visual {
                width: c.size().0,
                height: c.size().1,
                ..m.scene.visuals[i]
            })
            &&& same_but(m.scene, n.scene, i)
            &&& n.toplevels[k] == (ToplevelInfo {
                lifecycle: SurfaceLifecycle::Mapped,
                size: Some(c.size()),
                ..m.toplevels[k]
            })
            &&& joined_at(m.workspaces, n.workspaces, vid, m.workspaces.active)
        }),
{
    lemma_row(m, vid, k);
    lemma_visual(m.scene, vid, i);
    lemma_popup_index(m.popups, c.surface, m.popups.len() as int);
    lemma_changed(
        m.scene,
        vid,
        i,
        Visual { width: c.size().0, height: c.size().1, ..m.scene.visuals[i] },
    );
}

/// A popup that is shown again, with its parent in the scene, keeps its
/// visual and moves to the place that the commit gives.
pub proof fn law_popup_shown_again_is_at_its_place(
    m: GlassModel,
    c: SurfaceCommit,
    p: int,
    parent: VisualId,
    vid: VisualId,
    i: int,
    j: int,
)
    requires
        m.wf(),
        c.role == SurfaceRole::Window,
        brings_content(c),
        forall|a: int| 0 <= a < m.x11.len() ==> (#[trigger] m.x11[a]).surface != c.surface,
        forall|a: int|
            0 <= a < m.toplevels.len() ==> (#[trigger] m.toplevels[a]).surface != c.surface,
        0 <= p < m.popups.len(),
        m.popups[p].surface == c.surface,
        forall|a: int| 0 <= a < p ==> (#[trigger] m.popups[a]).surface != c.surface,
        m.popups[p].visual_id == Some(vid),
        m.popups[p].lifecycle != SurfaceLifecycle::Mapped,
        m.popups[p].lifecycle != SurfaceLifecycle::Destroyed,
        m.popups[p].parent_toplevel_vid == Some(parent),
        is_visual(m.scene, parent, j),
        is_visual(m.scene, vid, i),
    ensures
        ({
            let n = m.committed(c);
            let was = m.scene.visuals[i];
            &&& n.scene.visuals[i] == (Visual {
                width: c.size().0,
                height: c.size().1,
                transform: Transform3D { position: c.child_place, ..was.transform },
                ..was
            })
            &&& same_but(m.scene, n.scene, i)
            &&& n.popups[p].lifecycle == SurfaceLifecycle::Mapped
            &&& n.popups[p].visual_id == Some(vid)
            &&& joined_at(m.workspaces, n.workspaces, vid, m.workspaces.active)
        }),
{
    lemma_popup_index(m.popups, c.surface, p);
    lemma_surface_index(m.toplevels, c.surface, m.toplevels.len() as int);
    lemma_visual(m.scene, parent, j);
    lemma_visual(m.scene, vid, i);
    lemma_child(m, vid, i, c.size(), c.crop(), c.child_place);
}

/// The visual of a surface is that of its toplevel, or else of its popup,
/// or else the one that is known to show it.
pub proof fn law_surface_is_found_by_its_visual(m: GlassModel, surface: SurfaceId, k: int, p: int)
    ensures
        0 <= k < m.toplevels.len() && m.toplevels[k].surface == surface && (forall|j: int|
            0 <= j < k ==> (#[trigger] m.toplevels[j]).surface != surface)
            && m.toplevels[k].visual_id is Some ==> m.visual_of_surface(surface)
            == m.toplevels[k].visual_id,
        (forall|j: int| 0 <= j < m.toplevels.len() ==> (#[trigger] m.toplevels[j]).surface != surface)
            && 0 <= p < m.popups.len() && m.popups[p].surface == surface && (forall|j: int|
            0 <= j < p ==> (#[trigger] m.popups[j]).surface != surface)
            && m.popups[p].visual_id is Some ==> m.visual_of_surface(surface)
            == m.popups[p].visual_id,
        (forall|j: int| 0 <= j < m.toplevels.len() ==> (#[trigger] m.toplevels[j]).surface != surface)
            && (forall|j: int| 0 <= j < m.popups.len() ==> (#[trigger] m.popups[j]).surface
            != surface) ==> match m.visual_of_surface(surface) {
            Some(v) => exists|j: int|
                0 <= j < m.surfaces.len() && #[trigger] m.surfaces[j] == (v.0, surface),
            None => forall|j: int|
                0 <= j < m.surfaces.len() ==> (#[trigger] m.surfaces[j]).1 != surface,
        },
{
    if 0 <= k < m.toplevels.len() && m.toplevels[k].surface == surface && (forall|j: int|
        0 <= j < k ==> (#[trigger] m.toplevels[j]).surface != surface) {
        lemma_surface_index(m.toplevels, surface, k);
    }
    if forall|j: int| 0 <= j < m.toplevels.len() ==> (#[trigger] m.toplevels[j]).surface != surface {
        lemma_surface_index(m.toplevels, surface, m.toplevels.len() as int);
    }
    if 0 <= p < m.popups.len() && m.popups[p].surface == surface && (forall|j: int|
        0 <= j < p ==> (#[trigger] m.popups[j]).surface != surface) {
        lemma_popup_index(m.popups, surface, p);
    }
    if forall|j: int| 0 <= j < m.popups.len() ==> (#[trigger] m.popups[j]).surface != surface {
        lemma_popup_index(m.popups, surface, m.popups.len() as int);
    }
    lemma_value_row(m.surfaces, surface);
}

proof fn lemma_value_row(s: Seq<(u64, u64)>, v: u64)
    ensures
        match crate::table::key_of(s, v) {
            Some(k) => exists|j: int| 0 <= j < s.len() && #[trigger] s[j] == (k, v),
            None => forall|j: int| 0 <= j < s.len() ==> (#[trigger] s[j]).1 != v,
        },
        0 <= crate::table::value_index(s, v) <= s.len(),
    decreases s.len(),
{
    if s.len() > 0 && s[0].1 != v {
        let rest = s.drop_first();
        lemma_value_row(rest, v);
        match crate::table::key_of(rest, v) {
            Some(k) => {
                let j = choose|j: int| 0 <= j < rest.len() && #[trigger] rest[j] == (k, v);
                assert(s[j + 1] == (k, v));
            },
            None => {
                assert forall|j: int| 0 <= j < s.len() implies (#[trigger] s[j]).1 != v by {
                    if j > 0 {
                        assert(s[j] == rest[j - 1]);
                    }
                }
            },
        }
    } else if s.len() > 0 {
        assert(s[0] == (s[0].0, v));
    }
}

/// A popup that is shown follows the commits of its client in size and
/// stays where it is.
pub proof fn law_popup_follows_its_commits(
    m: GlassModel,
    c: SurfaceCommit,
    p: int,
    vid: VisualId,
    i: int,
)
    requires
        c.role == SurfaceRole::Window,
        brings_content(c),
        forall|a: int| 0 <= a < m.x11.len() ==> (#[trigger] m.x11[a]).surface != c.surface,
        forall|a: int|
            0 <= a < m.toplevels.len() ==> (#[trigger] m.toplevels[a]).surface != c.surface,
        0 <= p < m.popups.len(),
        m.popups[p].surface == c.surface,
        forall|a: int| 0 <= a < p ==> (#[trigger] m.popups[a]).surface != c.surface,
        m.popups[p].visual_id == Some(vid),
        m.popups[p].lifecycle == SurfaceLifecycle::Mapped,
        is_visual(m.scene, vid, i),
        m.maximize.intent(vid) is None,
        m.fullscreen.intent(vid) is None,
        m.maximize.deferred is None,
        m.fullscreen.deferred is None,
        m.resize_session is None,
    ensures
        ({
            let n = m.committed(c);
            &&& n.scene.visuals[i] == (Visual {
                width: c.size().0,
                height: c.size().1,
                ..m.scene.visuals[i]
            })
            &&& same_but(m.scene, n.scene, i)
            &&& n.popups == m.popups
            &&& n.workspaces == m.workspaces
            &&& n.outbox == m.outbox.push(Effect::AdoptTexture { vid, crop: c.crop() }).push(
                Effect::ScheduleRender,
            )
        }),
{
    lemma_popup_index(m.popups, c.surface, p);
    lemma_surface_index(m.toplevels, c.surface, m.toplevels.len() as int);
    lemma_followed(m, c, vid, i);
    assert(m.imported(c) == m.updated(vid, c));
}

/// An X11 window that is shown follows the commits of its client in size
/// and stays where it is.
pub proof fn law_x11_window_follows_its_commits(
    m: GlassModel,
    c: SurfaceCommit,
    x: int,
    vid: VisualId,
    i: int,
    at: int,
)
    requires
        c.role == SurfaceRole::Window,
        brings_content(c),
        0 <= x < m.x11.len(),
        m.x11[x].surface == c.surface,
        forall|j: int| 0 <= j < m.x11.len() && j != x ==> (#[trigger] m.x11[j]).surface != c.surface
            && m.x11[j].window_id != m.x11[x].window_id,
        0 <= at < m.surfaces.len(),
        m.surfaces[at] == (vid.0, c.surface),
        forall|j: int| 0 <= j < at ==> (#[trigger] m.surfaces[j]).1 != c.surface,
        is_visual(m.scene, vid, i),
        m.maximize.intent(vid) is None,
        m.fullscreen.intent(vid) is None,
        m.maximize.deferred is None,
        m.fullscreen.deferred is None,
        m.resize_session is None,
    ensures
        ({
            let n = m.committed(c);
            &&& n.scene.visuals[i] == (Visual {
                width: c.size().0,
                height: c.size().1,
                ..m.scene.visuals[i]
            })
            &&& same_but(m.scene, n.scene, i)
            &&& n.scene.focused_id == m.scene.focused_id
            &&& n.workspaces == m.workspaces
            &&& n.outbox == m.outbox.push(Effect::AdoptTexture { vid, crop: c.crop() }).push(
                Effect::ScheduleRender,
            )
        }),
{
    lemma_x11_surface_index(m.x11, c.surface, x);
    lemma_x11_index(m.x11, m.x11[x].window_id, x);
    crate::table::lemma_value_index(m.surfaces, c.surface, at);
    lemma_followed(m, c, vid, i);
    assert(is_x11(m.x11, c.surface));
    assert(m.imported(c) == m.updated(vid, c));
}

proof fn lemma_followed(m: GlassModel, c: SurfaceCommit, vid: VisualId, i: int)
    requires
        is_visual(m.scene, vid, i),
        m.maximize.intent(vid) is None,
        m.fullscreen.intent(vid) is None,
        m.maximize.deferred is None,
        m.fullscreen.deferred is None,
        m.resize_session is None,
    ensures
        ({
            let n = m.updated(vid, c);
            &&& n.scene.visuals[i] == (Visual {
                width: c.size().0,
                height: c.size().1,
                ..m.scene.visuals[i]
            })
            &&& same_but(m.scene, n.scene, i)
            &&& n.scene.focused_id == m.scene.focused_id
            &&& n.toplevels == m.toplevels
            &&& n.popups == m.popups
            &&& n.workspaces == m.workspaces
            &&& n.outbox == m.outbox.push(Effect::AdoptTexture { vid, crop: c.crop() })
        }),
{
    lemma_visual(m.scene, vid, i);
    let a = m.settled(vid, c.size());
    assert(a.scene == m.scene);
    assert(a.outbox == m.outbox);
    lemma_changed(
        m.scene,
        vid,
        i,
        Visual { width: c.size().0, height: c.size().1, ..m.scene.visuals[i] },
    );
    assert(a.scene.has(vid));
}

/// A commit of a window answers the resize that was asked of its client:
/// the request is over, and where it brought the size that was asked for
/// while the pointer has gone on, the size that is wanted by now is asked
/// for before anything else.
pub proof fn law_commit_answers_a_resize(
    m: GlassModel,
    c: SurfaceCommit,
    vid: VisualId,
    k: int,
    i: int,
    r: int,
)
    requires
        c.role == SurfaceRole::Window,
        brings_content(c),
        is_row(m, vid, k),
        is_visual(m.scene, vid, i),
        m.toplevels[k].surface == c.surface,
        m.toplevels[k].lifecycle == SurfaceLifecycle::Mapped,
        !m.toplevels[k].owes_ack,
        forall|j: int| 0 <= j < m.x11.len() ==> (#[trigger] m.x11[j]).surface != c.surface,
        forall|j: int| 0 <= j < m.popups.len() ==> (#[trigger] m.popups[j]).surface != c.surface,
        m.maximize.intent(vid) is None,
        m.fullscreen.intent(vid) is None,
        m.maximize.deferred is None,
        m.fullscreen.deferred is None,
        0 <= r < m.resizes.len(),
        m.resizes[r].vid == vid,
        m.resizes[r].acknowledged,
        forall|j: int| 0 <= j < m.resizes.len() && j != r ==> (#[trigger] m.resizes[j]).vid != vid,
        m.resize_session matches Some(s) && s.vid == vid && s.desired.0 > 0 && s.desired.1 > 0,
    ensures
        ({
            let n = m.committed(c);
            let desired = m.resize_session.unwrap().desired;
            &&& m.resizes[r].requested == c.size() ==> {
                &&& n.outbox[m.outbox.len() as int] == (Effect::Configure {
                    surface: c.surface,
                    serial: n.configure_serial,
                    size: Some(desired),
                    change: ConfigureChange::Resize,
                })
                &&& n.resizes.last().vid == vid
                &&& n.resizes.last().requested == desired
                &&& !n.resizes.last().acknowledged
            }
            &&& m.resizes[r].requested != c.size() ==> {
                &&& n.resizes == m.resizes.remove(r)
                &&& n.outbox[m.outbox.len() as int] == (Effect::AdoptTexture {
                    vid,
                    crop: c.crop(),
                })
            }
            &&& n.scene.visuals[i].width == c.size().0
            &&& n.scene.visuals[i].height == c.size().1
        }),
{
    lemma_row(m, vid, k);
    lemma_visual(m.scene, vid, i);
    lemma_popup_index(m.popups, c.surface, m.popups.len() as int);
    law_answer_brings_the_next_request(m, vid, k, r, c.size());
    let a = m.size_answered(vid, c.size());
    assert(a.scene == m.scene);
    assert(a.maximize == m.maximize);
    assert(a.fullscreen == m.fullscreen);
    let b = m.settled(vid, c.size());
    assert(b.outbox == a.outbox);
    assert(b.resizes == a.resizes);
    assert(b.scene == m.scene);
    lemma_changed(
        m.scene,
        vid,
        i,
        Visual { width: c.size().0, height: c.size().1, ..m.scene.visuals[i] },
    );
    assert(m.imported(c) == m.updated(vid, c));
}

} // verus!
