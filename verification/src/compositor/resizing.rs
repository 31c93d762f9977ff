//! Configures and interactive resizing.
use vstd::prelude::*;

use crate::client_resize::{
    awaits_ack, request_for, requests_after_send, requests_without, Serial,
};
use crate::compositor::focusing::surface_index;
use crate::compositor::state::{
    next_serial_after, ConfigureChange, Effect, GlassModel, LookingGlass, ResizeSession, SurfaceId,
    ToplevelInfo,
};
use crate::id_list::{
    add_id, contains_id, lemma_without_members, remove_id, with_member, without,
};
use crate::scene::{SceneModel, Transform3D, Vec3, VisualId};

verus! {

/// What a client allows its window to be resized to; a side that is not
/// positive is unlimited.
#[derive(Debug, Clone, Copy, PartialEq, Eq)]
pub struct SizeLimits {
    pub min: (i32, i32),
    pub max: (i32, i32),
}

impl SizeLimits {
    /// The smallest size: at least one pixel each way.
    pub open spec fn floor(self) -> (i32, i32) {
        (
            if self.min.0 < 1 {
                1
            } else {
                self.min.0
            },
            if self.min.1 < 1 {
                1
            } else {
                self.min.1
            },
        )
    }

    /// The largest size, if the client limits either side.
    pub open spec fn ceiling(self) -> Option<(i32, i32)> {
        let w = if self.max.0 > 0 {
            self.max.0
        } else {
            i32::MAX
        };
        let h = if self.max.1 > 0 {
            self.max.1
        } else {
            i32::MAX
        };
        if w == i32::MAX && h == i32::MAX {
            None
        } else {
            Some((w, h))
        }
    }

    fn smallest(&self) -> (r: (i32, i32))
        ensures
            r == self.floor(),
    {
        (
            if self.min.0 < 1 {
                1
            } else {
                self.min.0
            },
            if self.min.1 < 1 {
                1
            } else {
                self.min.1
            },
        )
    }

    fn largest(&self) -> (r: Option<(i32, i32)>)
        ensures
            r == self.ceiling(),
    {
        let w: i32 = if self.max.0 > 0 {
            self.max.0
        } else {
            i32::MAX
        };
        let h: i32 = if self.max.1 > 0 {
            self.max.1
        } else {
            i32::MAX
        };
        if w == i32::MAX && h == i32::MAX {
            None
        } else {
            Some((w, h))
        }
    }
}

impl GlassModel {
    /// A configure sent to the `i`th toplevel, which owes an
    /// acknowledgement from here on.
    pub open spec fn configured(
        self,
        i: int,
        size: Option<(i32, i32)>,
        change: ConfigureChange,
    ) -> GlassModel {
        let serial = next_serial_after(self.configure_serial);
        GlassModel {
            toplevels: self.toplevels.update(
                i,
                ToplevelInfo { owes_ack: true, ..self.toplevels[i] },
            ),
            configure_serial: serial,
            outbox: self.outbox.push(
                Effect::Configure { surface: self.toplevels[i].surface, serial, size, change },
            ),
            ..self
        }
    }

    /// The toplevel with the surface of the visual owes an
    /// acknowledgement.
    pub open spec fn owes_ack(self, vid: VisualId) -> bool {
        match self.surface_of(vid) {
            Some(s) => {
                let i = surface_index(self.toplevels, s);
                i < self.toplevels.len() && self.toplevels[i].owes_ack
            },
            None => false,
        }
    }

    /// A resize of the visual to this size can be asked of its client
    /// now: nothing is outstanding for it.
    pub open spec fn resize_permitted(self, vid: VisualId, w: i32, h: i32) -> bool {
        &&& w > 0
        &&& h > 0
        &&& !awaits_ack(self.resizes, vid)
        &&& self.live_toplevel(vid) is Some
        &&& !self.owes_ack(vid)
    }

    /// The toplevel with the surface of the visual, while its client
    /// still holds it.
    pub open spec fn live_toplevel(self, vid: VisualId) -> Option<int> {
        match self.surface_of(vid) {
            Some(s) => {
                let i = surface_index(self.toplevels, s);
                if i < self.toplevels.len() && self.toplevels[i].alive {
                    Some(i)
                } else {
                    None
                }
            },
            None => None,
        }
    }

    /// A resize asked of the client.
    pub open spec fn resize_asked(self, vid: VisualId, w: i32, h: i32) -> GlassModel {
        if self.resize_permitted(vid, w, h) {
            let m = self.configured(
                self.live_toplevel(vid).unwrap(),
                Some((w, h)),
                ConfigureChange::Resize,
            );
            GlassModel {
                resizes: requests_after_send(m.resizes, vid, m.configure_serial, (w, h)),
                ..m
            }
        } else {
            self
        }
    }

    /// A resize ended: the request dropped, and the client told to stop
    /// resizing at the size it has.
    pub open spec fn resize_aborted(self, vid: VisualId) -> GlassModel {
        let m = GlassModel { resizes: requests_without(self.resizes, vid), ..self };
        match m.live_toplevel(vid) {
            Some(i) => m.configured(i, None, ConfigureChange::StopResizing),
            None => m,
        }
    }

    /// A pointer resize of the visual can start.
    pub open spec fn session_permitted(self, vid: VisualId, drawn: bool) -> bool {
        &&& self.resize_session is None
        &&& !self.maximized(vid)
        &&& !self.fullscreened(vid)
        &&& match self.surface_of(vid) {
            Some(s) => surface_index(self.toplevels, s) < self.toplevels.len(),
            None => false,
        }
        &&& self.scene.has(vid)
        &&& drawn
        &&& self.scene.visual(vid).width > 0
        &&& self.scene.visual(vid).height > 0
    }

    pub open spec fn session_begun(self, vid: VisualId, limits: SizeLimits) -> GlassModel {
        let v = self.scene.visual(vid);
        GlassModel {
            scene: SceneModel {
                detached_set: with_member(self.scene.detached_set, vid),
                ..self.scene
            },
            resize_session: Some(
                ResizeSession {
                    vid,
                    start_size: (v.width, v.height),
                    start_transform: v.transform,
                    min_size: limits.floor(),
                    max_size: limits.ceiling(),
                    desired: (v.width, v.height),
                    was_detached: self.scene.detached_set.contains(vid),
                },
            ),
            ..self
        }
    }

    /// What layout leaves alone when no session is going on.
    pub open spec fn settled_detached(self) -> Seq<VisualId> {
        match self.resize_session {
            Some(s) if !s.was_detached => without(self.scene.detached_set, s.vid),
            _ => self.scene.detached_set,
        }
    }

    /// The size last asked of the client is not this one, and nothing
    /// is unacknowledged: it is asked for.
    pub open spec fn size_wanted(self, vid: VisualId, size: (i32, i32)) -> GlassModel {
        let outstanding = match request_for(self.resizes, vid) {
            Some(e) => Some(e.requested),
            None => None,
        };
        if !awaits_ack(self.resizes, vid) && outstanding != Some(size) {
            self.resize_asked(vid, size.0, size.1)
        } else {
            self
        }
    }

    /// A pointer motion during a resize session: the window keeps its
    /// anchored edge where it is, and the client learns the size when
    /// its turn comes.
    pub open spec fn session_updated(self, size: (i32, i32), position: Vec3) -> GlassModel {
        match self.resize_session {
            Some(s) => {
                let m = if self.scene.has(s.vid) {
                    GlassModel {
                        scene: self.scene.posed(
                            s.vid,
                            Transform3D { position, ..self.scene.visual(s.vid).transform },
                        ),
                        ..self
                    }
                } else {
                    self
                };
                let m = m.size_wanted(s.vid, size);
                GlassModel {
                    resize_session: Some(ResizeSession { desired: size, ..s }),
                    ..m
                }
            },
            None => self,
        }
    }

    /// The session's size asked for once the visual's client is free.
    pub open spec fn desire_flushed(self, vid: VisualId) -> GlassModel {
        match self.resize_session {
            Some(s) if s.vid == vid => self.size_wanted(vid, s.desired),
            _ => self,
        }
    }

    /// The session, if any, ended; layout has its window back.
    pub open spec fn session_finished(self) -> GlassModel {
        match self.resize_session {
            Some(s) => GlassModel {
                resize_session: None,
                scene: SceneModel { detached_set: self.settled_detached(), ..self.scene },
                ..self
            }.resize_aborted(s.vid),
            None => self,
        }
    }
}

impl LookingGlass {
    /// Sends a configure to the `i`th toplevel. Returns its serial.
    pub(crate) fn send_configure(
        &mut self,
        i: usize,
        size: Option<(i32, i32)>,
        change: ConfigureChange,
    ) -> (r: Serial)
        requires
            i < old(self)@.toplevels.len(),
        ensures
            final(self)@ == old(self)@.configured(i as int, size, change),
            r == final(self)@.configure_serial,
    {
        let serial: Serial = self.configure_serial.wrapping_add(1);
        self.configure_serial = serial;
        let surface: SurfaceId = self.toplevels[i].surface;
        self.toplevels[i].owes_ack = true;
        self.order(Effect::Configure { surface, serial, size, change });
        serial
    }

    /// Index of the toplevel with the surface of the visual, while its
    /// client still holds it.
    fn live_position(&self, vid: VisualId) -> (r: Option<usize>)
        ensures
            match r {
                Some(i) => i < self@.toplevels.len() && self@.live_toplevel(vid) == Some(i as int),
                None => self@.live_toplevel(vid) is None,
            },
    {
        match self.surface_of(vid) {
            Some(s) => match self.surface_position(s) {
                Some(i) => if self.toplevels[i].alive {
                    Some(i)
                } else {
                    None
                },
                None => None,
            },
            None => None,
        }
    }

    /// Whether the client of the visual owes an acknowledgement.
    pub fn owes_ack(&self, vid: VisualId) -> (r: bool)
        ensures
            r == self@.owes_ack(vid),
    {
        match self.surface_of(vid) {
            Some(s) => match self.surface_position(s) {
                Some(i) => self.toplevels[i].owes_ack,
                None => false,
            },
            None => false,
        }
    }

    /// Asks a client to resize to a logical size. Refuses while any
    /// configure is unacknowledged, so that at most one is outstanding.
    /// The client decides by what it commits.
    pub fn begin_client_resize(&mut self, vid: VisualId, w: i32, h: i32) -> (r: Option<Serial>)
        ensures
            final(self)@ == old(self)@.resize_asked(vid, w, h),
            final(self)@.workspaces == old(self)@.workspaces,
            r == if old(self)@.resize_permitted(vid, w, h) {
                Some(final(self)@.configure_serial)
            } else {
                None
            },
    {
        if w <= 0 || h <= 0 {
            return None;
        }
        if self.client_resizes.awaiting_ack(vid) {
            return None;
        }
        match self.live_position(vid) {
            Some(i) => {
                if self.owes_ack(vid) {
                    return None;
                }
                let serial: Serial = self.send_configure(i, Some((w, h)), ConfigureChange::Resize);
                self.client_resizes.mark_sent(vid, serial, (w, h));
                Some(serial)
            },
            None => None,
        }
    }

    /// Ends a client resize: forgets the request and withdraws the
    /// resizing state, so that the client does not stay in it.
    pub fn abort_client_resize(&mut self, vid: VisualId)
        ensures
            final(self)@ == old(self)@.resize_aborted(vid),
    {
        self.client_resizes.abort(vid);
        if let Some(i) = self.live_position(vid) {
            self.send_configure(i, None, ConfigureChange::StopResizing);
        }
    }

    /// Begins a pointer resize of a toplevel; `drawn` says whether its
    /// quad has an extent. The frame and the client's limits are frozen,
    /// and the visual leaves the automatic layout. Maximized and
    /// fullscreen windows, popups and windows without content refuse.
    pub fn begin_resize_session(
        &mut self,
        vid: VisualId,
        limits: SizeLimits,
        drawn: bool,
    ) -> (r: bool)
        ensures
            r == old(self)@.session_permitted(vid, drawn),
            final(self)@ == if r {
                old(self)@.session_begun(vid, limits)
            } else {
                old(self)@
            },
    {
        if self.resize_session.is_some() {
            return false;
        }
        if self.is_maximized(vid) {
            return false;
        }
        if self.is_fullscreened(vid) {
            return false;
        }
        match self.surface_of(vid) {
            Some(s) => {
                if self.surface_position(s).is_none() {
                    return false;
                }
            },
            None => {
                return false;
            },
        }
        match self.scene.get(vid) {
            Some(v) => {
                if !drawn || v.width <= 0 || v.height <= 0 {
                    return false;
                }
                let was_detached = contains_id(&self.scene.detached_set, vid);
                add_id(&mut self.scene.detached_set, vid);
                self.resize_session = Some(
                    ResizeSession {
                        vid,
                        start_size: (v.width, v.height),
                        start_transform: v.transform,
                        min_size: limits.smallest(),
                        max_size: limits.largest(),
                        desired: (v.width, v.height),
                        was_detached,
                    },
                );
                true
            },
            None => false,
        }
    }

    fn want_size(&mut self, vid: VisualId, size: (i32, i32))
        ensures
            final(self)@ == old(self)@.size_wanted(vid, size),
            final(self)@.workspaces == old(self)@.workspaces,
    {
        if self.client_resizes.awaiting_ack(vid) {
            return;
        }
        let wanted = match self.client_resizes.entry(vid) {
            Some(e) => e.requested.0 != size.0 || e.requested.1 != size.1,
            None => true,
        };
        if wanted {
            self.begin_client_resize(vid, size.0, size.1);
        }
    }

    /// Follows a pointer motion during a resize session. `size` and
    /// `position` are what the session's frozen frame makes of it. A
    /// configure goes out only when the one before has been settled.
    pub fn update_resize_session(&mut self, size: (i32, i32), position: Vec3)
        ensures
            final(self)@ == old(self)@.session_updated(size, position),
    {
        if let Some(session) = self.resize_session {
            let vid = session.vid;
            if let Some(v) = self.scene.get(vid) {
                self.scene.set_transform(vid, Transform3D { position, ..v.transform });
            }
            self.want_size(vid, size);
            self.resize_session = Some(ResizeSession { desired: size, ..session });
        }
    }

    /// Sends the session's size once the configure before it is settled.
    pub fn flush_resize_desired(&mut self, vid: VisualId)
        ensures
            final(self)@ == old(self)@.desire_flushed(vid),
            final(self)@.workspaces == old(self)@.workspaces,
    {
        if let Some(session) = self.resize_session {
            if session.vid == vid {
                self.want_size(vid, session.desired);
            }
        }
    }

    /// Ends the resize session on release. Returns whether there was one.
    pub fn finish_resize_session(&mut self) -> (r: bool)
        ensures
            r == (old(self)@.resize_session is Some),
            final(self)@ == old(self)@.session_finished(),
    {
        match self.resize_session {
            Some(session) => {
                self.resize_session = None;
                if !session.was_detached {
                    remove_id(&mut self.scene.detached_set, session.vid);
                }
                self.abort_client_resize(session.vid);
                true
            },
            None => false,
        }
    }
}

/// While a configure to a window is unacknowledged, asking for a resize
/// changes nothing: at most one configure is outstanding.
pub proof fn law_one_configure_at_a_time(m: GlassModel, vid: VisualId, w: i32, h: i32)
    requires
        m.owes_ack(vid) || awaits_ack(m.resizes, vid),
    ensures
        m.resize_asked(vid, w, h) == m,
        m.size_wanted(vid, (w, h)) == m,
        m.desire_flushed(vid) == m,
{
}

/// A resize that was asked for is outstanding until the client answers.
pub proof fn law_asked_resize_is_outstanding(m: GlassModel, vid: VisualId, w: i32, h: i32)
    requires
        m.resize_permitted(vid, w, h),
    ensures
        m.resize_asked(vid, w, h).owes_ack(vid),
        awaits_ack(m.resize_asked(vid, w, h).resizes, vid),
{
    let r = m.resize_asked(vid, w, h);
    let s = m.surface_of(vid).unwrap();
    let i = surface_index(m.toplevels, s);
    lemma_surface_index_bounds(m.toplevels, s);
    assert forall|j: int| 0 <= j < i implies (#[trigger] r.toplevels[j]).surface != s by {
        assert(r.toplevels[j] == m.toplevels[j]);
    }
    crate::compositor::focusing::lemma_surface_index(r.toplevels, s, i);
    let e = r.resizes.last();
    assert(r.resizes[r.resizes.len() - 1] == e);
}

pub proof fn lemma_surface_index_bounds(s: Seq<ToplevelInfo>, surface: SurfaceId)
    ensures
        0 <= surface_index(s, surface) <= s.len(),
        surface_index(s, surface) < s.len() ==> s[surface_index(s, surface)].surface == surface,
        forall|j: int| 0 <= j < surface_index(s, surface) ==> (#[trigger] s[j]).surface != surface,
    decreases s.len(),
{
    if s.len() > 0 && s[0].surface != surface {
        let rest = s.drop_first();
        lemma_surface_index_bounds(rest, surface);
        assert forall|j: int| 0 <= j < surface_index(s, surface) implies (#[trigger] s[j]).surface
            != surface by {
            if j > 0 {
                assert(s[j] == rest[j - 1]);
            }
        }
    }
}

/// A session that ended leaves no request of its window behind.
pub proof fn law_finished_session_leaves_no_request(m: GlassModel)
    requires
        m.resize_session is Some,
    ensures
        m.session_finished().resize_session is None,
        request_for(m.session_finished().resizes, m.resize_session.unwrap().vid) is None,
{
    let vid = m.resize_session.unwrap().vid;
    crate::client_resize::law_aborted_request_is_gone(m.resizes, vid);
}

/// A resize takes its window from layout for as long as it goes on, and no
/// longer: what was left alone before is left alone after, and nothing
/// else.
pub proof fn law_resize_detaches_for_its_duration(
    m: GlassModel,
    vid: VisualId,
    limits: SizeLimits,
    v: VisualId,
)
    requires
        m.resize_session is None,
    ensures
        m.session_begun(vid, limits).scene.detached_set.contains(vid),
        m.session_begun(vid, limits).session_finished().scene.detached_set.contains(v)
            == m.scene.detached_set.contains(v),
{
    let before = m.scene.detached_set;
    let during = m.session_begun(vid, limits).scene.detached_set;
    lemma_without_members(during, vid);
    if !before.contains(vid) {
        assert(during[before.len() as int] == vid);
        if before.contains(v) {
            assert(during[before.index_of(v)] == v);
        }
    }
}

} // verus!
