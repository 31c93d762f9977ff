//! Maximizing, fullscreen and minimizing.
//!
//! Maximize and fullscreen are transactions with the client: a configure
//! goes out, and what the client commits completes it. The pose a window
//! had is kept and given back. Minimizing only hides the window.
use vstd::prelude::*;

use crate::client_resize::{awaits_ack, requests_after_send, Serial};
use crate::compositor::focusing::{is_window, window_index};
use crate::compositor::state::{
    ConfigureChange, Effect, GlassModel, LookingGlass, SavedPose, ToplevelInfo,
};
use crate::fullscreen::{
    snapshot_of, FullscreenIntent, FullscreenKind, FullscreenSnapshot, FullscreenSource,
    PresentationArea,
};
use crate::maximize::{MaximizeIntent, MaximizeKind, MaximizeSource};
use crate::scene::{centred, identity_rotation, Quat, Transform3D, Vec3, VisualId, ONE, ZERO};

verus! {

/// The pose to give back of a window with this transform.
pub open spec fn pose_of(t: Transform3D) -> SavedPose {
    (
        (t.position.x, t.position.y, t.position.z),
        (t.rotation.x, t.rotation.y, t.rotation.z, t.rotation.s),
    )
}

/// The transform with a pose given back.
pub open spec fn given_back(t: Transform3D, pose: SavedPose) -> Transform3D {
    Transform3D {
        position: Vec3 { x: pose.0.0, y: pose.0.1, z: pose.0.2 },
        rotation: Quat { s: pose.1.3, x: pose.1.0, y: pose.1.1, z: pose.1.2 },
        ..t
    }
}

/// The pose of a window whose visual is gone.
pub open spec fn origin_pose() -> SavedPose {
    ((ZERO, ZERO, ZERO), (ZERO, ZERO, ZERO, ONE))
}

fn take_pose(t: &Transform3D) -> (r: SavedPose)
    ensures
        r == pose_of(*t),
{
    (
        (t.position.x, t.position.y, t.position.z),
        (t.rotation.x, t.rotation.y, t.rotation.z, t.rotation.s),
    )
}

fn give_back(t: &Transform3D, pose: SavedPose) -> (r: Transform3D)
    ensures
        r == given_back(*t, pose),
{
    Transform3D {
        position: Vec3 { x: pose.0.0, y: pose.0.1, z: pose.0.2 },
        rotation: Quat { s: pose.1.3, x: pose.1.0, y: pose.1.1, z: pose.1.2 },
        scale: t.scale,
    }
}

impl GlassModel {
    /// The size a maximized or fullscreen window is configured to: the
    /// view, at least one pixel each way.
    pub open spec fn view_target(self) -> (i32, i32) {
        (
            if self.view_size.0 < 1 {
                1
            } else {
                self.view_size.0
            },
            if self.view_size.1 < 1 {
                1
            } else {
                self.view_size.1
            },
        )
    }

    /// The toplevel shown by the visual, while its client holds it.
    pub open spec fn window(self, vid: VisualId) -> Option<ToplevelInfo> {
        let i = window_index(self.toplevels, vid);
        if i < self.toplevels.len() && self.toplevels[i].alive {
            Some(self.toplevels[i])
        } else {
            None
        }
    }

    /// The toplevel row of the visual replaced.
    pub open spec fn with_row(self, vid: VisualId, row: ToplevelInfo) -> GlassModel {
        GlassModel {
            toplevels: self.toplevels.update(window_index(self.toplevels, vid), row),
            ..self
        }
    }

    /// The toplevel row of the visual.
    pub open spec fn row(self, vid: VisualId) -> ToplevelInfo {
        self.toplevels[window_index(self.toplevels, vid)]
    }

    /// The visual is being resized by the pointer.
    pub open spec fn in_session(self, vid: VisualId) -> bool {
        match self.resize_session {
            Some(s) => s.vid == vid,
            None => false,
        }
    }

    /// A configure to the visual's client would have to wait.
    pub open spec fn must_wait(self, vid: VisualId) -> bool {
        self.owes_ack(vid) || awaits_ack(self.resizes, vid)
    }

    /// A configure with a size sent to the visual's toplevel, and the
    /// size expected back.
    pub open spec fn size_sent(
        self,
        vid: VisualId,
        size: (i32, i32),
        change: ConfigureChange,
    ) -> GlassModel {
        let m = self.configured(window_index(self.toplevels, vid), Some(size), change);
        GlassModel {
            resizes: requests_after_send(m.resizes, vid, m.configure_serial, size),
            ..m
        }
    }

    /// The visual's window can start to become maximized.
    pub open spec fn may_maximize(self, vid: VisualId) -> bool {
        &&& self.window(vid) is Some
        &&& !self.maximized(vid)
        &&& !self.fullscreened(vid)
        &&& !self.in_session(vid)
        &&& self.scene.has(vid)
        &&& self.scene.visual(vid).width > 0
        &&& self.scene.visual(vid).height > 0
    }

    /// A maximize begun, put off while the client owes an
    /// acknowledgement, or refused.
    pub open spec fn maximize_begun(self, vid: VisualId, source: MaximizeSource) -> GlassModel {
        if !self.may_maximize(vid) {
            self
        } else if self.must_wait(vid) {
            GlassModel {
                maximize: self.maximize.put_off(vid, MaximizeKind::Maximize, source),
                ..self
            }
        } else {
            let v = self.scene.visual(vid);
            let target = self.view_target();
            let m = self.size_sent(vid, target, ConfigureChange::Maximize);
            GlassModel {
                maximize: m.maximize.begun(
                    MaximizeIntent {
                        vid,
                        kind: MaximizeKind::Maximize,
                        source,
                        serial: m.configure_serial,
                        target,
                        restore: (v.width, v.height),
                        previous: (v.width, v.height),
                        restore_pos: pose_of(v.transform).0,
                        restore_rot: pose_of(v.transform).1,
                    },
                ),
                ..m
            }
        }
    }

    /// The size an unmaximized window gets back.
    pub open spec fn unmaximize_size(self, vid: VisualId) -> (i32, i32) {
        match self.row(vid).restore_size {
            Some(s) => s,
            None => self.view_target(),
        }
    }

    /// The pose an unmaximized window gets back.
    pub open spec fn unmaximize_pose(self, vid: VisualId) -> SavedPose {
        match self.row(vid).restore_pose {
            Some(p) => p,
            None => if self.scene.has(vid) {
                pose_of(self.scene.visual(vid).transform)
            } else {
                origin_pose()
            },
        }
    }

    /// The size the visual has, or another if it is gone.
    pub open spec fn committed_or(self, vid: VisualId, size: (i32, i32)) -> (i32, i32) {
        if self.scene.has(vid) {
            (self.scene.visual(vid).width, self.scene.visual(vid).height)
        } else {
            size
        }
    }

    pub open spec fn unmaximize_begun(self, vid: VisualId, source: MaximizeSource) -> GlassModel {
        if !(self.window(vid) is Some && self.maximized(vid)) {
            self
        } else if self.must_wait(vid) {
            GlassModel {
                maximize: self.maximize.put_off(vid, MaximizeKind::Unmaximize, source),
                ..self
            }
        } else {
            let restore = self.unmaximize_size(vid);
            let m = self.size_sent(vid, restore, ConfigureChange::Unmaximize);
            GlassModel {
                maximize: m.maximize.begun(
                    MaximizeIntent {
                        vid,
                        kind: MaximizeKind::Unmaximize,
                        source,
                        serial: m.configure_serial,
                        target: restore,
                        restore,
                        previous: self.committed_or(vid, restore),
                        restore_pos: self.unmaximize_pose(vid).0,
                        restore_rot: self.unmaximize_pose(vid).1,
                    },
                ),
                ..m
            }
        }
    }

    pub open spec fn maximize_toggled(self, vid: VisualId, source: MaximizeSource) -> GlassModel {
        if self.maximized(vid) {
            self.unmaximize_begun(vid, source)
        } else {
            self.maximize_begun(vid, source)
        }
    }

    /// The window became maximized: it is presented centred, and the pose
    /// it had when that was asked for is kept.
    pub open spec fn maximize_applied(self, intent: MaximizeIntent) -> GlassModel {
        let vid = intent.vid;
        if !is_window(self.toplevels, vid) {
            self
        } else if !self.scene.has(vid) {
            self.with_row(
                vid,
                ToplevelInfo {
                    maximized: true,
                    restore_size: Some(intent.restore),
                    ..self.row(vid)
                },
            )
        } else {
            let t = self.scene.visual(vid).transform;
            let m = self.with_row(
                vid,
                ToplevelInfo {
                    maximized: true,
                    restore_size: Some(intent.restore),
                    restore_pose: Some((intent.restore_pos, intent.restore_rot)),
                    ..self.row(vid)
                },
            );
            GlassModel { scene: self.scene.posed(vid, centred(t)), ..m }
        }
    }

    /// The window is no longer maximized: it has its pose back.
    pub open spec fn unmaximize_applied(self, intent: MaximizeIntent) -> GlassModel {
        let vid = intent.vid;
        if !is_window(self.toplevels, vid) {
            self
        } else if !self.scene.has(vid) {
            self.with_row(
                vid,
                ToplevelInfo { maximized: false, restore_size: None, ..self.row(vid) },
            )
        } else {
            let t = self.scene.visual(vid).transform;
            let pose = match self.row(vid).restore_pose {
                Some(p) => p,
                None => (intent.restore_pos, intent.restore_rot),
            };
            let m = self.with_row(
                vid,
                ToplevelInfo {
                    maximized: false,
                    restore_size: None,
                    restore_pose: None,
                    ..self.row(vid)
                },
            );
            GlassModel { scene: self.scene.posed(vid, given_back(t, pose)), ..m }
        }
    }

    /// The request put off, if any, made again.
    pub open spec fn maximize_flushed(self) -> GlassModel {
        let m = GlassModel { maximize: self.maximize.undeferred(), ..self };
        match self.maximize.deferred {
            Some((vid, MaximizeKind::Maximize, source)) => m.maximize_begun(vid, source),
            Some((vid, MaximizeKind::Unmaximize, source)) => m.unmaximize_begun(vid, source),
            None => m,
        }
    }

    /// A commit of this size completes the maximize transaction of the
    /// visual, unless it is one more at the size from before.
    pub open spec fn maximize_completed(self, vid: VisualId, committed: (i32, i32)) -> GlassModel {
        match self.maximize.intent(vid) {
            Some(intent) => if committed == intent.previous && committed != intent.target {
                self
            } else {
                let m = GlassModel { maximize: self.maximize.taken(vid), ..self };
                let n = match intent.kind {
                    MaximizeKind::Maximize => m.maximize_applied(intent),
                    MaximizeKind::Unmaximize => m.unmaximize_applied(intent),
                };
                n.maximize_flushed()
            },
            None => self,
        }
    }

    /// The visual's window can start to become fullscreen.
    pub open spec fn may_fullscreen(self, vid: VisualId) -> bool {
        &&& self.window(vid) is Some
        &&& !self.fullscreened(vid)
        &&& !self.in_session(vid)
        &&& self.scene.has(vid)
        &&& self.scene.visual(vid).width > 0
        &&& self.scene.visual(vid).height > 0
    }

    pub open spec fn fullscreen_begun(self, vid: VisualId, source: FullscreenSource) -> GlassModel {
        if !self.may_fullscreen(vid) {
            self
        } else if self.must_wait(vid) {
            GlassModel {
                fullscreen: self.fullscreen.put_off(vid, FullscreenKind::Fullscreen, source),
                ..self
            }
        } else {
            let v = self.scene.visual(vid);
            let was = self.maximized(vid);
            let target = self.view_target();
            let m = GlassModel { maximize: self.maximize.aborted(vid), ..self }.size_sent(
                vid,
                target,
                ConfigureChange::Fullscreen { keep_maximized: was },
            );
            let m = GlassModel {
                fullscreen: m.fullscreen.begun(
                    FullscreenIntent {
                        vid,
                        kind: FullscreenKind::Fullscreen,
                        source,
                        serial: m.configure_serial,
                        target,
                        previous: (v.width, v.height),
                        snapshot: None,
                    },
                ),
                ..m
            };
            m.with_row(
                vid,
                ToplevelInfo {
                    fullscreen_snapshot: Some(self.captured_for_fullscreen(vid)),
                    ..m.row(vid)
                },
            )
        }
    }

    /// The window is on its way into fullscreen.
    pub open spec fn fullscreen_pending(self, vid: VisualId) -> bool {
        match self.fullscreen.intent(vid) {
            Some(i) => i.kind == FullscreenKind::Fullscreen,
            None => false,
        }
    }

    /// The window as it is before fullscreen: as it was captured on the
    /// way there already, else as it is now.
    pub open spec fn captured_for_fullscreen(self, vid: VisualId) -> FullscreenSnapshot {
        let v = self.scene.visual(vid);
        match self.row(vid).fullscreen_snapshot {
            Some(s) if self.fullscreen_pending(vid) => s,
            _ => snapshot_of(
                (v.width, v.height),
                v.transform.position,
                v.transform.rotation,
                self.maximized(vid),
            ),
        }
    }

    /// What a window gets back when it leaves fullscreen.
    pub open spec fn fullscreen_snapshot(self, vid: VisualId) -> FullscreenSnapshot {
        match self.row(vid).fullscreen_snapshot {
            Some(s) => s,
            None => snapshot_of(
                (800i32, 600i32),
                Vec3 { x: ZERO, y: ZERO, z: ZERO },
                identity_rotation(),
                false,
            ),
        }
    }

    pub open spec fn unfullscreen_begun(
        self,
        vid: VisualId,
        source: FullscreenSource,
    ) -> GlassModel {
        if !(self.window(vid) is Some && (self.fullscreened(vid) || self.fullscreen.intent(
            vid,
        ) is Some)) {
            self
        } else if self.must_wait(vid) {
            GlassModel {
                fullscreen: self.fullscreen.put_off(vid, FullscreenKind::Unfullscreen, source),
                ..self
            }
        } else {
            let snapshot = self.fullscreen_snapshot(vid);
            let target = snapshot.restore_size;
            let m = self.size_sent(vid, target, ConfigureChange::Unfullscreen);
            GlassModel {
                fullscreen: m.fullscreen.begun(
                    FullscreenIntent {
                        vid,
                        kind: FullscreenKind::Unfullscreen,
                        source,
                        serial: m.configure_serial,
                        target,
                        previous: self.committed_or(vid, target),
                        snapshot: Some(snapshot),
                    },
                ),
                ..m
            }
        }
    }

    pub open spec fn fullscreen_toggled(
        self,
        vid: VisualId,
        source: FullscreenSource,
    ) -> GlassModel {
        if self.fullscreened(vid) {
            self.unfullscreen_begun(vid, source)
        } else {
            self.fullscreen_begun(vid, source)
        }
    }

    /// The window became fullscreen: it is presented centred.
    pub open spec fn fullscreen_applied(self, vid: VisualId) -> GlassModel {
        if !is_window(self.toplevels, vid) {
            self
        } else {
            let m = self.with_row(vid, ToplevelInfo { fullscreened: true, ..self.row(vid) });
            GlassModel {
                scene: if self.scene.has(vid) {
                    self.scene.posed(vid, centred(self.scene.visual(vid).transform))
                } else {
                    self.scene
                },
                ..m
            }
        }
    }

    /// The window left fullscreen: it is again what the snapshot says it
    /// was. One that was maximized is presented as maximized windows are.
    pub open spec fn unfullscreen_applied(self, vid: VisualId) -> GlassModel {
        if !is_window(self.toplevels, vid) {
            self
        } else {
            match self.row(vid).fullscreen_snapshot {
                None => self.with_row(
                    vid,
                    ToplevelInfo { fullscreened: false, ..self.row(vid) },
                ),
                Some(snapshot) => {
                    let m = self.with_row(
                        vid,
                        ToplevelInfo {
                            fullscreened: false,
                            fullscreen_snapshot: None,
                            maximized: snapshot.was_maximized,
                            restore_size: if snapshot.was_maximized {
                                self.row(vid).restore_size
                            } else {
                                None
                            },
                            restore_pose: if snapshot.was_maximized {
                                self.row(vid).restore_pose
                            } else {
                                None
                            },
                            ..self.row(vid)
                        },
                    );
                    let back = given_back(
                        self.scene.visual(vid).transform,
                        (snapshot.restore_pos, snapshot.restore_rot),
                    );
                    GlassModel {
                        scene: if !self.scene.has(vid) {
                            self.scene
                        } else if snapshot.was_maximized {
                            self.scene.posed(vid, centred(back))
                        } else {
                            self.scene.posed(vid, back)
                        },
                        ..m
                    }
                },
            }
        }
    }

    pub open spec fn fullscreen_completed(
        self,
        vid: VisualId,
        committed: (i32, i32),
    ) -> GlassModel {
        match self.fullscreen.intent(vid) {
            Some(intent) => if committed == intent.previous && committed != intent.target {
                self
            } else {
                let m = GlassModel { fullscreen: self.fullscreen.taken(vid), ..self };
                let n = match intent.kind {
                    FullscreenKind::Fullscreen => m.fullscreen_applied(vid),
                    FullscreenKind::Unfullscreen => m.unfullscreen_applied(vid),
                };
                n.ordering(Effect::ScheduleRender)
            },
            None => self,
        }
    }

    pub open spec fn fullscreen_flushed(self) -> GlassModel {
        let m = GlassModel { fullscreen: self.fullscreen.undeferred(), ..self };
        match self.fullscreen.deferred {
            Some((vid, FullscreenKind::Fullscreen, source)) => m.fullscreen_begun(vid, source),
            Some((vid, FullscreenKind::Unfullscreen, source)) => m.unfullscreen_begun(vid, source),
            None => m,
        }
    }
}

impl LookingGlass {
    fn view_target(&self) -> (r: (i32, i32))
        ensures
            r == self@.view_target(),
    {
        PresentationArea::for_window_size(self.view_size).size()
    }

    /// Index of the toplevel shown by the visual, while its client holds
    /// it.
    fn live_window(&self, vid: VisualId) -> (r: Option<usize>)
        ensures
            match r {
                Some(i) => i < self@.toplevels.len() && i == window_index(self@.toplevels, vid)
                    && self@.window(vid) == Some(self@.toplevels[i as int]),
                None => self@.window(vid) is None,
            },
    {
        match self.window_position(vid) {
            Some(i) => if self.toplevels[i].alive {
                Some(i)
            } else {
                None
            },
            None => None,
        }
    }

    fn in_session(&self, vid: VisualId) -> (r: bool)
        ensures
            r == self@.in_session(vid),
    {
        match self.resize_session {
            Some(s) => s.vid == vid,
            None => false,
        }
    }

    fn must_wait(&self, vid: VisualId) -> (r: bool)
        ensures
            r == self@.must_wait(vid),
    {
        self.owes_ack(vid) || self.client_resizes.awaiting_ack(vid)
    }

    fn send_size(
        &mut self,
        i: usize,
        vid: VisualId,
        size: (i32, i32),
        change: ConfigureChange,
    ) -> (r: Serial)
        requires
            i < old(self)@.toplevels.len(),
            i == window_index(old(self)@.toplevels, vid),
        ensures
            final(self)@ == old(self)@.size_sent(vid, size, change),
            r == final(self)@.configure_serial,
    {
        let serial: Serial = self.send_configure(i, Some(size), change);
        self.client_resizes.mark_sent(vid, serial, size);
        serial
    }

    /// Begins to maximize a window: its client is configured to the view
    /// size, and decides by what it commits. Put off while the client
    /// owes an acknowledgement. A fullscreen window stays fullscreen.
    pub fn begin_maximize(&mut self, vid: VisualId, source: MaximizeSource)
        ensures
            final(self)@ == old(self)@.maximize_begun(vid, source),
            final(self)@.workspaces == old(self)@.workspaces,
    {
        let i: usize = match self.live_window(vid) {
            Some(i) => i,
            None => {
                return;
            },
        };
        if self.is_maximized(vid) || self.is_fullscreened(vid) || self.in_session(vid) {
            return;
        }
        let v = match self.scene.get(vid) {
            Some(v) => v,
            None => {
                return;
            },
        };
        if v.width <= 0 || v.height <= 0 {
            return;
        }
        let pose = take_pose(&v.transform);
        let target = self.view_target();
        if self.must_wait(vid) {
            self.maximize.defer(vid, MaximizeKind::Maximize, source);
            return;
        }
        let serial: Serial = self.send_size(i, vid, target, ConfigureChange::Maximize);
        self.maximize.begin(
            MaximizeIntent {
                vid,
                kind: MaximizeKind::Maximize,
                source,
                serial,
                target,
                restore: (v.width, v.height),
                previous: (v.width, v.height),
                restore_pos: pose.0,
                restore_rot: pose.1,
            },
        );
    }

    /// Begins to unmaximize a window: its client is configured back to
    /// the size it had.
    pub fn begin_unmaximize(&mut self, vid: VisualId, source: MaximizeSource)
        ensures
            final(self)@ == old(self)@.unmaximize_begun(vid, source),
            final(self)@.workspaces == old(self)@.workspaces,
    {
        let i: usize = match self.live_window(vid) {
            Some(i) => i,
            None => {
                return;
            },
        };
        if !self.is_maximized(vid) {
            return;
        }
        let restore = match self.toplevels[i].restore_size {
            Some(s) => s,
            None => self.view_target(),
        };
        if self.must_wait(vid) {
            self.maximize.defer(vid, MaximizeKind::Unmaximize, source);
            return;
        }
        let visual = self.scene.get(vid);
        let previous = match visual {
            Some(v) => (v.width, v.height),
            None => restore,
        };
        let pose = match self.toplevels[i].restore_pose {
            Some(p) => p,
            None => match visual {
                Some(v) => take_pose(&v.transform),
                None => ((ZERO, ZERO, ZERO), (ZERO, ZERO, ZERO, ONE)),
            },
        };
        let serial: Serial = self.send_size(i, vid, restore, ConfigureChange::Unmaximize);
        self.maximize.begin(
            MaximizeIntent {
                vid,
                kind: MaximizeKind::Unmaximize,
                source,
                serial,
                target: restore,
                restore,
                previous,
                restore_pos: pose.0,
                restore_rot: pose.1,
            },
        );
    }

    /// Toggles maximize on a visual.
    pub fn toggle_maximize_for(&mut self, vid: VisualId, source: MaximizeSource)
        ensures
            final(self)@ == old(self)@.maximize_toggled(vid, source),
            final(self)@.workspaces == old(self)@.workspaces,
    {
        if self.is_maximized(vid) {
            self.begin_unmaximize(vid, source);
        } else {
            self.begin_maximize(vid, source);
        }
    }

    fn apply_maximize(&mut self, intent: MaximizeIntent)
        ensures
            final(self)@ == old(self)@.maximize_applied(intent),
    {
        let vid = intent.vid;
        if let Some(i) = self.window_position(vid) {
            self.toplevels[i].maximized = true;
            self.toplevels[i].restore_size = Some(intent.restore);
            if let Some(v) = self.scene.get(vid) {
                self.toplevels[i].restore_pose = Some((intent.restore_pos, intent.restore_rot));
                self.scene.set_transform(vid, v.transform.centred());
            }
        }
    }

    fn apply_unmaximize(&mut self, intent: MaximizeIntent)
        ensures
            final(self)@ == old(self)@.unmaximize_applied(intent),
    {
        let vid = intent.vid;
        if let Some(i) = self.window_position(vid) {
            self.toplevels[i].maximized = false;
            if let Some(v) = self.scene.get(vid) {
                let pose = match self.toplevels[i].restore_pose {
                    Some(p) => p,
                    None => (intent.restore_pos, intent.restore_rot),
                };
                self.toplevels[i].restore_pose = None;
                self.scene.set_transform(vid, give_back(&v.transform, pose));
            }
            self.toplevels[i].restore_size = None;
        }
    }

    /// Completes a maximize or unmaximize after a commit. A commit at the
    /// target or at a third size applies the acknowledged state; one at
    /// the size from before is still draining and changes nothing.
    pub fn complete_maximize_intent(&mut self, vid: VisualId, committed: (i32, i32))
        ensures
            final(self)@ == old(self)@.maximize_completed(vid, committed),
            final(self)@.workspaces == old(self)@.workspaces,
    {
        let intent = match self.maximize.intent(vid) {
            Some(intent) => intent,
            None => {
                return;
            },
        };
        if same_size(committed, intent.previous) && !same_size(committed, intent.target) {
            return;
        }
        self.maximize.take_intent(vid);
        proof {
            crate::maximize::lemma_intent_is_for(old(self)@.maximize, vid);
        }
        match intent.kind {
            MaximizeKind::Maximize => {
                self.apply_maximize(intent);
            },
            MaximizeKind::Unmaximize => {
                self.apply_unmaximize(intent);
            },
        }
        self.flush_deferred_maximize();
    }

    /// Makes the request that was put off again.
    pub fn flush_deferred_maximize(&mut self)
        ensures
            final(self)@ == old(self)@.maximize_flushed(),
            final(self)@.workspaces == old(self)@.workspaces,
    {
        match self.maximize.take_deferred() {
            Some((vid, kind, source)) => {
                match kind {
                    MaximizeKind::Maximize => {
                        self.begin_maximize(vid, source);
                    },
                    MaximizeKind::Unmaximize => {
                        self.begin_unmaximize(vid, source);
                    },
                }
            },
            None => {},
        }
    }

    /// Begins to make a window fullscreen. What it is and where it is are
    /// captured here, once, and given back when it leaves fullscreen. A
    /// maximize in progress gives way.
    pub fn begin_fullscreen(&mut self, vid: VisualId, source: FullscreenSource)
        ensures
            final(self)@ == old(self)@.fullscreen_begun(vid, source),
            final(self)@.workspaces == old(self)@.workspaces,
    {
        let i: usize = match self.live_window(vid) {
            Some(i) => i,
            None => {
                return;
            },
        };
        if self.is_fullscreened(vid) || self.in_session(vid) {
            return;
        }
        let v = match self.scene.get(vid) {
            Some(v) => v,
            None => {
                return;
            },
        };
        if v.width <= 0 || v.height <= 0 {
            return;
        }
        let was_maximized = self.is_maximized(vid);
        let pending = match self.fullscreen.intent(vid) {
            Some(i) => match i.kind {
                FullscreenKind::Fullscreen => true,
                FullscreenKind::Unfullscreen => false,
            },
            None => false,
        };
        let snapshot = match self.toplevels[i].fullscreen_snapshot {
            Some(s) if pending => s,
            _ => FullscreenSnapshot::capture(
                (v.width, v.height),
                v.transform.position,
                v.transform.rotation,
                was_maximized,
            ),
        };
        let target = self.view_target();
        if self.must_wait(vid) {
            self.fullscreen.defer(vid, FullscreenKind::Fullscreen, source);
            return;
        }
        self.maximize.abort(vid);
        let ghost before = self@;
        let serial: Serial = self.send_size(
            i,
            vid,
            target,
            ConfigureChange::Fullscreen { keep_maximized: was_maximized },
        );
        self.fullscreen.begin(
            FullscreenIntent {
                vid,
                kind: FullscreenKind::Fullscreen,
                source,
                serial,
                target,
                previous: (v.width, v.height),
                snapshot: None,
            },
        );
        proof {
            lemma_configure_keeps_windows(before.toplevels, i as int, vid);
        }
        self.toplevels[i].fullscreen_snapshot = Some(snapshot);
    }

    /// Begins to leave fullscreen: the client is configured back to the
    /// size it had, and the state from before returns.
    pub fn begin_unfullscreen(&mut self, vid: VisualId, source: FullscreenSource)
        ensures
            final(self)@ == old(self)@.unfullscreen_begun(vid, source),
            final(self)@.workspaces == old(self)@.workspaces,
    {
        let i: usize = match self.live_window(vid) {
            Some(i) => i,
            None => {
                return;
            },
        };
        if !self.is_fullscreened(vid) && self.fullscreen.intent(vid).is_none() {
            return;
        }
        let snapshot = match self.toplevels[i].fullscreen_snapshot {
            Some(s) => s,
            None => FullscreenSnapshot::capture(
                (800, 600),
                Vec3 { x: ZERO, y: ZERO, z: ZERO },
                Quat::identity(),
                false,
            ),
        };
        let target = snapshot.restore_size;
        if self.must_wait(vid) {
            self.fullscreen.defer(vid, FullscreenKind::Unfullscreen, source);
            return;
        }
        let previous = match self.scene.get(vid) {
            Some(v) => (v.width, v.height),
            None => target,
        };
        let serial: Serial = self.send_size(i, vid, target, ConfigureChange::Unfullscreen);
        self.fullscreen.begin(
            FullscreenIntent {
                vid,
                kind: FullscreenKind::Unfullscreen,
                source,
                serial,
                target,
                previous,
                snapshot: Some(snapshot),
            },
        );
    }

    /// Toggles fullscreen on a visual.
    pub fn toggle_fullscreen_for(&mut self, vid: VisualId, source: FullscreenSource)
        ensures
            final(self)@ == old(self)@.fullscreen_toggled(vid, source),
            final(self)@.workspaces == old(self)@.workspaces,
    {
        if self.is_fullscreened(vid) {
            self.begin_unfullscreen(vid, source);
        } else {
            self.begin_fullscreen(vid, source);
        }
    }

    fn apply_fullscreen(&mut self, vid: VisualId)
        ensures
            final(self)@ == old(self)@.fullscreen_applied(vid),
    {
        if let Some(i) = self.window_position(vid) {
            self.toplevels[i].fullscreened = true;
            if let Some(v) = self.scene.get(vid) {
                self.scene.set_transform(vid, v.transform.centred());
            }
        }
    }

    fn apply_unfullscreen(&mut self, vid: VisualId)
        ensures
            final(self)@ == old(self)@.unfullscreen_applied(vid),
    {
        if let Some(i) = self.window_position(vid) {
            self.toplevels[i].fullscreened = false;
            if let Some(snapshot) = self.toplevels[i].fullscreen_snapshot {
                self.toplevels[i].fullscreen_snapshot = None;
                self.toplevels[i].maximized = snapshot.was_maximized;
                if !snapshot.was_maximized {
                    self.toplevels[i].restore_size = None;
                    self.toplevels[i].restore_pose = None;
                }
                if let Some(v) = self.scene.get(vid) {
                    let back = give_back(
                        &v.transform,
                        (snapshot.restore_pos, snapshot.restore_rot),
                    );
                    if snapshot.was_maximized {
                        self.scene.set_transform(vid, back.centred());
                    } else {
                        self.scene.set_transform(vid, back);
                    }
                }
            }
        }
    }

    /// Completes a fullscreen or unfullscreen after a commit, by the same
    /// rules as a maximize.
    pub fn complete_fullscreen_intent(&mut self, vid: VisualId, committed: (i32, i32))
        ensures
            final(self)@ == old(self)@.fullscreen_completed(vid, committed),
            final(self)@.workspaces == old(self)@.workspaces,
    {
        let intent = match self.fullscreen.intent(vid) {
            Some(intent) => intent,
            None => {
                return;
            },
        };
        if same_size(committed, intent.previous) && !same_size(committed, intent.target) {
            return;
        }
        self.fullscreen.take_intent(vid);
        match intent.kind {
            FullscreenKind::Fullscreen => {
                self.apply_fullscreen(vid);
            },
            FullscreenKind::Unfullscreen => {
                self.apply_unfullscreen(vid);
            },
        }
        self.schedule_render();
    }

    /// Makes the request that was put off again.
    pub fn flush_fullscreen_deferred(&mut self)
        ensures
            final(self)@ == old(self)@.fullscreen_flushed(),
            final(self)@.workspaces == old(self)@.workspaces,
    {
        match self.fullscreen.take_deferred() {
            Some((vid, kind, source)) => {
                match kind {
                    FullscreenKind::Fullscreen => {
                        self.begin_fullscreen(vid, source);
                    },
                    FullscreenKind::Unfullscreen => {
                        self.begin_unfullscreen(vid, source);
                    },
                }
            },
            None => {},
        }
    }
}

fn same_size(a: (i32, i32), b: (i32, i32)) -> (r: bool)
    ensures
        r == (a == b),
{
    a.0 == b.0 && a.1 == b.1
}

/// Replacing a row by one of the same visual leaves every row where it
/// is found.
pub proof fn lemma_configure_keeps_windows(s: Seq<ToplevelInfo>, i: int, vid: VisualId)
    requires
        0 <= i < s.len(),
    ensures
        forall|row: ToplevelInfo|
            row.visual_id == s[i].visual_id ==> window_index(
                #[trigger] s.update(i, row),
                vid,
            ) == window_index(s, vid),
{
    assert forall|row: ToplevelInfo| row.visual_id == s[i].visual_id implies window_index(
        #[trigger] s.update(i, row),
        vid,
    ) == window_index(s, vid) by {
        let u = s.update(i, row);
        let k = window_index(s, vid);
        crate::compositor::focusing::lemma_window_index_bounds(s, vid);
        assert forall|j: int| 0 <= j < k implies (#[trigger] u[j]).visual_id != Some(vid) by {
            assert(s[j].visual_id != Some(vid));
        }
        crate::compositor::focusing::lemma_window_index(u, vid, k);
    }
}

} // verus!
