//! The camera and its bookmarks.
//!
//! A camera is carried by bit patterns, so saving and restoring a view is
//! exact.
use vstd::prelude::*;

use crate::scene::{Scalar, Vec3, ZERO};

verus! {

/// Number of bookmark slots.
pub const BOOKMARK_SLOTS: usize = 10;

/// `800.0`, the default distance from the workspace plane.
pub const DEFAULT_DISTANCE: u32 = 0x4448_0000;

/// `500.0`, the distance of the flat (orthographic) view.
pub const FLAT_DISTANCE: u32 = 0x43fa_0000;

/// `3000.0`, the distance that shows every workspace.
pub const WORKSPACES_DISTANCE: u32 = 0x453b_8000;

/// `-0.3`, the pitch of the view over every workspace.
pub const WORKSPACES_PITCH: u32 = 0xbe99_999a;

/// `10.0`.
pub const DEFAULT_SPEED: u32 = 0x4120_0000;

/// `0.005`.
pub const DEFAULT_SENSITIVITY: u32 = 0x3ba3_d70a;

/// `50.0`.
pub const DEFAULT_ZOOM_SPEED: u32 = 0x4248_0000;

/// Saved camera position, yaw and pitch.
#[derive(Debug, Clone, Copy, PartialEq, Eq, Structural)]
pub struct CameraView {
    pub position: Vec3,
    pub yaw: Scalar,
    pub pitch: Scalar,
}

#[derive(Debug, Clone, Copy)]
pub struct Camera {
    pub position: Vec3,
    pub yaw: Scalar,
    pub pitch: Scalar,
    pub speed: Scalar,
    pub sensitivity: Scalar,
    pub zoom_speed: Scalar,
    pub bookmarks: [Option<CameraView>; 10],
}

/// A camera looking straight at the workspace plane from this distance,
/// with everything else at its default.
pub open spec fn looks_from(c: Camera, distance: Scalar) -> bool {
    &&& c.position == (Vec3 { x: ZERO, y: ZERO, z: distance })
    &&& c.yaw == ZERO
    &&& c.pitch == ZERO
    &&& c.speed == DEFAULT_SPEED
    &&& c.sensitivity == DEFAULT_SENSITIVITY
    &&& c.zoom_speed == DEFAULT_ZOOM_SPEED
    &&& forall|i: int| 0 <= i < BOOKMARK_SLOTS ==> (#[trigger] c.bookmarks@[i]) is None
}

/// The camera a session starts with.
pub open spec fn default_camera() -> Camera {
    Camera {
        position: Vec3 { x: ZERO, y: ZERO, z: DEFAULT_DISTANCE },
        yaw: ZERO,
        pitch: ZERO,
        speed: DEFAULT_SPEED,
        sensitivity: DEFAULT_SENSITIVITY,
        zoom_speed: DEFAULT_ZOOM_SPEED,
        bookmarks: [None, None, None, None, None, None, None, None, None, None],
    }
}

/// The camera that looks over every workspace.
pub open spec fn workspaces_camera() -> Camera {
    Camera {
        position: Vec3 { x: ZERO, y: ZERO, z: WORKSPACES_DISTANCE },
        pitch: WORKSPACES_PITCH,
        ..default_camera()
    }
}

/// The camera with its view kept in a slot; there are no slots beyond
/// the last.
pub open spec fn with_bookmark(c: Camera, slot: int) -> Camera {
    if 0 <= slot < BOOKMARK_SLOTS {
        Camera {
            bookmarks: vstd::array::spec_array_update(c.bookmarks, slot, Some(view_of(c))),
            ..c
        }
    } else {
        c
    }
}

/// The camera at a view kept in a slot, if there is one.
pub open spec fn at_bookmark(c: Camera, slot: int) -> Camera {
    if 0 <= slot < BOOKMARK_SLOTS && c.bookmarks@[slot] is Some {
        moved_to(c, c.bookmarks@[slot]->0)
    } else {
        c
    }
}

/// The same camera, moved to another view.
pub open spec fn moved_to(c: Camera, view: CameraView) -> Camera {
    Camera { position: view.position, yaw: view.yaw, pitch: view.pitch, ..c }
}

/// What the camera looks at now.
pub open spec fn view_of(c: Camera) -> CameraView {
    CameraView { position: c.position, yaw: c.yaw, pitch: c.pitch }
}

/// Straight at the workspace plane from this distance.
pub open spec fn straight_view(distance: Scalar) -> CameraView {
    CameraView {
        position: Vec3 { x: ZERO, y: ZERO, z: distance },
        yaw: ZERO,
        pitch: ZERO,
    }
}

impl CameraView {
    pub fn straight(distance: Scalar) -> (r: Self)
        ensures
            r == straight_view(distance),
    {
        CameraView { position: Vec3 { x: ZERO, y: ZERO, z: distance }, yaw: ZERO, pitch: ZERO }
    }
}

impl Camera {
    pub fn new() -> (r: Self)
        ensures
            r == default_camera(),
            looks_from(r, DEFAULT_DISTANCE),
    {
        Camera {
            position: Vec3 { x: ZERO, y: ZERO, z: DEFAULT_DISTANCE },
            yaw: ZERO,
            pitch: ZERO,
            speed: DEFAULT_SPEED,
            sensitivity: DEFAULT_SENSITIVITY,
            zoom_speed: DEFAULT_ZOOM_SPEED,
            bookmarks: [None, None, None, None, None, None, None, None, None, None],
        }
    }

    /// The camera that looks over every workspace.
    pub fn over_workspaces() -> (r: Self)
        ensures
            r == workspaces_camera(),
    {
        let mut c = Camera::new();
        c.position.z = WORKSPACES_DISTANCE;
        c.pitch = WORKSPACES_PITCH;
        c
    }

    /// What the camera looks at now.
    pub fn view(&self) -> (r: CameraView)
        ensures
            r == view_of(*self),
    {
        CameraView { position: self.position, yaw: self.yaw, pitch: self.pitch }
    }

    /// Moves the camera to a view; its settings and bookmarks stay.
    pub fn move_to(&mut self, view: CameraView)
        ensures
            *final(self) == moved_to(*old(self), view),
    {
        self.position = view.position;
        self.yaw = view.yaw;
        self.pitch = view.pitch;
    }

    /// Save the current view to a bookmark slot. Other slots do not exist
    /// and nothing is saved there.
    pub fn save_bookmark(&mut self, slot: usize)
        ensures
            *final(self) == with_bookmark(*old(self), slot as int),
            slot < BOOKMARK_SLOTS ==> final(self).bookmarks@ == old(self).bookmarks@.update(
                slot as int,
                Some(view_of(*old(self))),
            ),
    {
        if slot < BOOKMARK_SLOTS {
            let view = self.view();
            self.bookmarks[slot] = Some(view);
        }
    }

    /// Restore a bookmark. Returns true if the slot had a saved view.
    pub fn restore_bookmark(&mut self, slot: usize) -> (r: bool)
        ensures
            r == (slot < BOOKMARK_SLOTS && old(self).bookmarks@[slot as int] is Some),
            *final(self) == at_bookmark(*old(self), slot as int),
    {
        if slot >= BOOKMARK_SLOTS {
            return false;
        }
        match self.bookmarks[slot] {
            Some(view) => {
                self.move_to(view);
                true
            },
            None => false,
        }
    }
}

/// Restoring a slot right after saving it leaves the view where it was,
/// whatever the camera did in between.
pub proof fn law_bookmark_restores_saved_view(c: Camera, later: CameraView, slot: int)
    requires
        0 <= slot < BOOKMARK_SLOTS,
    ensures
        at_bookmark(moved_to(with_bookmark(c, slot), later), slot) == with_bookmark(c, slot),
{
}

} // verus!
