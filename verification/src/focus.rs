//! Camera modes: focusing a visual and overviews.
//!
//! A camera mode is a presentation matter. Entering one saves the camera,
//! and leaving it gives the saved camera back exactly. In the normal mode
//! a transition is a glide: what is shown approaches the camera, and then
//! is the camera.
use vstd::prelude::*;

use crate::group::member_index;
use crate::id_list::copy_ids;
use crate::input::Camera;
use crate::scene::{Scalar, Scene, VisualId, ONE, ZERO};

verus! {

/// The camera mode determines how the camera is positioned.
#[derive(Debug, Clone, Copy, PartialEq, Eq, Structural)]
pub enum CameraMode {
    /// Standard camera, moved by the user.
    Normal,
    /// The camera frames a focused visual.
    Focus(VisualId),
    /// The camera shows all visuals of the workspace.
    Overview,
    /// The camera shows all workspaces.
    WorkspaceOverview,
}

impl Default for CameraMode {
    fn default() -> (r: Self)
        ensures
            r == CameraMode::Normal,
    {
        CameraMode::Normal
    }
}

/// A camera transition from one state to another.
#[derive(Debug, Clone, Copy)]
pub struct FocusTransition {
    pub source_camera: Camera,
    pub target_camera: Camera,
    /// Length of the transition.
    pub duration: Scalar,
    /// Progress from `0.0` (source) to `1.0` (target).
    pub progress: Scalar,
}

/// Whether the number with this bit pattern is less than `1.0`. Positive
/// patterns order as their numbers do; every negative number is less; a
/// pattern that is no number is not.
pub open spec fn below_one(bits: Scalar) -> bool {
    bits < ONE || 0x8000_0000u32 <= bits <= 0xff80_0000u32
}

impl FocusTransition {
    pub fn new(source: Camera, target: Camera) -> (r: Self)
        ensures
            r == (FocusTransition {
                source_camera: source,
                target_camera: target,
                duration: ONE,
                progress: ZERO,
            }),
    {
        FocusTransition {
            source_camera: source,
            target_camera: target,
            duration: ONE,
            progress: ZERO,
        }
    }

    /// Advance to `sum`, the progress plus the time step, and no further
    /// than the end. Returns true if still in progress.
    pub fn advance(&mut self, sum: Scalar) -> (r: bool)
        ensures
            r == below_one(sum),
            *final(self) == old(self).advanced(sum),
    {
        let going = sum < ONE || (0x8000_0000 <= sum && sum <= 0xff80_0000);
        self.progress = if going {
            sum
        } else {
            ONE
        };
        going
    }
}

/// Tracks the camera mode and its transition.
#[derive(Debug, Clone, Copy)]
pub struct FocusManager {
    pub camera_mode: CameraMode,
    /// Camera saved when entering a mode.
    pub saved_camera: Option<Camera>,
    /// The visual a focus mode was entered for.
    pub focus_target: Option<VisualId>,
    /// Active camera transition, if any.
    pub transition: Option<FocusTransition>,
}

/// No mode, nothing saved.
pub open spec fn unfocused() -> FocusManager {
    FocusManager {
        camera_mode: CameraMode::Normal,
        saved_camera: None,
        focus_target: None,
        transition: None,
    }
}

/// The transition from one camera to another, at its start.
pub open spec fn starting(source: Camera, target: Camera) -> FocusTransition {
    FocusTransition {
        source_camera: source,
        target_camera: target,
        duration: ONE,
        progress: ZERO,
    }
}

/// The camera after a camera mode is left: the saved one, if any.
pub open spec fn restored(fm: FocusManager, camera: Camera) -> Camera {
    match fm.saved_camera {
        Some(saved) => saved,
        None => camera,
    }
}

impl FocusTransition {
    /// The transition at `sum`, and no further than its end.
    pub open spec fn advanced(self, sum: Scalar) -> FocusTransition {
        FocusTransition {
            progress: if below_one(sum) {
                sum
            } else {
                ONE
            },
            ..self
        }
    }
}

impl FocusManager {
    /// The camera glides: no mode holds it, and it is on its way.
    pub open spec fn gliding(self) -> bool {
        self.camera_mode == CameraMode::Normal && self.transition is Some
    }

    /// The transition, if any, advanced to `sum`. A glide is over at its
    /// end; a mode stays at the end of its transition.
    pub open spec fn advanced(self, sum: Scalar) -> FocusManager {
        match self.transition {
            Some(t) => FocusManager {
                transition: if self.gliding() && !below_one(sum) {
                    None
                } else {
                    Some(t.advanced(sum))
                },
                ..self
            },
            None => self,
        }
    }

    /// The glide, if any, towards `camera` from here on.
    pub open spec fn aimed_at(self, camera: Camera) -> FocusManager {
        match self.transition {
            Some(t) if self.gliding() => FocusManager {
                transition: Some(FocusTransition { target_camera: camera, ..t }),
                ..self
            },
            _ => self,
        }
    }

    /// No glide any more.
    pub open spec fn arrived(self) -> FocusManager {
        if self.gliding() {
            FocusManager { transition: None, ..self }
        } else {
            self
        }
    }

    /// The camera that is rendered with: the one of the transition while
    /// there is one, else the one that frames the focused visual or the
    /// workspace camera. A focused visual that is gone leaves the
    /// workspace camera in place.
    pub open spec fn shown_camera(
        self,
        camera: Camera,
        blended: Option<Camera>,
        framing: Option<Camera>,
    ) -> Camera {
        match self.camera_mode {
            CameraMode::Focus(_) => match (framing, blended) {
                (None, _) => camera,
                (Some(_), Some(b)) => b,
                (Some(f), None) => f,
            },
            _ => match blended {
                Some(b) => b,
                None => camera,
            },
        }
    }
}

impl FocusManager {
    pub fn new() -> (r: Self)
        ensures
            r == unfocused(),
    {
        FocusManager {
            camera_mode: CameraMode::Normal,
            saved_camera: None,
            focus_target: None,
            transition: None,
        }
    }

    /// Enter focus mode: save the camera and head for `target_cam`, the
    /// camera that frames the target.
    pub fn enter(&mut self, camera: &Camera, target: VisualId, target_cam: Camera)
        ensures
            *final(self) == (FocusManager {
                camera_mode: CameraMode::Focus(target),
                saved_camera: Some(*camera),
                focus_target: Some(target),
                transition: Some(starting(*camera, target_cam)),
            }),
    {
        self.saved_camera = Some(*camera);
        self.focus_target = Some(target);
        self.transition = Some(FocusTransition::new(*camera, target_cam));
        self.camera_mode = CameraMode::Focus(target);
    }

    /// Exit focus mode: restore exactly the saved camera.
    pub fn exit(&mut self, camera: &mut Camera)
        ensures
            *final(self) == unfocused(),
            *final(camera) == restored(*old(self), *old(camera)),
    {
        if let Some(saved) = self.saved_camera {
            *camera = saved;
        }
        *self = FocusManager::new();
    }

    /// Enter overview mode. Saves the camera.
    pub fn enter_overview(&mut self, camera: &Camera, overview_cam: Camera)
        ensures
            *final(self) == (FocusManager {
                camera_mode: CameraMode::Overview,
                saved_camera: Some(*camera),
                transition: Some(starting(*camera, overview_cam)),
                ..*old(self)
            }),
    {
        self.saved_camera = Some(*camera);
        self.transition = Some(FocusTransition::new(*camera, overview_cam));
        self.camera_mode = CameraMode::Overview;
    }

    /// Enter workspace overview mode. Saves the camera.
    pub fn enter_workspace_overview(&mut self, camera: &Camera, overview_cam: Camera)
        ensures
            *final(self) == (FocusManager {
                camera_mode: CameraMode::WorkspaceOverview,
                saved_camera: Some(*camera),
                transition: Some(starting(*camera, overview_cam)),
                ..*old(self)
            }),
    {
        self.saved_camera = Some(*camera);
        self.transition = Some(FocusTransition::new(*camera, overview_cam));
        self.camera_mode = CameraMode::WorkspaceOverview;
    }

    /// Exit overview mode: restore exactly the saved camera.
    pub fn exit_overview(&mut self, camera: &mut Camera)
        ensures
            *final(self) == unfocused(),
            *final(camera) == restored(*old(self), *old(camera)),
    {
        if let Some(saved) = self.saved_camera {
            *camera = saved;
        }
        *self = FocusManager::new();
    }

    fn is_gliding(&self) -> (r: bool)
        ensures
            r == self.gliding(),
    {
        self.transition.is_some() && !self.is_active()
    }

    /// Advance the transition, if any, to `sum`, its progress plus the
    /// time step. Returns true if it is still in progress.
    pub fn update_transition(&mut self, sum: Scalar) -> (r: bool)
        ensures
            r == (old(self).transition is Some && below_one(sum)),
            *final(self) == old(self).advanced(sum),
    {
        let glides = self.is_gliding();
        match self.transition {
            Some(t) => {
                let mut moving = t;
                let going = moving.advance(sum);
                self.transition = if glides && !going {
                    None
                } else {
                    Some(moving)
                };
                going
            },
            None => false,
        }
    }

    /// Lets the glide, if any, head for `camera`.
    pub fn aim(&mut self, camera: &Camera)
        ensures
            *final(self) == old(self).aimed_at(*camera),
    {
        if self.is_gliding() {
            if let Some(t) = self.transition {
                self.transition = Some(FocusTransition { target_camera: *camera, ..t });
            }
        }
    }

    /// Ends the glide, if any.
    pub fn arrive(&mut self)
        ensures
            *final(self) == old(self).arrived(),
    {
        if self.is_gliding() {
            self.transition = None;
        }
    }

    /// The camera to render with. `blended` is the transition's camera at
    /// its progress, `framing` the camera that frames the focus target,
    /// if the target still exists. A destroyed target leaves the
    /// workspace camera in place.
    pub fn interpolated_camera(
        &self,
        camera: &Camera,
        blended: Option<Camera>,
        framing: Option<Camera>,
    ) -> (r: Camera)
        requires
            blended is Some <==> self.transition is Some,
        ensures
            r == self.shown_camera(*camera, blended, framing),
    {
        match self.camera_mode {
            CameraMode::Focus(_) => match framing {
                Some(f) => match blended {
                    Some(b) => b,
                    None => f,
                },
                None => *camera,
            },
            _ => match blended {
                Some(b) => b,
                None => *camera,
            },
        }
    }

    /// Check if focus/overview is active (non-normal mode).
    pub fn is_active(&self) -> (r: bool)
        ensures
            r == (self.camera_mode != CameraMode::Normal),
    {
        match self.camera_mode {
            CameraMode::Normal => false,
            _ => true,
        }
    }
}

/// The visuals a focus on `vid` frames together: the members of the first
/// group that has it, or nothing when it is in no group.
pub fn framed_group(scene: &Scene, vid: VisualId) -> (r: Option<Vec<VisualId>>)
    ensures
        match r {
            Some(ids) => member_index(scene@.groups, vid) < scene@.groups.len() && ids@
                == scene@.groups[member_index(scene@.groups, vid)].members,
            None => member_index(scene@.groups, vid) == scene@.groups.len(),
        },
{
    let mut i: usize = 0;
    while i < scene.groups.len()
        invariant
            i <= scene.groups@.len(),
            forall|j: int| 0 <= j < i ==> !(#[trigger] scene@.groups[j]).members.contains(vid),
        decreases scene.groups@.len() - i,
    {
        if scene.groups[i].contains(vid) {
            proof {
                crate::group::lemma_member_index(scene@.groups, vid, i as int);
            }
            return Some(copy_ids(&scene.groups[i].visual_ids));
        }
        i = i + 1;
    }
    proof {
        crate::group::lemma_member_index(scene@.groups, vid, i as int);
    }
    None
}

/// Leaving focus mode gives back exactly the camera it was entered with,
/// bookmarks and settings as well.
pub proof fn law_focus_round_trip(
    fm: FocusManager,
    entered: FocusManager,
    before: Camera,
    during: Camera,
    target: VisualId,
    target_cam: Camera,
)
    requires
        entered == (FocusManager {
            camera_mode: CameraMode::Focus(target),
            saved_camera: Some(before),
            focus_target: Some(target),
            transition: Some(starting(before, target_cam)),
        }),
    ensures
        restored(entered, during) == before,
{
}

/// Leaving an overview gives back exactly the camera it was entered with,
/// bookmarks and settings as well.
pub proof fn law_overview_round_trip(
    entered: FocusManager,
    before: Camera,
    during: Camera,
)
    requires
        entered.saved_camera == Some(before),
    ensures
        restored(entered, during) == before,
{
}

/// While its visual does not exist, a focus mode shows the workspace
/// camera, whatever the transition is at.
pub proof fn law_destroyed_target_leaves_the_camera(
    fm: FocusManager,
    camera: Camera,
    blended: Option<Camera>,
)
    requires
        fm.camera_mode is Focus,
    ensures
        fm.shown_camera(camera, blended, None) == camera,
{
}

/// A glide shows its blend until its end, and from then on the camera
/// itself.
pub proof fn law_glide_ends_at_the_camera(
    fm: FocusManager,
    camera: Camera,
    blended: Camera,
    framing: Option<Camera>,
    sum: Scalar,
)
    requires
        fm.gliding(),
    ensures
        below_one(sum) ==> fm.advanced(sum).gliding() && fm.advanced(sum).shown_camera(
            camera,
            Some(blended),
            framing,
        ) == blended,
        !below_one(sum) ==> fm.advanced(sum) == fm.arrived() && fm.advanced(sum).shown_camera(
            camera,
            None,
            framing,
        ) == camera,
{
}

/// A transition's progress never passes its end, and the transition
/// reports itself in progress exactly while it has not reached it.
pub proof fn law_transition_stops_at_the_end(t: FocusTransition, sum: Scalar)
    ensures
        t.advanced(sum).progress == sum || t.advanced(sum).progress == ONE,
        below_one(t.advanced(sum).progress) == below_one(sum),
        !below_one(ONE),
        below_one(ZERO),
{
}

/// A transition is where its time has come to: at the sum before one, and
/// at one from then on; source, target and length stay.
pub proof fn law_transition_keeps_to_its_time(t: FocusTransition, sum: Scalar)
    ensures
        sum < 0x3f80_0000 ==> t.advanced(sum).progress == sum,
        0x3f80_0000 <= sum <= 0x7f80_0000 ==> t.advanced(sum).progress == 0x3f80_0000,
        t.advanced(sum).source_camera == t.source_camera,
        t.advanced(sum).target_camera == t.target_camera,
        t.advanced(sum).duration == t.duration,
{
}

/// What is seen in a mode: a focused visual through its transition and
/// then as it is framed; anything else through its transition and then
/// from the camera.
pub proof fn law_mode_decides_what_is_seen(
    fm: FocusManager,
    camera: Camera,
    blended: Camera,
    framing: Camera,
    any: Option<Camera>,
)
    ensures
        fm.camera_mode is Focus ==> {
            &&& fm.shown_camera(camera, Some(blended), Some(framing)) == blended
            &&& fm.shown_camera(camera, None, Some(framing)) == framing
            &&& fm.shown_camera(camera, Some(blended), None) == camera
        },
        !(fm.camera_mode is Focus) ==> {
            &&& fm.shown_camera(camera, Some(blended), any) == blended
            &&& fm.shown_camera(camera, None, any) == camera
        },
{
}

} // verus!
