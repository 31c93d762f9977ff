//! What the compositor knows, and the outside work it orders.
use vstd::prelude::*;

use crate::app_switcher::ApplicationSwitcher;
use crate::client_resize::{ClientResizeCoordinator, ClientResizeRequest, Serial};
use crate::compositor::damage::SourceUv;
use crate::closed::{ClosedModel, ClosedWindowHistory, PendingReopen};
use crate::context_menu::{ContextMenu, Coordinate, MenuModel};
use crate::focus::{unfocused, FocusManager};
use crate::focus_history::FocusHistory;
use crate::fullscreen::{FullscreenCoordinator, FullscreenModel, FullscreenSnapshot};
use crate::input::{looks_from, Camera, CameraView, DEFAULT_DISTANCE};
use crate::input_router::PointerEventKind;
use crate::maximize::{MaximizeCoordinator, MaximizeModel};
use crate::scene::{Scalar, Scene, SceneModel, Transform3D, VisualId};
use crate::table::Table;
use crate::workspace::{WorkspaceManager, WorkspacesModel};

verus! {

/// Identity of a client surface.
pub type SurfaceId = u64;

/// How far a surface has come in its life.
#[derive(Debug, Clone, Copy, PartialEq, Eq, Structural)]
pub enum SurfaceLifecycle {
    Created,
    Configured,
    Mapped,
    Destroyed,
}

/// A pose to give back: position, and rotation as (i, j, k, w).
pub type SavedPose = ((Scalar, Scalar, Scalar), (Scalar, Scalar, Scalar, Scalar));

/// A toplevel window.
#[derive(Debug)]
pub struct ToplevelInfo {
    pub surface: SurfaceId,
    /// Whether the client still holds the toplevel.
    pub alive: bool,
    /// Whether the client owes an acknowledgement of a configure.
    pub owes_ack: bool,
    pub app_id: String,
    pub title: String,
    pub visual_id: Option<VisualId>,
    pub lifecycle: SurfaceLifecycle,
    pub size: Option<(i32, i32)>,
    pub maximized: bool,
    pub minimized: bool,
    pub fullscreened: bool,
    /// Committed size to give back when unmaximizing.
    pub restore_size: Option<(i32, i32)>,
    /// Pose to give back when unmaximizing.
    pub restore_pose: Option<SavedPose>,
    /// State and pose to give back when leaving fullscreen.
    pub fullscreen_snapshot: Option<FullscreenSnapshot>,
}

/// A window of the last session: where it was and how it was placed.
#[derive(Debug)]
pub struct SavedVisual {
    pub app_id: String,
    pub workspace: usize,
    pub transform: Transform3D,
    /// Whether it was out of the automatic layout.
    pub detached: bool,
}

/// A popup of a toplevel or of another popup.
#[derive(Debug, Clone, Copy, PartialEq, Eq)]
pub struct PopupInfo {
    pub surface: SurfaceId,
    /// The visual of the parent surface when the popup was made.
    pub parent_toplevel_vid: Option<VisualId>,
    pub visual_id: Option<VisualId>,
    pub lifecycle: SurfaceLifecycle,
    pub size: Option<(i32, i32)>,
}

/// An X11 window associated with a surface.
#[derive(Debug, Clone, Copy, PartialEq, Eq, Structural)]
pub struct X11Window {
    pub surface: SurfaceId,
    pub window_id: u32,
}

/// A pointer resize in progress.
#[derive(Debug, Clone, Copy, PartialEq, Eq)]
pub struct ResizeSession {
    pub vid: VisualId,
    /// The committed size at the start.
    pub start_size: (i32, i32),
    /// The pose at the start; the session's frame does not follow it.
    pub start_transform: Transform3D,
    pub min_size: (i32, i32),
    pub max_size: Option<(i32, i32)>,
    /// The size the pointer asks for now.
    pub desired: (i32, i32),
    /// Whether layout left the window alone before the session.
    pub was_detached: bool,
}

/// Pointer constraints in force.
#[derive(Debug, Clone, Copy, PartialEq, Eq, Structural)]
pub struct PointerConstraints {
    pub pointer_locked: bool,
    pub locked_surface: Option<SurfaceId>,
    pub confined_surface: Option<SurfaceId>,
}

/// The spatial presentation mode.
#[derive(Debug, Clone, Copy, PartialEq, Eq, Structural)]
pub struct SpatialView {
    pub spatial_mode: bool,
    /// The view held when spatial mode was left.
    pub spatial_cam_pose: Option<CameraView>,
    /// Whether the camera was fitted to the view once.
    pub spatial_cam_adapted: bool,
}

/// Keyboard and pointer state.
#[derive(Debug, Clone, Copy, PartialEq, Eq, Structural)]
pub struct InputState {
    /// Whether the seat has a keyboard.
    pub keyboard: bool,
    pub ctrl_pressed: bool,
    pub shift_pressed: bool,
    pub alt_pressed: bool,
    pub meta_pressed: bool,
    pub alt_tab_active: bool,
    /// Navigation button held, or zero.
    pub nav_button: u32,
    pub event_serial: u32,
    /// The visual that was selected at the last press.
    pub last_down_vid: Option<VisualId>,
    /// The surface that last had pointer focus.
    pub last_wayland_focus: Option<SurfaceId>,
    /// The visual a drag moves, if one is in progress.
    pub dragging: Option<VisualId>,
    /// Whether a client drag-and-drop is in progress.
    pub dnd_active: bool,
}

/// What a configure asks of a toplevel.
#[derive(Debug, Clone, Copy, PartialEq, Eq, Structural)]
pub enum ConfigureChange {
    /// The first configure of a toplevel.
    Initial,
    /// Resize interactively.
    Resize,
    /// Stop resizing, at the size the client has.
    StopResizing,
    /// Become maximized.
    Maximize,
    /// Stop being maximized.
    Unmaximize,
    /// Become fullscreen; the maximized state stays as told.
    Fullscreen { keep_maximized: bool },
    /// Stop being fullscreen.
    Unfullscreen,
}

/// Work that the compositor orders outside its own state, in order.
#[allow(inconsistent_fields)]
#[derive(Debug, Clone, Copy, PartialEq, Eq)]
pub enum Effect {
    /// Send a configure. Its serial names it until it is acknowledged.
    Configure {
        surface: SurfaceId,
        serial: Serial,
        size: Option<(i32, i32)>,
        change: ConfigureChange,
    },
    /// Give keyboard focus to a surface, as an X11 window if it is one,
    /// or to none.
    KeyboardFocus { target: Option<SurfaceId>, x11: bool, serial: u32 },
    /// Feed a key to the keyboard state and whoever has focus.
    FeedKey { key: u32, pressed: bool, serial: u32 },
    /// Deliver a key to a surface, focusing it; the serial is one of the
    /// client's input events.
    DeliverKey { surface: SurfaceId, x11: bool, key: u32, pressed: bool, serial: u32 },
    /// Deliver a key to the input sink of a visual.
    SinkKey { vid: VisualId, key: u16, pressed: bool },
    /// Move the pointer to where the event has it, over a surface or over
    /// none.
    PointerMotion { surface: Option<SurfaceId>, serial: u32 },
    /// Move the pointer and press or release its button; the serial is
    /// one of the client's input events.
    PointerButton { surface: Option<SurfaceId>, pressed: bool, serial: u32 },
    /// Move the pointer of a client that locked it, by the event's delta.
    LockedMotion { surface: SurfaceId, serial: u32 },
    /// Move the pointer within the region a client confined it to.
    ConfinedMotion { surface: SurfaceId, serial: u32 },
    /// Scroll a surface.
    PointerAxis { surface: SurfaceId },
    /// Deliver a pointer event to the input sink of a visual.
    SinkPointer { vid: VisualId, kind: PointerEventKind, u: Coordinate, v: Coordinate },
    /// Activate the pointer constraint of a surface.
    ActivateConstraint { surface: SurfaceId },
    /// Start to drag a visual.
    StartDrag { vid: VisualId },
    /// Turn, move or zoom the camera by the event's delta.
    OrbitCamera,
    PanCamera,
    ZoomCamera { horizontal: bool },
    /// Launch an application of the taskbar.
    Launch { index: usize },
    /// Send what clients have waiting.
    FlushClients,
    /// Let a key steer the camera.
    CameraKey { key: u32, pressed: bool },
    /// Relaunch the window that was closed last.
    ReopenClosed,
    /// Offer the selections to the client of this surface.
    SelectionFocus { surface: Option<SurfaceId> },
    /// Mark an X11 window active or not.
    X11Activated { surface: SurfaceId, active: bool },
    /// Deactivate the pointer constraint of a surface.
    DeactivateConstraint { surface: SurfaceId },
    /// Ask the client to close the window.
    SendClose { surface: SurfaceId },
    /// End the drag in progress.
    EndDrag,
    /// Stop the client drag-and-drop grab.
    UnsetGrab,
    /// Put a visual in front of the others.
    BringToFront { vid: VisualId },
    /// Put a visual on top of the stack.
    RaiseToTop { vid: VisualId },
    DeEmphasize { vid: VisualId },
    Emphasize { vid: VisualId },
    /// Take a window's visual to the shelf, or back from it.
    Shelve { vid: VisualId },
    Unshelve { vid: VisualId },
    /// Frame what the active workspace shows, by moving the camera out.
    FitCamera,
    /// Arrange the active workspace.
    Arrange,
    /// Letter the decorations of a visual anew from its window.
    LetterChrome { vid: VisualId },
    /// Show the buffer just imported on a visual, cropped as told.
    AdoptTexture { vid: VisualId, crop: Option<SourceUv> },
    /// Announce a window to docks and taskbars.
    PublishWindow { vid: VisualId },
    /// Tell docks and taskbars a window's new title or application.
    UpdateWindow { vid: VisualId },
    /// Withdraw a window from docks and taskbars.
    WithdrawWindow { vid: VisualId },
    /// Offer the selections anew on the next frame.
    RefreshSelection,
    /// Offer the selections anew now.
    OfferSelections,
    /// Produce a frame.
    ScheduleRender,
    /// Close the popup of this surface.
    PopupDone { surface: SurfaceId },
}

/// The compositor's state.
#[derive(Debug)]
pub struct LookingGlass {
    pub toplevels: Vec<ToplevelInfo>,
    pub popups: Vec<PopupInfo>,
    pub scene: Scene,
    pub workspace_manager: WorkspaceManager,
    /// The view of the output that is presented.
    pub camera: Camera,
    pub focus_manager: FocusManager,
    pub spatial: SpatialView,
    pub input: InputState,
    pub pointer_constraints: PointerConstraints,
    /// Visuals with an input sink of their own.
    pub input_sinks: Vec<VisualId>,
    /// Surface of each visual.
    pub wayland_surfaces: Table,
    pub x11_windows: Vec<X11Window>,
    /// Visual of each subsurface.
    pub subsurface_visuals: Table,
    /// Parent surface of each subsurface.
    pub subsurface_parents: Table,
    /// Visual of each input-method popup.
    pub ime_popup_visuals: Table,
    /// Surfaces of the input method's popups.
    pub ime_popups: Vec<SurfaceId>,
    /// The visual that input-method popups are anchored to.
    pub ime_parent_vid: Option<VisualId>,
    /// Windows announced to docks and taskbars.
    pub foreign_toplevels: Vec<VisualId>,
    pub app_switcher: ApplicationSwitcher,
    pub focus_history: FocusHistory,
    pub context_menu: ContextMenu,
    pub closed_windows: ClosedWindowHistory,
    pub pending_reopen: Option<PendingReopen>,
    /// Windows of the last session that have not come back yet.
    pub saved_visuals: Vec<SavedVisual>,
    pub client_resizes: ClientResizeCoordinator,
    pub maximize: MaximizeCoordinator,
    pub fullscreen: FullscreenCoordinator,
    pub resize_session: Option<ResizeSession>,
    /// Size of the presented output, in whole pixels.
    pub view_size: (i32, i32),
    pub shelf_visible: bool,
    /// Windows on the shelf.
    pub shelved: Vec<VisualId>,
    pub de_emphasized: Vec<VisualId>,
    /// Serial of the configure sent last.
    pub configure_serial: Serial,
    /// Outside work ordered and not yet done.
    pub outbox: Vec<Effect>,
}

/// The compositor's state, as a mathematical value.
#[verifier::ext_equal]
pub ghost struct GlassModel {
    pub toplevels: Seq<ToplevelInfo>,
    pub popups: Seq<PopupInfo>,
    pub scene: SceneModel,
    pub workspaces: WorkspacesModel,
    pub camera: Camera,
    pub focus_manager: FocusManager,
    pub spatial: SpatialView,
    pub input: InputState,
    pub constraints: PointerConstraints,
    pub sinks: Seq<VisualId>,
    pub surfaces: Seq<(u64, u64)>,
    pub x11: Seq<X11Window>,
    pub subsurfaces: Seq<(u64, u64)>,
    pub subsurface_parents: Seq<(u64, u64)>,
    pub ime_visuals: Seq<(u64, u64)>,
    pub ime_popups: Seq<SurfaceId>,
    pub ime_parent: Option<VisualId>,
    pub announced: Seq<VisualId>,
    pub apps: Seq<Seq<char>>,
    pub mru: Seq<VisualId>,
    pub menu: MenuModel,
    pub closed: ClosedModel,
    pub pending_reopen: Option<PendingReopen>,
    pub saved: Seq<SavedVisual>,
    pub resizes: Seq<ClientResizeRequest>,
    pub maximize: MaximizeModel,
    pub fullscreen: FullscreenModel,
    pub resize_session: Option<ResizeSession>,
    pub view_size: (i32, i32),
    pub shelf_visible: bool,
    pub shelved: Seq<VisualId>,
    pub de_emphasized: Seq<VisualId>,
    pub configure_serial: Serial,
    pub outbox: Seq<Effect>,
}

impl View for LookingGlass {
    type V = GlassModel;

    open spec fn view(&self) -> GlassModel {
        GlassModel {
            toplevels: self.toplevels@,
            popups: self.popups@,
            scene: self.scene@,
            workspaces: self.workspace_manager@,
            camera: self.camera,
            focus_manager: self.focus_manager,
            spatial: self.spatial,
            input: self.input,
            constraints: self.pointer_constraints,
            sinks: self.input_sinks@,
            surfaces: self.wayland_surfaces@,
            x11: self.x11_windows@,
            subsurfaces: self.subsurface_visuals@,
            subsurface_parents: self.subsurface_parents@,
            ime_visuals: self.ime_popup_visuals@,
            ime_popups: self.ime_popups@,
            ime_parent: self.ime_parent_vid,
            announced: self.foreign_toplevels@,
            apps: self.app_switcher@,
            mru: self.focus_history@,
            menu: self.context_menu@,
            closed: self.closed_windows@,
            pending_reopen: self.pending_reopen,
            saved: self.saved_visuals@,
            resizes: self.client_resizes@,
            maximize: self.maximize@,
            fullscreen: self.fullscreen@,
            resize_session: self.resize_session,
            view_size: self.view_size,
            shelf_visible: self.shelf_visible,
            shelved: self.shelved@,
            de_emphasized: self.de_emphasized@,
            configure_serial: self.configure_serial,
            outbox: self.outbox@,
        }
    }
}

/// How many closed windows are remembered.
pub const CLOSED_WINDOWS_KEPT: usize = 10;

impl GlassModel {
    /// One of the workspaces is shown.
    pub open spec fn wf(self) -> bool {
        self.workspaces.wf()
    }

    /// Nothing open, nothing going on.
    pub open spec fn is_fresh(self) -> bool {
        &&& self.toplevels.len() == 0
        &&& self.popups.len() == 0
        &&& self.scene.visuals.len() == 0
        &&& self.scene.groups.len() == 0
        &&& self.scene.focused_id is None
        &&& self.scene.selected_id is None
        &&& self.scene.hovered_id is None
        &&& self.scene.detached_set.len() == 0
        &&& looks_from(self.camera, DEFAULT_DISTANCE)
        &&& self.focus_manager == unfocused()
        &&& self.spatial == (SpatialView {
            spatial_mode: true,
            spatial_cam_pose: None,
            spatial_cam_adapted: false,
        })
        &&& self.input == (InputState {
            keyboard: self.input.keyboard,
            ctrl_pressed: false,
            shift_pressed: false,
            alt_pressed: false,
            meta_pressed: false,
            alt_tab_active: false,
            nav_button: 0,
            event_serial: 0,
            last_down_vid: None,
            last_wayland_focus: None,
            dragging: None,
            dnd_active: false,
        })
        &&& self.constraints == (PointerConstraints {
            pointer_locked: false,
            locked_surface: None,
            confined_surface: None,
        })
        &&& self.sinks.len() == 0
        &&& self.surfaces.len() == 0
        &&& self.x11.len() == 0
        &&& self.subsurfaces.len() == 0
        &&& self.subsurface_parents.len() == 0
        &&& self.ime_visuals.len() == 0
        &&& self.ime_popups.len() == 0
        &&& self.ime_parent is None
        &&& self.announced.len() == 0
        &&& self.apps.len() == 0
        &&& self.mru.len() == 0
        &&& self.menu == MenuModel::empty()
        &&& self.closed.entries.len() == 0
        &&& self.closed.cap == CLOSED_WINDOWS_KEPT
        &&& self.pending_reopen is None
        &&& self.saved.len() == 0
        &&& self.resizes.len() == 0
        &&& self.maximize == MaximizeModel::empty()
        &&& self.fullscreen == FullscreenModel::empty()
        &&& self.resize_session is None
        &&& self.view_size == (1280i32, 720i32)
        &&& !self.shelf_visible
        &&& self.shelved.len() == 0
        &&& self.de_emphasized.len() == 0
        &&& self.configure_serial == 0
        &&& self.outbox.len() == 0
    }

    /// With more outside work ordered.
    pub open spec fn ordering(self, e: Effect) -> GlassModel {
        GlassModel { outbox: self.outbox.push(e), ..self }
    }

    /// The surface of a visual.
    pub open spec fn surface_of(self, vid: VisualId) -> Option<SurfaceId> {
        crate::table::value_of(self.surfaces, vid.0)
    }
}

impl LookingGlass {
    /// A compositor with nothing open and the configured number of
    /// workspaces.
    pub fn new(workspace_count: usize, keyboard: bool) -> (r: Self)
        ensures
            r@.wf(),
            r@.is_fresh(),
            r@.input.keyboard == keyboard,
            r@.workspaces.all.len() == if workspace_count < 1 {
                1
            } else {
                workspace_count as int
            },
            r@.workspaces.active == 0,
            forall|i: int|
                0 <= i < r@.workspaces.all.len() ==> (#[trigger] r@.workspaces.all[i]).is_fresh(),
    {
        LookingGlass {
            toplevels: Vec::new(),
            popups: Vec::new(),
            scene: Scene::default(),
            workspace_manager: WorkspaceManager::new(workspace_count),
            camera: Camera::new(),
            focus_manager: FocusManager::new(),
            spatial: SpatialView {
                spatial_mode: true,
                spatial_cam_pose: None,
                spatial_cam_adapted: false,
            },
            input: InputState {
                keyboard,
                ctrl_pressed: false,
                shift_pressed: false,
                alt_pressed: false,
                meta_pressed: false,
                alt_tab_active: false,
                nav_button: 0,
                event_serial: 0,
                last_down_vid: None,
                last_wayland_focus: None,
                dragging: None,
                dnd_active: false,
            },
            pointer_constraints: PointerConstraints {
                pointer_locked: false,
                locked_surface: None,
                confined_surface: None,
            },
            input_sinks: Vec::new(),
            wayland_surfaces: Table::new(),
            x11_windows: Vec::new(),
            subsurface_visuals: Table::new(),
            subsurface_parents: Table::new(),
            ime_popup_visuals: Table::new(),
            ime_popups: Vec::new(),
            ime_parent_vid: None,
            foreign_toplevels: Vec::new(),
            app_switcher: ApplicationSwitcher::new(),
            focus_history: FocusHistory::new(),
            context_menu: ContextMenu::new(),
            closed_windows: ClosedWindowHistory::new(CLOSED_WINDOWS_KEPT),
            pending_reopen: None,
            saved_visuals: Vec::new(),
            client_resizes: ClientResizeCoordinator::default(),
            maximize: MaximizeCoordinator::default(),
            fullscreen: FullscreenCoordinator::default(),
            resize_session: None,
            view_size: (1280, 720),
            shelf_visible: false,
            shelved: Vec::new(),
            de_emphasized: Vec::new(),
            configure_serial: 0,
            outbox: Vec::new(),
        }
    }

    /// Orders outside work.
    pub fn order(&mut self, e: Effect)
        ensures
            final(self)@ == old(self)@.ordering(e),
    {
        self.outbox.push(e);
    }

    /// Hands the ordered work to whoever does it.
    pub fn take_effects(&mut self) -> (r: Vec<Effect>)
        ensures
            r@ == old(self)@.outbox,
            final(self)@ == (GlassModel { outbox: Seq::empty(), ..old(self)@ }),
    {
        let mut taken: Vec<Effect> = Vec::new();
        std::mem::swap(&mut taken, &mut self.outbox);
        taken
    }

    /// The surface of a visual.
    pub fn surface_of(&self, vid: VisualId) -> (r: Option<SurfaceId>)
        ensures
            r == self@.surface_of(vid),
    {
        self.wayland_surfaces.get(vid.0)
    }

    /// Produce a frame.
    pub fn schedule_render(&mut self)
        ensures
            final(self)@ == old(self)@.ordering(Effect::ScheduleRender),
    {
        self.order(Effect::ScheduleRender);
    }

    /// The next serial number for input events.
    pub fn next_serial(&mut self) -> (r: u32)
        ensures
            r == next_serial_after(old(self)@.input.event_serial),
            final(self)@ == old(self)@.with_serial(r),
    {
        self.input.event_serial = self.input.event_serial.wrapping_add(1);
        self.input.event_serial
    }
}

/// The serial that follows, wrapping at the end of the range.
pub open spec fn next_serial_after(s: u32) -> u32 {
    if s == u32::MAX {
        0
    } else {
        (s + 1) as u32
    }
}

impl GlassModel {
    pub open spec fn with_serial(self, s: u32) -> GlassModel {
        GlassModel { input: InputState { event_serial: s, ..self.input }, ..self }
    }
}

} // verus!
