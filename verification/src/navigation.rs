//! What keys are bound to, and what Escape undoes first.
use vstd::prelude::*;

verus! {

/// A command that a key can be bound to.
#[derive(Debug, Clone, Copy, PartialEq, Eq, Structural)]
pub enum Binding {
    ToggleSpatial,
    ToggleFocus,
    ToggleOverview,
    ToggleWorkspaceOverview,
    WorkspaceNext,
    WorkspacePrev,
    AppNext,
    AppPrev,
    DeEmphasize,
    FrameSelected,
    FrameAll,
    ResetCamera,
    Escape,
    ToggleShelf,
    SendToShelf,
    Launcher,
    CloseApp,
    ToggleMaximize,
    ToggleFullscreen,
    MinimizeSelected,
    RestoreSelected,
    ReopenClosed,
    CycleVisuals,
    OpenContextMenu,
    HelpOverlay,
}

/// What a key press means beside the key itself.
#[derive(Debug, Clone, Copy, PartialEq, Eq, Structural)]
pub struct KeyMeaning {
    /// The command the key is bound to with the modifiers held.
    pub binding: Option<Binding>,
    /// The bookmark slot the key names with the modifiers held.
    pub bookmark: Option<usize>,
}

/// What Escape does.
#[derive(Debug, Clone, Copy, PartialEq, Eq, Structural)]
pub enum EscapeAction {
    CancelDrag,
    ExitWorkspaceOverview,
    ExitOverview,
    ExitFocus,
    ResetCamera,
}

/// The most immediate thing that Escape can undo: a drag, then a camera
/// mode, then the camera itself.
pub open spec fn escape_choice(
    dragging: bool,
    in_workspace_overview: bool,
    in_overview: bool,
    in_focus: bool,
) -> EscapeAction {
    if dragging {
        EscapeAction::CancelDrag
    } else if in_workspace_overview {
        EscapeAction::ExitWorkspaceOverview
    } else if in_overview {
        EscapeAction::ExitOverview
    } else if in_focus {
        EscapeAction::ExitFocus
    } else {
        EscapeAction::ResetCamera
    }
}

pub fn escape_chain(
    dragging: bool,
    in_workspace_overview: bool,
    in_overview: bool,
    in_focus: bool,
) -> (r: EscapeAction)
    ensures
        r == escape_choice(dragging, in_workspace_overview, in_overview, in_focus),
{
    if dragging {
        EscapeAction::CancelDrag
    } else if in_workspace_overview {
        EscapeAction::ExitWorkspaceOverview
    } else if in_overview {
        EscapeAction::ExitOverview
    } else if in_focus {
        EscapeAction::ExitFocus
    } else {
        EscapeAction::ResetCamera
    }
}

} // verus!
