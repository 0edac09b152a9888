//! The content surface's lifecycle: the single embedded window is created
//! lazily by whichever actor needs it first, then only ever shown or
//! hidden, never destroyed.

use vstd::prelude::*;

verus! {

/// Lifecycle states of the single content surface.
#[derive(Clone, Copy, Debug, PartialEq, Eq, Structural)]
pub enum SurfaceState {
    NotCreated,
    Hidden,
    Visible,
}

/// How the dispatcher obtains a surface for a command: reuse the window if
/// one exists, otherwise create one without showing it.
#[derive(Clone, Copy, Debug, PartialEq, Eq, Structural)]
pub enum ObtainSurface {
    UseExisting,
    CreateHidden,
}

/// What a tray click on the popover does in each state: hide a visible
/// window, show and focus a hidden one, create a visible one when none
/// exists yet.
#[derive(Clone, Copy, Debug, PartialEq, Eq, Structural)]
pub enum PopoverAction {
    HideWindow,
    ShowAndFocus,
    CreateVisible,
}

/// How the dispatcher gets hold of a surface before delivering a command:
/// an existing window is reused whatever its visibility; only when none was
/// ever created is one created, and then hidden — a remote command never
/// pops the window up.
pub fn obtain_for_command(s: SurfaceState) -> (r: ObtainSurface)
    ensures
        r == (if s is NotCreated {
            ObtainSurface::CreateHidden
        } else {
            ObtainSurface::UseExisting
        }),
{
    match s {
        SurfaceState::NotCreated => ObtainSurface::CreateHidden,
        _ => ObtainSurface::UseExisting,
    }
}

/// The state after the shell built the window: visible or hidden as
/// requested. Only ever follows `NotCreated`; a failed build leaves the
/// state where it was and the caller drops whatever needed the window.
pub fn after_creation(s: SurfaceState, visible: bool) -> (r: SurfaceState)
    requires
        s is NotCreated,
    ensures
        r == (if visible {
            SurfaceState::Visible
        } else {
            SurfaceState::Hidden
        }),
{
    if visible {
        SurfaceState::Visible
    } else {
        SurfaceState::Hidden
    }
}

/// The state after the existing window was shown and focused; when no
/// window exists, nothing happens.
pub fn after_show(s: SurfaceState) -> (r: SurfaceState)
    ensures
        r == (if s is NotCreated {
            SurfaceState::NotCreated
        } else {
            SurfaceState::Visible
        }),
{
    match s {
        SurfaceState::NotCreated => SurfaceState::NotCreated,
        _ => SurfaceState::Visible,
    }
}

/// The state after the window was hidden (on focus loss, or by the popover
/// toggle); when no window exists, nothing happens.
pub fn after_hide(s: SurfaceState) -> (r: SurfaceState)
    ensures
        r == (if s is NotCreated {
            SurfaceState::NotCreated
        } else {
            SurfaceState::Hidden
        }),
{
    match s {
        SurfaceState::NotCreated => SurfaceState::NotCreated,
        _ => SurfaceState::Hidden,
    }
}

/// Decide what a popover toggle (a tray click) does in the given state.
pub fn popover_action(s: SurfaceState) -> (r: PopoverAction)
    ensures
        r == (match s {
            SurfaceState::Visible => PopoverAction::HideWindow,
            SurfaceState::Hidden => PopoverAction::ShowAndFocus,
            SurfaceState::NotCreated => PopoverAction::CreateVisible,
        }),
{
    match s {
        SurfaceState::Visible => PopoverAction::HideWindow,
        SurfaceState::Hidden => PopoverAction::ShowAndFocus,
        SurfaceState::NotCreated => PopoverAction::CreateVisible,
    }
}

} // verus!
