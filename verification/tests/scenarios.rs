use tunebar::bridge::escape_for_js;
use tunebar::command::RemoteCommand;
use tunebar::coordinator::{route_second_launch, startup_command, LaunchResponse};
use tunebar::delivery::{start_delivery, DeliveryStatus, DispatchOutcome};
use tunebar::surface::{
    after_creation, after_show, obtain_for_command, popover_action, ObtainSurface, PopoverAction,
    SurfaceState,
};

fn args(list: &[&str]) -> Vec<String> {
    list.iter().map(|s| s.to_string()).collect()
}

/// First launch carries `--remote Next` and no instance runs: startup
/// resolves the command, the dispatcher creates a hidden surface, the
/// immediate attempt fails while the page loads, and once the bridge
/// appears the command is delivered exactly once.
#[test]
fn remote_launch_with_no_instance_creates_hidden_surface_and_delivers_once() {
    let command = startup_command(&args(&["--remote", "Next"]))
        .expect("a recognized token must resolve");
    assert_eq!(command, RemoteCommand::Next);

    let mut surface = SurfaceState::NotCreated;
    assert_eq!(obtain_for_command(surface), ObtainSurface::CreateHidden);
    surface = after_creation(surface, false);
    assert_eq!(surface, SurfaceState::Hidden);

    // The page has not initialized its bridge: the immediate call fails.
    let mut pending = match start_delivery(command, false) {
        DispatchOutcome::Pending(d) => d,
        DispatchOutcome::DeliveredImmediately => panic!("bridge was absent"),
    };

    // The bridge appears before the third retry; count the bridge calls
    // that hand over the command.
    let mut deliveries = 0;
    for tick in 1..=5 {
        let bridge_present = tick >= 3;
        if bridge_present {
            deliveries += 1;
        }
        let status = pending.on_retry(bridge_present);
        if status != DeliveryStatus::Pending {
            assert_eq!(status, DeliveryStatus::Delivered);
            break;
        }
    }
    assert_eq!(deliveries, 1);
    assert_eq!(pending.retries, 3);
    assert_eq!(command.as_bridge_command(), "next");
}

/// A second launch without a recognized command while the window is hidden:
/// the coordinator shows and focuses the existing window and no bridge call
/// is made.
#[test]
fn plain_second_launch_shows_the_hidden_window() {
    let response = route_second_launch(&args(&["--foo", "bar"]));
    assert_eq!(response, LaunchResponse::FocusExisting);

    let surface = SurfaceState::Hidden;
    let surface = after_show(surface);
    assert_eq!(surface, SurfaceState::Visible);
}

/// A second launch without a command when no window exists yet: the default
/// path does nothing.
#[test]
fn plain_second_launch_without_a_window_does_nothing() {
    let response = route_second_launch(&args(&["app"]));
    assert_eq!(response, LaunchResponse::FocusExisting);
    assert_eq!(after_show(SurfaceState::NotCreated), SurfaceState::NotCreated);
}

/// A second launch carrying a command is forwarded and does not surface the
/// window.
#[test]
fn remote_second_launch_is_forwarded() {
    let response = route_second_launch(&args(&["--remote", "toggle"]));
    assert_eq!(response, LaunchResponse::Forward(RemoteCommand::Toggle));
}

/// The popover toggle in each surface state.
#[test]
fn popover_toggle_per_state() {
    assert_eq!(popover_action(SurfaceState::Visible), PopoverAction::HideWindow);
    assert_eq!(popover_action(SurfaceState::Hidden), PopoverAction::ShowAndFocus);
    assert_eq!(
        popover_action(SurfaceState::NotCreated),
        PopoverAction::CreateVisible
    );
}

#[test]
fn escaping_for_the_script_literal() {
    assert_eq!(escape_for_js("next"), "next");
    assert_eq!(escape_for_js(""), "");
    assert_eq!(escape_for_js("a'b"), "a\\'b");
    assert_eq!(escape_for_js("a\\b"), "a\\\\b");
    assert_eq!(escape_for_js("'\\'"), "\\'\\\\\\'");
    assert_eq!(escape_for_js("déjà vu"), "déjà vu");
}
