use tunebar::command::RemoteCommand;
use tunebar::command::parse_remote_command;
use tunebar::coordinator::{route_second_launch, startup_command, LaunchResponse};

fn args(list: &[&str]) -> Vec<String> {
    list.iter().map(|s| s.to_string()).collect()
}

#[test]
fn recognizes_each_token() {
    assert_eq!(RemoteCommand::from_str("toggle"), Some(RemoteCommand::Toggle));
    assert_eq!(RemoteCommand::from_str("play"), Some(RemoteCommand::Play));
    assert_eq!(RemoteCommand::from_str("pause"), Some(RemoteCommand::Pause));
    assert_eq!(RemoteCommand::from_str("next"), Some(RemoteCommand::Next));
    assert_eq!(RemoteCommand::from_str("previous"), Some(RemoteCommand::Previous));
    assert_eq!(RemoteCommand::from_str("prev"), Some(RemoteCommand::Previous));
}

#[test]
fn tokens_are_case_insensitive() {
    assert_eq!(RemoteCommand::from_str("Next"), Some(RemoteCommand::Next));
    assert_eq!(RemoteCommand::from_str("NEXT"), Some(RemoteCommand::Next));
    assert_eq!(RemoteCommand::from_str("ToGgLe"), Some(RemoteCommand::Toggle));
    assert_eq!(RemoteCommand::from_str("PREV"), Some(RemoteCommand::Previous));
    assert_eq!(RemoteCommand::from_str("Pause"), Some(RemoteCommand::Pause));
}

#[test]
fn unrecognized_tokens_mean_no_command() {
    assert_eq!(RemoteCommand::from_str(""), None);
    assert_eq!(RemoteCommand::from_str("stop"), None);
    assert_eq!(RemoteCommand::from_str("nexts"), None);
    assert_eq!(RemoteCommand::from_str("ne xt"), None);
    assert_eq!(RemoteCommand::from_str("--remote"), None);
}

#[test]
fn canonical_tokens() {
    assert_eq!(RemoteCommand::Toggle.as_bridge_command(), "toggle");
    assert_eq!(RemoteCommand::Play.as_bridge_command(), "play");
    assert_eq!(RemoteCommand::Pause.as_bridge_command(), "pause");
    assert_eq!(RemoteCommand::Next.as_bridge_command(), "next");
    assert_eq!(RemoteCommand::Previous.as_bridge_command(), "previous");
}

#[test]
fn finds_flag_anywhere_in_the_list() {
    assert_eq!(
        parse_remote_command(&args(&["--remote", "play"])),
        Some(RemoteCommand::Play)
    );
    assert_eq!(
        parse_remote_command(&args(&["app", "-v", "--remote", "Toggle"])),
        Some(RemoteCommand::Toggle)
    );
    assert_eq!(
        parse_remote_command(&args(&["--remote", "PREV", "trailing"])),
        Some(RemoteCommand::Previous)
    );
}

#[test]
fn no_flag_or_bad_token_means_no_command() {
    assert_eq!(parse_remote_command(&args(&[])), None);
    assert_eq!(parse_remote_command(&args(&["app", "play"])), None);
    assert_eq!(parse_remote_command(&args(&["--remote"])), None);
    assert_eq!(parse_remote_command(&args(&["--remote", "dance"])), None);
    assert_eq!(parse_remote_command(&args(&["remote", "play"])), None);
}

#[test]
fn first_flag_decides() {
    // The token after the first flag wins, recognized or not.
    assert_eq!(
        parse_remote_command(&args(&["--remote", "play", "--remote", "next"])),
        Some(RemoteCommand::Play)
    );
    assert_eq!(
        parse_remote_command(&args(&["--remote", "bogus", "--remote", "next"])),
        None
    );
}

#[test]
fn previous_and_prev_are_the_same_command() {
    let long = RemoteCommand::from_str("previous");
    let short = RemoteCommand::from_str("prev");
    assert_eq!(long, short);
    assert_eq!(long, Some(RemoteCommand::Previous));
}

#[test]
fn parsing_twice_yields_the_same_result() {
    let lists = [
        args(&["--remote", "Next"]),
        args(&["--foo", "bar"]),
        args(&["--remote"]),
        args(&[]),
    ];
    for list in lists.iter() {
        assert_eq!(parse_remote_command(list), parse_remote_command(list));
    }
}

#[test]
fn launch_routing() {
    assert_eq!(
        route_second_launch(&args(&["--remote", "pause"])),
        LaunchResponse::Forward(RemoteCommand::Pause)
    );
    assert_eq!(
        route_second_launch(&args(&["--foo", "bar"])),
        LaunchResponse::FocusExisting
    );
    assert_eq!(
        startup_command(&args(&["--remote", "Next"])),
        Some(RemoteCommand::Next)
    );
    assert_eq!(startup_command(&args(&["app"])), None);
}
