//! The single-instance coordinator: routing a subsequent process launch
//! into the running instance.
//!
//! A second launch either carries a remote command — then the command is
//! forwarded to the dispatcher and the window is left alone — or it does
//! not, and the default behavior applies: show and focus the existing
//! window, doing nothing when none was created yet. The process's own first
//! launch is consulted the same way once at startup.

use vstd::prelude::*;
use crate::command::{parse_args, parse_remote_command, RemoteCommand};

verus! {

/// What a subsequent launch turns into.
#[derive(Clone, Copy, Debug, PartialEq, Eq, Structural)]
pub enum LaunchResponse {
    /// The launch carried a recognized remote command: hand it to the
    /// dispatcher; the existing window is not surfaced for this launch.
    Forward(RemoteCommand),
    /// No command resolved: perform the default — show and focus the
    /// existing window.
    FocusExisting,
}

/// Route one subsequent launch by its arguments. The working directory of
/// the new process plays no part.
pub fn route_second_launch(args: &[String]) -> (r: LaunchResponse)
    ensures
        r == (match parse_args(args.deep_view()) {
            Some(c) => LaunchResponse::Forward(c),
            None => LaunchResponse::FocusExisting,
        }),
{
    match parse_remote_command(args) {
        Some(c) => LaunchResponse::Forward(c),
        None => LaunchResponse::FocusExisting,
    }
}

/// Consult the first launch's own arguments once at startup: a resolved
/// command is forwarded to the dispatcher right away, anything else means
/// a plain launch with nothing to deliver.
pub fn startup_command(args: &[String]) -> (r: Option<RemoteCommand>)
    ensures
        r == parse_args(args.deep_view()),
{
    parse_remote_command(args)
}

} // verus!
