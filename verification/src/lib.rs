//! Remote-command dispatch and bridge synchronization for a menu-bar player
//! shell.
//!
//! The shell hosts an external page (the content surface) and must reconcile
//! three loosely synchronized actors: a newly spawned process carrying a
//! `--remote` directive, the long-lived UI process, and the embedded page
//! whose readiness is only observable through its bridge object appearing.
//! This crate holds the decision logic of that subsystem: parsing launch
//! arguments into commands, routing a second launch, the bounded retry loop
//! that delivers a command to a page that may still be loading, the media
//! session state machine, and the mapping from OS media-key events to bridge
//! calls. The UI shell performs the effects these functions decide on.

pub mod bridge;
pub mod command;
pub mod coordinator;
pub mod delivery;
pub mod media;
pub mod surface;
