//! The media-control adapter's decision layer.
//!
//! One direction translates OS media-key events into bridge calls on the
//! content surface; the other decides which native media-session update a
//! surface notification warrants. The native handle itself lives in the
//! shell behind a lock; [`MediaSession`] mirrors its lifecycle so that every
//! operation is provably a no-op while no handle exists.

use vstd::prelude::*;
use crate::bridge::BridgeMethod;

verus! {

/// Lifecycle of the native media-session handle: absent until setup
/// succeeds, then attached for the rest of the process. Creation failure
/// leaves it unattached for good.
#[derive(Clone, Copy, Debug, PartialEq, Eq, Structural)]
pub enum SessionState {
    Unattached,
    Attached,
}

/// The adapter's view of the native media-session slot.
pub struct MediaSession {
    /// Whether a native handle was created and attached.
    pub state: SessionState,
}

/// The closed set of OS media-control events this subsystem consumes.
#[derive(Clone, Copy, Debug, PartialEq, Eq, Structural)]
pub enum MediaEvent {
    Play,
    Pause,
    Toggle,
    Next,
    Previous,
    Stop,
}

/// Playback state pushed to the OS session.
#[derive(Clone, Copy, Debug, PartialEq, Eq, Structural)]
pub enum PlaybackState {
    Playing,
    Paused,
}

/// A now-playing update for the OS session.
pub struct TrackMetadata {
    pub title: String,
    pub artist: String,
}

/// Which bridge operation each OS event invokes. Total over the closed
/// event set; a `Stop` event is treated as `Pause`.
pub open spec fn spec_event_to_bridge(e: MediaEvent) -> BridgeMethod {
    match e {
        MediaEvent::Play => BridgeMethod::Play,
        MediaEvent::Pause => BridgeMethod::Pause,
        MediaEvent::Toggle => BridgeMethod::TogglePlay,
        MediaEvent::Next => BridgeMethod::Next,
        MediaEvent::Previous => BridgeMethod::Previous,
        MediaEvent::Stop => BridgeMethod::Pause,
    }
}

/// Translate one OS media-key event into the bridge operation to invoke on
/// the content surface.
pub fn event_to_bridge(e: MediaEvent) -> (r: BridgeMethod)
    ensures
        r == spec_event_to_bridge(e),
{
    match e {
        MediaEvent::Play => BridgeMethod::Play,
        MediaEvent::Pause => BridgeMethod::Pause,
        MediaEvent::Toggle => BridgeMethod::TogglePlay,
        MediaEvent::Next => BridgeMethod::Next,
        MediaEvent::Previous => BridgeMethod::Previous,
        MediaEvent::Stop => BridgeMethod::Pause,
    }
}

/// A `Stop` event maps to the very same bridge call as a `Pause` event.
pub proof fn lemma_stop_maps_to_pause()
    ensures
        spec_event_to_bridge(MediaEvent::Stop) == spec_event_to_bridge(MediaEvent::Pause),
{
}

impl MediaSession {
    /// The slot at process start: empty.
    pub fn new() -> (s: Self)
        ensures
            s.state is Unattached,
    {
        MediaSession { state: SessionState::Unattached }
    }

    /// Record the one-time setup outcome: a successfully created handle
    /// attaches the session; a creation failure leaves it as it was, and
    /// every later operation stays a no-op.
    pub fn on_setup(&mut self, created: bool)
        ensures
            final(self).state == (if created {
                SessionState::Attached
            } else {
                old(self).state
            }),
    {
        if created {
            self.state = SessionState::Attached;
        }
    }

    /// Decide the native now-playing update for a track change reported by
    /// the surface: the update to push if a handle is attached, and nothing
    /// — provably no operation — while unattached.
    pub fn metadata_op(&self, title: String, artist: String) -> (r: Option<TrackMetadata>)
        ensures
            r == (if self.state is Attached {
                Some(TrackMetadata { title, artist })
            } else {
                None::<TrackMetadata>
            }),
    {
        match self.state {
            SessionState::Attached => Some(TrackMetadata { title, artist }),
            SessionState::Unattached => None,
        }
    }

    /// Decide the native playback update for a playing/paused notification
    /// from the surface; nothing is pushed while unattached.
    pub fn playback_op(&self, playing: bool) -> (r: Option<PlaybackState>)
        ensures
            r == (if self.state is Attached {
                Some(
                    if playing {
                        PlaybackState::Playing
                    } else {
                        PlaybackState::Paused
                    },
                )
            } else {
                None::<PlaybackState>
            }),
    {
        match self.state {
            SessionState::Attached => Some(
                if playing {
                    PlaybackState::Playing
                } else {
                    PlaybackState::Paused
                },
            ),
            SessionState::Unattached => None,
        }
    }
}

} // verus!
