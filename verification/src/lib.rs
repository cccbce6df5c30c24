//! Background-music playback core: an asset-readiness gate, a one-time
//! handoff that builds the playlist, and a round-robin playback scheduler
//! driven by a once-per-frame poll.
//!
//! The host loop, the asset service and the audio service are external
//! collaborators: they hand these components plain values (batch and track
//! identities, load notifications, playback statuses) and carry out the
//! actions the scheduler decides on.

mod load_gate;
mod playlist;
mod scheduler;

pub use load_gate::{BatchHandle, LoadGate, LoadNotification, LoadState};
pub use playlist::{
    advance, advance_iter, audio_tracks_of, handoff, lemma_rotation_returns,
    lemma_single_track_replays, ConfigError, Playlist, ResolvedResource, ResourceKind,
    TrackHandle,
};
pub use scheduler::{
    all_finished, sound_ids_of, PlaylistScheduler, SoundId, SoundStatus, TickAction,
};
