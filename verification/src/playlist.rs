//! The playlist: an ordered rotation of track handles with a wrapping cursor,
//! and the one-time handoff that builds it from a resolved asset batch.

use vstd::arithmetic::div_mod::{
    lemma_add_mod_noop_right, lemma_mod_add_multiples_vanish, lemma_mod_bound, lemma_small_mod,
};
use vstd::prelude::*;

verus! {

/// Opaque identity of one playable audio resource, as the asset service
/// reports it.
#[derive(Clone, Copy, PartialEq, Eq, Structural, Debug)]
pub struct TrackHandle {
    pub id: u64,
}

/// What the asset service resolved a resource to be. Only audio tracks enter
/// the playlist; anything else found in the folder is skipped silently.
#[derive(Clone, Copy, PartialEq, Eq, Structural, Debug)]
pub enum ResourceKind {
    AudioTrack,
    Other,
}

/// One resource of a resolved batch, in the order the asset service reports
/// them (discovery order).
#[derive(Clone, Copy, PartialEq, Eq, Structural, Debug)]
pub struct ResolvedResource {
    pub handle: TrackHandle,
    pub kind: ResourceKind,
}

/// Fatal configuration error: the resolved batch held no audio tracks.
/// Carries the requested folder for the startup diagnostic.
#[derive(PartialEq, Eq, Debug)]
pub struct ConfigError {
    pub folder: String,
}

/// Cursor advance: a pure function of the current cursor and the rotation
/// length.
pub open spec fn advance(cursor: int, len: int) -> int
    recommends
        0 < len,
{
    (cursor + 1) % len
}

/// `advance` iterated `steps` times: where the cursor stands after that many
/// consecutive advances.
pub open spec fn advance_iter(cursor: int, len: int, steps: nat) -> int
    decreases steps,
{
    if steps == 0 {
        cursor
    } else {
        advance(advance_iter(cursor, len, (steps - 1) as nat), len)
    }
}

proof fn lemma_advance_iter_mod(cursor: int, len: int, steps: nat)
    requires
        0 <= cursor < len,
    ensures
        advance_iter(cursor, len, steps) == (cursor + steps) % len,
    decreases steps,
{
    if steps == 0 {
        lemma_small_mod(cursor as nat, len as nat);
    } else {
        lemma_advance_iter_mod(cursor, len, (steps - 1) as nat);
        lemma_add_mod_noop_right(1, cursor + steps - 1, len);
    }
}

/// Round-robin law: from any valid cursor, advancing once per track of the
/// rotation brings the cursor back to where it started.
pub proof fn lemma_rotation_returns(cursor: int, len: int)
    requires
        0 <= cursor < len,
    ensures
        advance_iter(cursor, len, len as nat) == cursor,
{
    lemma_advance_iter_mod(cursor, len, len as nat);
    lemma_mod_add_multiples_vanish(cursor, len);
    lemma_small_mod(cursor as nat, len as nat);
}

/// Single-track law: in a rotation of length one, the cursor stays where it
/// is under any number of advances, so the track the cursor selects is the
/// same handle every time.
pub proof fn lemma_single_track_replays(playlist: Playlist, steps: nat)
    requires
        playlist.wf(),
        playlist.tracks@.len() == 1,
    ensures
        playlist.current() == playlist.tracks@[0],
        advance_iter(playlist.cursor as int, 1, steps) == playlist.cursor as int,
{
    lemma_advance_iter_mod(playlist.cursor as int, 1, steps);
    lemma_mod_bound(playlist.cursor + steps, 1);
}

/// The resolved resources of a batch, filtered to audio tracks, in discovery
/// order: what the handoff turns into the playlist.
pub open spec fn audio_tracks_of(resources: Seq<ResolvedResource>) -> Seq<TrackHandle>
    decreases resources.len(),
{
    if resources.len() == 0 {
        Seq::empty()
    } else {
        audio_tracks_of(resources.drop_last()) + (if resources.last().kind is AudioTrack {
            seq![resources.last().handle]
        } else {
            Seq::empty()
        })
    }
}

/// Ordered rotation of tracks with the cursor of the next track to start.
#[derive(PartialEq, Eq, Debug)]
pub struct Playlist {
    /// Insertion order is the asset service's discovery order.
    pub tracks: Vec<TrackHandle>,
    pub cursor: usize,
}

impl Playlist {
    /// Well-formed: the rotation is non-empty and the cursor is a valid index.
    pub open spec fn wf(self) -> bool {
        self.tracks@.len() > 0 && self.cursor < self.tracks@.len()
    }

    /// The track the cursor stands on: the next one to start.
    pub open spec fn current(self) -> TrackHandle
        recommends
            self.wf(),
    {
        self.tracks@[self.cursor as int]
    }

    pub fn len(&self) -> (n: usize)
        ensures
            n == self.tracks@.len(),
    {
        self.tracks.len()
    }

    /// Hands out the track at the cursor and advances the cursor by one,
    /// wrapping at the end of the rotation. A rotation of length one wraps to
    /// itself and replays the same track.
    pub fn next(&mut self) -> (track: TrackHandle)
        requires
            old(self).wf(),
        ensures
            final(self).wf(),
            track == old(self).current(),
            final(self).tracks@ == old(self).tracks@,
            final(self).cursor as int == advance(
                old(self).cursor as int,
                old(self).tracks@.len() as int,
            ),
    {
        let track = self.tracks[self.cursor];
        let len = self.tracks.len();
        proof {
            lemma_mod_bound(self.cursor + 1, len as int);
        }
        self.cursor = (self.cursor + 1) % len;
        track
    }
}

/// Handoff, the action of the one-time Loading-to-Ready transition:
/// materializes the playlist from the resolved batch, keeping every audio
/// track in discovery order and skipping anything else, with the cursor at
/// the start. A batch with no audio tracks is a fatal configuration error
/// naming the requested folder; no playlist is constructed then.
pub fn handoff(folder: String, resources: &Vec<ResolvedResource>) -> (result: Result<
    Playlist,
    ConfigError,
>)
    ensures
        match result {
            Ok(playlist) => {
                &&& playlist.wf()
                &&& playlist.tracks@ == audio_tracks_of(resources@)
                &&& playlist.cursor == 0
                &&& audio_tracks_of(resources@).len() > 0
            },
            Err(error) => {
                &&& audio_tracks_of(resources@).len() == 0
                &&& error.folder == folder
            },
        },
{
    let mut tracks: Vec<TrackHandle> = Vec::new();
    let mut i: usize = 0;
    while i < resources.len()
        invariant
            i <= resources@.len(),
            tracks@ == audio_tracks_of(resources@.subrange(0, i as int)),
        decreases resources@.len() - i,
    {
        let resource = resources[i];
        proof {
            let done = resources@.subrange(0, i + 1);
            assert(done.drop_last() =~= resources@.subrange(0, i as int));
            assert(done.last() == resources@[i as int]);
        }
        match resource.kind {
            ResourceKind::AudioTrack => {
                tracks.push(resource.handle);
                proof {
                    assert(tracks@ =~= audio_tracks_of(resources@.subrange(0, i + 1)));
                }
            },
            ResourceKind::Other => {
                proof {
                    assert(tracks@ =~= audio_tracks_of(resources@.subrange(0, i + 1)));
                }
            },
        }
        i = i + 1;
    }
    proof {
        assert(resources@.subrange(0, resources@.len() as int) =~= resources@);
    }
    if tracks.len() == 0 {
        Err(ConfigError { folder })
    } else {
        Ok(Playlist { tracks, cursor: 0 })
    }
}

} // verus!
