//! Round-robin playback scheduler: once per host frame it inspects the
//! tracked sounds and, only when none is audible any more, retires them and
//! decides which track to start next.

use crate::playlist::{advance, Playlist, TrackHandle};
use vstd::prelude::*;

verus! {

/// Opaque identity of one playing sound instance, as the audio service
/// reports it.
#[derive(Clone, Copy, PartialEq, Eq, Structural, Debug)]
pub struct SoundId {
    pub id: u64,
}

/// One tracked sound instance and whether the audio service reports it
/// finished.
#[derive(Clone, Copy, PartialEq, Eq, Structural, Debug)]
pub struct SoundStatus {
    pub sound: SoundId,
    pub finished: bool,
}

/// What the scheduler asks the host to do for the rest of the tick.
#[derive(PartialEq, Eq, Debug)]
pub enum TickAction {
    /// A tracked sound is still audible: do nothing this tick.
    Wait,
    /// No tracked sound is audible any more: ask the audio service to
    /// dispose every listed sound, then to start the given track.
    StartNext { dispose: Vec<SoundId>, track: TrackHandle },
}

/// Every tracked sound reports finished; vacuously true of an empty set, in
/// which case nothing is playing at all.
pub open spec fn all_finished(sounds: Seq<SoundStatus>) -> bool {
    forall|i: int| 0 <= i < sounds.len() ==> sounds[i].finished
}

/// The identities of the tracked sounds, in the order the audio service
/// reports them.
pub open spec fn sound_ids_of(sounds: Seq<SoundStatus>) -> Seq<SoundId> {
    sounds.map_values(|s: SoundStatus| s.sound)
}

/// Owns the rotation of loaded tracks and keeps exactly one track playing at
/// all times once active.
#[derive(PartialEq, Eq, Debug)]
pub struct PlaylistScheduler {
    pub playlist: Playlist,
    /// Weak reference to the sound started most recently, if any; the audio
    /// service owns the instance itself.
    pub active: Option<SoundId>,
}

impl PlaylistScheduler {
    pub open spec fn wf(self) -> bool {
        self.playlist.wf()
    }

    /// A fresh scheduler over a populated playlist; nothing has been started
    /// yet.
    pub fn new(playlist: Playlist) -> (scheduler: PlaylistScheduler)
        requires
            playlist.wf(),
        ensures
            scheduler.wf(),
            scheduler.playlist == playlist,
            scheduler.active is None,
    {
        PlaylistScheduler { playlist, active: None }
    }

    /// One frame's scheduling decision over the sounds the audio service
    /// currently tracks. While at least one tracked sound is still audible
    /// the scheduler waits and changes nothing; it never starts a track then.
    /// Otherwise it retires every finished sound, selects the track at the
    /// cursor, and advances the cursor by one, wrapping at the end of the
    /// rotation. The host carries the action out and reports the started
    /// sound back through `record_started`.
    pub fn tick(&mut self, sounds: &Vec<SoundStatus>) -> (action: TickAction)
        requires
            old(self).wf(),
        ensures
            final(self).wf(),
            final(self).playlist.tracks@ == old(self).playlist.tracks@,
            !all_finished(sounds@) ==> action == TickAction::Wait && *final(self) == *old(self),
            all_finished(sounds@) ==> (action matches TickAction::StartNext { dispose, track } && {
                &&& dispose@ == sound_ids_of(sounds@)
                &&& track == old(self).playlist.current()
                &&& final(self).playlist.cursor as int == advance(
                    old(self).playlist.cursor as int,
                    old(self).playlist.tracks@.len() as int,
                )
                &&& final(self).active is None
            }),
    {
        if !all_sounds_finished(sounds) {
            return TickAction::Wait;
        }
        let dispose = finished_sound_ids(sounds);
        let track = self.playlist.next();
        self.active = None;
        TickAction::StartNext { dispose, track }
    }

    /// Records the sound the audio service returned for the track the tick
    /// asked it to start.
    pub fn record_started(&mut self, sound: SoundId)
        ensures
            final(self).playlist == old(self).playlist,
            final(self).active == Some(sound),
    {
        self.active = Some(sound);
    }
}

/// Whether every tracked sound reports finished; the AND over the tracked
/// set, so one audible sound among many keeps the scheduler waiting.
fn all_sounds_finished(sounds: &Vec<SoundStatus>) -> (done: bool)
    ensures
        done == all_finished(sounds@),
{
    let mut i: usize = 0;
    while i < sounds.len()
        invariant
            i <= sounds@.len(),
            forall|j: int| 0 <= j < i ==> sounds@[j].finished,
        decreases sounds@.len() - i,
    {
        if !sounds[i].finished {
            return false;
        }
        i = i + 1;
    }
    true
}

/// The identities of all tracked sounds, for disposal once none is audible.
fn finished_sound_ids(sounds: &Vec<SoundStatus>) -> (ids: Vec<SoundId>)
    ensures
        ids@ == sound_ids_of(sounds@),
{
    let mut ids: Vec<SoundId> = Vec::new();
    let mut i: usize = 0;
    while i < sounds.len()
        invariant
            i <= sounds@.len(),
            ids@ == sound_ids_of(sounds@.subrange(0, i as int)),
        decreases sounds@.len() - i,
    {
        ids.push(sounds[i].sound);
        proof {
            assert(ids@ =~= sound_ids_of(sounds@.subrange(0, i + 1)));
        }
        i = i + 1;
    }
    proof {
        assert(sounds@.subrange(0, sounds@.len() as int) =~= sounds@);
    }
    ids
}

} // verus!
