use soundtrack::{
    handoff, BatchHandle, LoadGate, LoadNotification, Playlist, PlaylistScheduler,
    ResolvedResource, ResourceKind, SoundId, SoundStatus, TickAction, TrackHandle,
};

fn track(id: u64) -> TrackHandle {
    TrackHandle { id }
}

fn audio(id: u64) -> ResolvedResource {
    ResolvedResource { handle: track(id), kind: ResourceKind::AudioTrack }
}

fn other(id: u64) -> ResolvedResource {
    ResolvedResource { handle: track(id), kind: ResourceKind::Other }
}

fn finished(id: u64) -> SoundStatus {
    SoundStatus { sound: SoundId { id }, finished: true }
}

fn audible(id: u64) -> SoundStatus {
    SoundStatus { sound: SoundId { id }, finished: false }
}

fn scheduler_over(ids: &[u64]) -> PlaylistScheduler {
    let resources: Vec<ResolvedResource> = ids.iter().map(|&id| audio(id)).collect();
    let playlist = handoff("ogg".to_string(), &resources).expect("playlist");
    PlaylistScheduler::new(playlist)
}

fn started_track(action: TickAction) -> TrackHandle {
    match action {
        TickAction::StartNext { track, .. } => track,
        TickAction::Wait => panic!("expected a track start, got a wait"),
    }
}

#[test]
fn round_robin_cycle_returns_cursor() {
    // Three tracks: after three consecutive all-finished ticks the cursor is
    // back at its starting value.
    let mut scheduler = scheduler_over(&[1, 2, 3]);
    assert_eq!(scheduler.playlist.cursor, 0);
    let first = started_track(scheduler.tick(&vec![]));
    let second = started_track(scheduler.tick(&vec![finished(100)]));
    let third = started_track(scheduler.tick(&vec![finished(101)]));
    assert_eq!(first, track(1));
    assert_eq!(second, track(2));
    assert_eq!(third, track(3));
    assert_eq!(scheduler.playlist.cursor, 0);
}

#[test]
fn single_track_replays_same_handle() {
    let mut scheduler = scheduler_over(&[9]);
    for step in 0..5 {
        let action = scheduler.tick(&vec![finished(step)]);
        assert_eq!(started_track(action), track(9));
        assert_eq!(scheduler.playlist.cursor, 0);
    }
}

#[test]
fn unrelated_batch_never_flips() {
    let mut gate = LoadGate::new(BatchHandle { id: 7 });
    let flipped =
        gate.poll_readiness(&LoadNotification { batch: BatchHandle { id: 8 }, fully_loaded: true });
    assert!(!flipped);
    assert!(!gate.is_ready());
}

#[test]
fn partial_notification_ignored() {
    let mut gate = LoadGate::new(BatchHandle { id: 7 });
    let flipped = gate
        .poll_readiness(&LoadNotification { batch: BatchHandle { id: 7 }, fully_loaded: false });
    assert!(!flipped);
    assert!(!gate.is_ready());
}

#[test]
fn watched_batch_completion_flips_once() {
    let mut gate = LoadGate::new(BatchHandle { id: 7 });
    let done = LoadNotification { batch: BatchHandle { id: 7 }, fully_loaded: true };
    assert!(gate.poll_readiness(&done));
    assert!(gate.is_ready());
    // Retired: a repeated completion notification no longer reports a flip,
    // and the state never reverts.
    assert!(!gate.poll_readiness(&done));
    assert!(gate.is_ready());
}

#[test]
fn poll_many_takes_the_tick_batch() {
    let mut gate = LoadGate::new(BatchHandle { id: 3 });
    let unrelated = vec![
        LoadNotification { batch: BatchHandle { id: 1 }, fully_loaded: true },
        LoadNotification { batch: BatchHandle { id: 3 }, fully_loaded: false },
    ];
    assert!(!gate.poll_many(&unrelated));
    assert!(!gate.is_ready());
    let with_completion = vec![
        LoadNotification { batch: BatchHandle { id: 2 }, fully_loaded: true },
        LoadNotification { batch: BatchHandle { id: 3 }, fully_loaded: true },
    ];
    assert!(gate.poll_many(&with_completion));
    assert!(gate.is_ready());
    assert!(!gate.poll_many(&with_completion));
}

#[test]
fn empty_batch_is_config_error() {
    let result = handoff("ogg".to_string(), &vec![]);
    assert_eq!(result.unwrap_err().folder, "ogg".to_string());
}

#[test]
fn batch_without_audio_is_config_error() {
    let resources = vec![other(1), other(2)];
    let result = handoff("music".to_string(), &resources);
    assert_eq!(result.unwrap_err().folder, "music".to_string());
}

#[test]
fn non_audio_resources_filtered_silently() {
    let resources = vec![other(1), audio(2), other(3), audio(4)];
    let playlist = handoff("ogg".to_string(), &resources).expect("playlist");
    assert_eq!(playlist.tracks, vec![track(2), track(4)]);
    assert_eq!(playlist.cursor, 0);
}

#[test]
fn scenario_three_tracks() {
    // Tracks [A, B, C], cursor at 0.
    let mut scheduler = scheduler_over(&[1, 2, 3]);

    // Tick while nothing is playing: plays A, cursor moves to 1.
    let action = scheduler.tick(&vec![]);
    assert_eq!(action, TickAction::StartNext { dispose: vec![], track: track(1) });
    assert_eq!(scheduler.playlist.cursor, 1);
    scheduler.record_started(SoundId { id: 50 });

    // Tick while A is still audible: no-op.
    let action = scheduler.tick(&vec![audible(50)]);
    assert_eq!(action, TickAction::Wait);
    assert_eq!(scheduler.playlist.cursor, 1);

    // Tick after A finishes: disposes A, plays B, cursor moves to 2.
    let action = scheduler.tick(&vec![finished(50)]);
    assert_eq!(
        action,
        TickAction::StartNext { dispose: vec![SoundId { id: 50 }], track: track(2) }
    );
    assert_eq!(scheduler.playlist.cursor, 2);
    scheduler.record_started(SoundId { id: 51 });

    // Tick after B finishes: plays C, cursor wraps to 0.
    let action = scheduler.tick(&vec![finished(51)]);
    assert_eq!(
        action,
        TickAction::StartNext { dispose: vec![SoundId { id: 51 }], track: track(3) }
    );
    assert_eq!(scheduler.playlist.cursor, 0);
    scheduler.record_started(SoundId { id: 52 });

    // Tick after C finishes: plays A again.
    let action = scheduler.tick(&vec![finished(52)]);
    assert_eq!(
        action,
        TickAction::StartNext { dispose: vec![SoundId { id: 52 }], track: track(1) }
    );
    assert_eq!(scheduler.playlist.cursor, 1);
}

#[test]
fn never_plays_while_any_sound_audible() {
    let mut scheduler = scheduler_over(&[1, 2]);
    // One of several tracked sounds is still audible: the AND over the set
    // keeps the scheduler waiting.
    let action = scheduler.tick(&vec![finished(60), audible(61), finished(62)]);
    assert_eq!(action, TickAction::Wait);
    assert_eq!(scheduler.playlist.cursor, 0);
    assert!(scheduler.active.is_none());
}

#[test]
fn every_finished_sound_is_retired() {
    let mut scheduler = scheduler_over(&[1]);
    let action = scheduler.tick(&vec![finished(70), finished(71), finished(72)]);
    assert_eq!(
        action,
        TickAction::StartNext {
            dispose: vec![SoundId { id: 70 }, SoundId { id: 71 }, SoundId { id: 72 }],
            track: track(1),
        }
    );
}

#[test]
fn record_started_keeps_the_new_sound() {
    let mut scheduler = scheduler_over(&[1]);
    assert!(scheduler.active.is_none());
    started_track(scheduler.tick(&vec![]));
    scheduler.record_started(SoundId { id: 80 });
    assert_eq!(scheduler.active, Some(SoundId { id: 80 }));
}

#[test]
fn playlist_next_hands_out_cursor_track() {
    let mut playlist = Playlist { tracks: vec![track(5), track(6)], cursor: 0 };
    assert_eq!(playlist.len(), 2);
    assert_eq!(playlist.next(), track(5));
    assert_eq!(playlist.cursor, 1);
    assert_eq!(playlist.next(), track(6));
    assert_eq!(playlist.cursor, 0);
    assert_eq!(playlist.next(), track(5));
}
