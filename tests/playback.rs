use visualizer::display::NowPlaying;
use visualizer::poller::{PollAction, PollEvent, PollPhase, Poller};
use visualizer::state::{
    state_from, track_to_check, Playback, RepeatState, State, StateError, TrackInfo,
    REFRESH_RATE_MS,
};

fn track() -> TrackInfo {
    TrackInfo {
        id: Some("id-a".to_string()),
        name: "A".to_string(),
        album: "B".to_string(),
        artists: vec!["C".to_string()],
        images: vec!["https://img/1".to_string(), "https://img/2".to_string()],
        duration_ms: 200_000,
    }
}

fn playing() -> Playback {
    Playback {
        progress_ms: Some(30_000),
        item: Some(track()),
        shuffle_state: false,
        repeat_state: RepeatState::Off,
    }
}

fn snapshot(track: &str, progress_ms: i64, at: u64) -> State {
    State {
        liked: false,
        shuffled: true,
        repeat_state: RepeatState::Track,
        progress_ms,
        duration_ms: 100_000,
        refreshed_at_ms: at,
        track: track.to_string(),
        album: String::new(),
        artists: vec![],
        cover_art_url: String::new(),
    }
}

#[test]
fn default_state_is_empty() {
    let s = State::default();
    assert!(!s.liked && !s.shuffled);
    assert_eq!(s.repeat_state, RepeatState::Off);
    assert_eq!((s.progress_ms, s.duration_ms, s.refreshed_at_ms), (0, 0, 0));
    assert!(s.track.is_empty() && s.album.is_empty() && s.artists.is_empty());
    assert!(s.cover_art_url.is_empty());
}

#[test]
fn check_needs_active_complete_track() {
    assert!(matches!(track_to_check(&None), Err(StateError::NoContext)));
    assert_eq!(track_to_check(&Some(playing())).unwrap(), "id-a");
    let mut p = playing();
    p.progress_ms = None;
    assert!(matches!(track_to_check(&Some(p)), Err(StateError::MissingState)));
    let mut p = playing();
    p.item = None;
    assert!(matches!(track_to_check(&Some(p)), Err(StateError::MissingState)));
    let mut p = playing();
    p.item.as_mut().unwrap().id = None;
    assert!(matches!(track_to_check(&Some(p)), Err(StateError::MissingState)));
}

#[test]
fn snapshot_fields_come_from_provider() {
    let s = state_from(Some(playing()), &vec![true], 1_000).unwrap();
    assert!(s.liked);
    assert!(!s.shuffled);
    assert_eq!(s.repeat_state, RepeatState::Off);
    assert_eq!(s.progress_ms, 30_000);
    assert_eq!(s.duration_ms, 200_000);
    assert_eq!(s.refreshed_at_ms, 1_000);
    assert_eq!(s.track, "A");
    assert_eq!(s.album, "B");
    assert_eq!(s.artists, vec!["C".to_string()]);
    assert_eq!(s.cover_art_url, "https://img/1");
}

#[test]
fn snapshot_errors() {
    assert!(matches!(state_from(None, &vec![true], 0), Err(StateError::NoContext)));
    assert!(matches!(state_from(Some(playing()), &vec![], 0), Err(StateError::MissingState)));
    let mut p = playing();
    p.progress_ms = None;
    assert!(matches!(state_from(Some(p), &vec![true], 0), Err(StateError::MissingState)));
}

#[test]
fn snapshot_without_cover_art() {
    let mut p = playing();
    p.item.as_mut().unwrap().images = vec![];
    let s = state_from(Some(p), &vec![false], 0).unwrap();
    assert_eq!(s.cover_art_url, "");
    assert!(!s.liked);
}

#[test]
fn poll_cycle_in_order() {
    let p = Poller::new();
    assert!(matches!(p.phase, PollPhase::Sleeping));
    let (p, a) = p.step(PollEvent::Tick);
    assert!(matches!(a, PollAction::FetchPlayback));
    let (p, a) = p.step(PollEvent::Playback(Ok(Some(playing()))));
    match a {
        PollAction::CheckLiked(id) => assert_eq!(id, "id-a"),
        other => panic!("unexpected {:?}", other),
    }
    let (p, a) = p.step(PollEvent::Liked(Ok(vec![true]), 42));
    match a {
        PollAction::Deliver(Ok(s)) => {
            assert!(s.liked);
            assert_eq!(s.track, "A");
            assert_eq!(s.refreshed_at_ms, 42);
        }
        other => panic!("unexpected {:?}", other),
    }
    let (p, a) = p.step(PollEvent::Delivered);
    assert!(matches!(a, PollAction::Sleep(5000)));
    assert_eq!(REFRESH_RATE_MS, 5000);
    let (_, a) = p.step(PollEvent::Tick);
    assert!(matches!(a, PollAction::FetchPlayback));
}

#[test]
fn provider_failures_are_delivered() {
    let (p, _) = Poller::new().step(PollEvent::Tick);
    let (p, a) = p.step(PollEvent::Playback(Err("timed out".to_string())));
    match a {
        PollAction::Deliver(Err(StateError::Client(m))) => assert_eq!(m, "timed out"),
        other => panic!("unexpected {:?}", other),
    }
    assert!(matches!(p.phase, PollPhase::Delivering));
    let (p, _) = Poller::new().step(PollEvent::Tick);
    let (p, _) = p.step(PollEvent::Playback(Ok(Some(playing()))));
    let (_, a) = p.step(PollEvent::Liked(Err("unauthorized".to_string()), 0));
    assert!(matches!(a, PollAction::Deliver(Err(StateError::Client(_)))));
}

#[test]
fn second_delivery_waits_for_receive() {
    let (p, _) = Poller::new().step(PollEvent::Tick);
    let (p, a) = p.step(PollEvent::Playback(Ok(None)));
    assert!(matches!(a, PollAction::Deliver(Err(StateError::NoContext))));
    let (p, a) = p.step(PollEvent::Tick);
    assert!(matches!(a, PollAction::Wait));
    let (p, a) = p.step(PollEvent::Playback(Ok(Some(playing()))));
    assert!(matches!(a, PollAction::Wait));
    assert!(matches!(p.phase, PollPhase::Delivering));
    let (p, a) = p.step(PollEvent::Delivered);
    assert!(matches!(a, PollAction::Sleep(_)));
    assert!(matches!(p.phase, PollPhase::Sleeping));
}

#[test]
fn poller_stops_when_consumer_gone() {
    let (p, _) = Poller::new().step(PollEvent::Tick);
    let (p, _) = p.step(PollEvent::Playback(Ok(None)));
    let (p, a) = p.step(PollEvent::ReceiverGone);
    assert!(matches!(a, PollAction::Stop));
    let (_, a) = p.step(PollEvent::Tick);
    assert!(matches!(a, PollAction::Wait));
}

#[test]
fn end_to_end_snapshot_and_extrapolation() {
    let (p, _) = Poller::new().step(PollEvent::Tick);
    let (p, _) = p.step(PollEvent::Playback(Ok(Some(playing()))));
    let (_, a) = p.step(PollEvent::Liked(Ok(vec![true]), 10_000));
    let outcome = match a {
        PollAction::Deliver(o) => o,
        other => panic!("unexpected {:?}", other),
    };
    let mut shown = NowPlaying::new();
    assert!(shown.receive(Some(outcome)).is_none());
    let s = &shown.state;
    assert_eq!(s.progress_ms, 30_000);
    assert_eq!(s.duration_ms, 200_000);
    assert!(s.liked);
    assert!(!s.shuffled);
    assert_eq!(s.repeat_state, RepeatState::Off);
    assert_eq!(s.track, "A");
    assert_eq!(s.album, "B");
    assert_eq!(s.artists, vec!["C".to_string()]);
    assert_eq!(shown.progress_at(12_000), 32_000);
}

#[test]
fn no_playback_leaves_display() {
    let mut shown = NowPlaying::new();
    shown.receive(Some(Ok(snapshot("old", 1_000, 5))));
    let (p, _) = Poller::new().step(PollEvent::Tick);
    let (_, a) = p.step(PollEvent::Playback(Ok(None)));
    let outcome = match a {
        PollAction::Deliver(o) => o,
        other => panic!("unexpected {:?}", other),
    };
    let err = shown.receive(Some(outcome));
    assert!(matches!(err, Some(StateError::NoContext)));
    assert_eq!(shown.state.track, "old");
    assert_eq!(shown.state.progress_ms, 1_000);
}

#[test]
fn empty_receive_keeps_display() {
    let mut shown = NowPlaying::new();
    shown.receive(Some(Ok(snapshot("x", 0, 0))));
    assert!(shown.receive(None).is_none());
    assert_eq!(shown.state.track, "x");
    assert!(shown.receive(Some(Ok(snapshot("y", 0, 0)))).is_none());
    assert_eq!(shown.state.track, "y");
}

#[test]
fn progress_not_clamped_and_saturates() {
    let mut shown = NowPlaying::new();
    shown.receive(Some(Ok(snapshot("x", 99_000, 1_000))));
    assert_eq!(shown.progress_at(1_000), 99_000);
    assert_eq!(shown.progress_at(500), 99_000);
    assert_eq!(shown.progress_at(6_000), 104_000);
    shown.receive(Some(Ok(snapshot("x", i64::MAX - 1, 0))));
    assert_eq!(shown.progress_at(10), i64::MAX);
}
