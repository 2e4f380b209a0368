use plex_discord_presence::poller::{extract_trackinfo, PlaybackObservationState};
use plex_discord_presence::session::{MediaKind, SessionData};
use plex_discord_presence::track::{PlaybackChange, TrackInfo};

fn session(
    media_kind: MediaKind,
    player_state: &str,
    title: &str,
    parent_title: Option<&str>,
    grandparent_title: Option<&str>,
    original_title: Option<&str>,
) -> SessionData {
    SessionData {
        media_kind,
        player_state: player_state.to_owned(),
        title: title.to_owned(),
        parent_title: parent_title.map(|s| s.to_owned()),
        grandparent_title: grandparent_title.map(|s| s.to_owned()),
        original_title: original_title.map(|s| s.to_owned()),
    }
}

fn playing_track(title: &str) -> SessionData {
    session(MediaKind::Track, "playing", title, Some("Album"), Some("Artist"), None)
}

#[test]
fn artist_prefers_original_title() {
    let sessions = vec![session(MediaKind::Track, "playing", "Song", None, Some("Y"), Some("X"))];
    let track = extract_trackinfo(&sessions).unwrap();
    assert_eq!(track.artist, "X");
}

#[test]
fn artist_falls_back_to_grandparent_title() {
    let sessions = vec![session(MediaKind::Track, "playing", "Song", None, Some("Y"), None)];
    let track = extract_trackinfo(&sessions).unwrap();
    assert_eq!(track.artist, "Y");
}

#[test]
fn artist_empty_when_both_absent() {
    let sessions = vec![session(MediaKind::Track, "playing", "Song", None, None, None)];
    let track = extract_trackinfo(&sessions).unwrap();
    assert_eq!(track.artist, "");
}

#[test]
fn album_comes_from_parent_title() {
    let sessions = vec![session(MediaKind::Track, "playing", "Song", Some("LP"), None, None)];
    let track = extract_trackinfo(&sessions).unwrap();
    assert_eq!(track.album, "LP");
}

#[test]
fn album_empty_when_parent_title_absent() {
    let sessions = vec![session(MediaKind::Track, "playing", "Song", None, None, None)];
    let track = extract_trackinfo(&sessions).unwrap();
    assert_eq!(track.album, "");
}

#[test]
fn extraction_yields_all_three_fields() {
    let sessions = vec![session(
        MediaKind::Track,
        "playing",
        "Song",
        Some("LP"),
        Some("Band"),
        None,
    )];
    let track = extract_trackinfo(&sessions).unwrap();
    assert_eq!(
        track,
        TrackInfo {
            title: "Song".to_owned(),
            album: "LP".to_owned(),
            artist: "Band".to_owned(),
        }
    );
}

#[test]
fn extraction_is_deterministic() {
    let sessions = vec![
        session(MediaKind::Movie, "playing", "Film", None, None, None),
        playing_track("Song"),
    ];
    let first = extract_trackinfo(&sessions);
    let second = extract_trackinfo(&sessions);
    assert_eq!(first, second);
}

#[test]
fn paused_track_is_filtered_out() {
    let sessions = vec![session(MediaKind::Track, "paused", "Song", None, None, None)];
    assert!(extract_trackinfo(&sessions).is_none());
}

#[test]
fn playing_movie_is_filtered_out() {
    let sessions = vec![session(MediaKind::Movie, "playing", "Film", None, None, None)];
    assert!(extract_trackinfo(&sessions).is_none());
}

#[test]
fn player_state_match_is_case_sensitive() {
    let sessions = vec![session(MediaKind::Track, "Playing", "Song", None, None, None)];
    assert!(extract_trackinfo(&sessions).is_none());
}

#[test]
fn empty_session_list_extracts_nothing() {
    let sessions: Vec<SessionData> = Vec::new();
    assert!(extract_trackinfo(&sessions).is_none());
}

#[test]
fn first_matching_session_wins() {
    let sessions = vec![
        session(MediaKind::Movie, "playing", "Film", None, None, None),
        session(MediaKind::Track, "paused", "Skipped", None, None, None),
        playing_track("First"),
        playing_track("Second"),
    ];
    let track = extract_trackinfo(&sessions).unwrap();
    assert_eq!(track.title, "First");
}

#[test]
fn paused_track_never_starts_playback() {
    let mut state = PlaybackObservationState::new();
    let sessions = vec![session(MediaKind::Track, "paused", "Song", None, None, None)];
    let event = state.observe(extract_trackinfo(&sessions));
    assert!(event.is_none());
    assert!(!state.is_playing);
}

#[test]
fn playing_movie_never_starts_playback() {
    let mut state = PlaybackObservationState::new();
    let sessions = vec![session(MediaKind::Movie, "playing", "Film", None, None, None)];
    let event = state.observe(extract_trackinfo(&sessions));
    assert!(event.is_none());
    assert!(!state.is_playing);
}

#[test]
fn started_emitted_only_on_rising_edge() {
    let mut state = PlaybackObservationState::new();
    let track = extract_trackinfo(&vec![playing_track("Song")]);
    let first = state.observe(track.clone());
    assert!(matches!(first, Some(PlaybackChange::Started(_))));
    let second = state.observe(track);
    assert!(second.is_none());
    assert!(state.is_playing);
}

#[test]
fn stopped_emitted_only_on_falling_edge() {
    let mut state = PlaybackObservationState::new();
    assert!(state.observe(None).is_none());
    let track = extract_trackinfo(&vec![playing_track("Song")]);
    state.observe(track);
    let stop = state.observe(None);
    assert!(matches!(stop, Some(PlaybackChange::Stopped)));
    assert!(state.observe(None).is_none());
}

#[test]
fn poll_sequence_produces_started_then_stopped() {
    let mut state = PlaybackObservationState::new();
    let polls = vec![
        Vec::new(),
        vec![playing_track("A")],
        vec![playing_track("A")],
        Vec::new(),
    ];
    let mut events = Vec::new();
    for sessions in &polls {
        if let Some(event) = state.observe(extract_trackinfo(sessions)) {
            events.push(event);
        }
    }
    assert_eq!(events.len(), 2);
    match &events[0] {
        PlaybackChange::Started(track) => assert_eq!(track.title, "A"),
        other => panic!("expected Started, got {:?}", other),
    }
    assert!(matches!(events[1], PlaybackChange::Stopped));
}
