use godot_vlc::session::{MediaInfo, PlayStep, Session, StopStep};
use godot_vlc::state::PlaybackState;
use godot_vlc::track::{TrackType, VlcTrack, VlcTrackList};

fn track(name: &str) -> VlcTrack {
    VlcTrack::new(
        TrackType::Audio,
        128000,
        "en".to_string(),
        String::new(),
        name.to_string(),
        name.to_string(),
        false,
    )
}

#[test]
fn select_track_out_of_range_is_noop() {
    let mut s = Session::new();
    assert_eq!(s.select_audio_track(1, 3), Some(1));
    assert_eq!(s.audio_track(), 1);
    assert_eq!(s.select_audio_track(3, 3), None);
    assert_eq!(s.select_audio_track(-1, 3), None);
    assert_eq!(s.select_audio_track(0, 0), None);
    assert_eq!(s.audio_track(), 1);
}

#[test]
fn stop_sync_waits_for_stopped() {
    let mut s = Session::new();
    s.observe_playing(true);
    assert_eq!(s.begin_stop(PlaybackState::Playing), StopStep::RequestStop);
    assert_eq!(s.on_stop_poll(PlaybackState::Stopping), StopStep::Poll);
    assert!(s.is_playing());
    assert_eq!(s.on_stop_poll(PlaybackState::Stopped), StopStep::Stopped);
    assert!(!s.is_playing());
}

#[test]
fn stop_sync_on_stopped_session_returns_at_once() {
    let mut s = Session::new();
    assert_eq!(s.begin_stop(PlaybackState::Stopped), StopStep::Stopped);
}

#[test]
fn play_reapplies_track_and_pause() {
    let mut s = Session::new();
    s.select_audio_track(2, 4);
    assert!(!s.set_paused(true));
    assert_eq!(s.on_play_poll(false), PlayStep::Poll);
    assert_eq!(s.on_play_poll(true), PlayStep::Started { audio_track: 2, paused: true });
    assert!(s.is_playing());
    assert!(s.set_paused(false));
}

#[test]
fn rebind_reflects_new_media() {
    let mut s = Session::new();
    s.set_media(1);
    assert!(s.record_media_info(
        1,
        MediaInfo { length_ms: 1000, tracks: VlcTrackList::new(vec![track("a")]) }
    ));
    s.on_play_poll(true);
    s.begin_stop(PlaybackState::Stopped);
    s.set_media(2);
    assert_eq!(s.length_ms(), None);
    assert!(!s.record_media_info(
        1,
        MediaInfo { length_ms: 1000, tracks: VlcTrackList::new(vec![track("a")]) }
    ));
    assert!(s.record_media_info(
        2,
        MediaInfo { length_ms: 2500, tracks: VlcTrackList::new(vec![track("b1"), track("b2")]) }
    ));
    assert_eq!(s.on_play_poll(true), PlayStep::Started { audio_track: 0, paused: false });
    assert_eq!(s.media(), Some(2));
    assert_eq!(s.length_ms(), Some(2500));
    assert_eq!(s.tracks().unwrap().tracklist_count(), 2);
}

#[test]
fn teardown_releases_once() {
    let mut s = Session::new();
    s.set_media(5);
    assert!(s.teardown());
    assert!(!s.teardown());
    assert!(!s.record_media_info(5, MediaInfo { length_ms: 1, tracks: VlcTrackList::new(vec![]) }));
}
