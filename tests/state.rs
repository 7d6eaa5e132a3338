use godot_vlc::events::{EventRelay, PlayerEvent};
use godot_vlc::state::{MixTarget, ParsedStatus, PlaybackState, StretchMode};
use godot_vlc::track::{TrackType, VlcTrack, VlcTrackList};

#[test]
fn playback_state_codes() {
    assert_eq!(PlaybackState::from_code(5), Some(PlaybackState::Stopped));
    assert_eq!(PlaybackState::from_code(0), Some(PlaybackState::NothingSpecial));
    assert_eq!(PlaybackState::from_code(7), Some(PlaybackState::Error));
    assert_eq!(PlaybackState::from_code(8), None);
    assert_eq!(PlaybackState::from_code(-1), None);
    assert_eq!(PlaybackState::Stopping.code(), 6);
}

#[test]
fn parsed_status_codes() {
    assert_eq!(ParsedStatus::from_code(6), Some(ParsedStatus::Done));
    assert_eq!(ParsedStatus::from_code(0), Some(ParsedStatus::NotParsed));
    assert_eq!(ParsedStatus::from_code(7), None);
}

#[test]
fn stretch_and_mix_settings() {
    assert_eq!(StretchMode::from_index(0), StretchMode::Scale);
    assert_eq!(StretchMode::from_index(6), StretchMode::KeepAspectCovered);
    assert_eq!(StretchMode::from_index(42), StretchMode::KeepAspectCenterd);
    assert_eq!(MixTarget::from_index(2), MixTarget::Center);
    assert_eq!(MixTarget::from_index(-3), MixTarget::Stereo);
}

#[test]
fn events_delivered_in_order() {
    let mut r = EventRelay::new();
    r.post(PlayerEvent::Opening);
    r.post(PlayerEvent::Buffering);
    r.post(PlayerEvent::Playing);
    assert_eq!(r.len(), 3);
    assert_eq!(
        r.drain(),
        vec![PlayerEvent::Opening, PlayerEvent::Buffering, PlayerEvent::Playing]
    );
    assert_eq!(r.len(), 0);
    assert!(r.drain().is_empty());
}

#[test]
fn track_type_codes() {
    assert_eq!(TrackType::from_code(0), TrackType::Audio);
    assert_eq!(TrackType::from_code(2), TrackType::Text);
    assert_eq!(TrackType::from_code(9), TrackType::Unknown);
    assert_eq!(TrackType::Video.code(), 1);
    assert_eq!(TrackType::Unknown.code(), -1);
}

#[test]
fn track_snapshot_lookup() {
    let t = |id: &str| {
        VlcTrack::new(
            TrackType::Video,
            0,
            String::new(),
            String::new(),
            id.to_string(),
            String::new(),
            true,
        )
    };
    let list = VlcTrackList::new(vec![t("x"), t("y")]);
    assert_eq!(list.tracklist_count(), 2);
    assert!(list.tracklist_at(1).is_some());
    assert!(list.tracklist_at(2).is_none());
    assert_eq!(list.get_tracks().len(), 2);
    assert!(VlcTrackList::new(vec![]).tracklist_at(0).is_none());
}

#[test]
fn track_getters() {
    let t = VlcTrack::new(
        TrackType::Audio,
        320,
        "fr".to_string(),
        "commentary".to_string(),
        "audio/1".to_string(),
        "Track 2".to_string(),
        true,
    );
    assert_eq!(t.get_type(), 0);
    assert_eq!(t.get_bitrate(), 320);
    assert_eq!(t.get_language(), "fr");
    assert_eq!(t.get_description(), "commentary");
    assert_eq!(t.get_id(), "audio/1");
    assert_eq!(t.get_name(), "Track 2");
    assert!(t.is_selected());
}
