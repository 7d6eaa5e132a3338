use godot_vlc::media_source::{MediaSource, STATUS_ERROR, STATUS_OK};

#[test]
fn reads_totaling_length_then_eof_returns_zero() {
    let mut src = MediaSource::new();
    assert_eq!(src.open(Some(1000)), (STATUS_OK, 1000));
    assert_eq!(src.read_span(600), 600);
    assert_eq!(src.complete_read(600, Some(600)), 600);
    assert_eq!(src.read_span(600), 400);
    assert_eq!(src.complete_read(600, Some(400)), 400);
    assert_eq!(src.position(), 1000);
    assert_eq!(src.read_span(10), 0);
    assert_eq!(src.complete_read(10, Some(0)), 0);
    // At the end a stream error is not passed on either.
    assert_eq!(src.complete_read(10, None), 0);
}

#[test]
fn open_failure_reports_error() {
    let mut src = MediaSource::new();
    assert_eq!(src.open(None), (STATUS_ERROR, 0));
    assert_eq!(src.complete_read(16, Some(16)), -1);
    assert!(!src.seek_allowed(0));
}

#[test]
fn read_error_is_negative_and_keeps_position() {
    let mut src = MediaSource::new();
    src.open(Some(100));
    assert_eq!(src.complete_read(10, None), -1);
    assert_eq!(src.position(), 0);
    // A count beyond what was asked of the stream is an error too.
    assert_eq!(src.complete_read(10, Some(11)), -1);
    assert_eq!(src.complete_read(10, Some(4)), 4);
    assert_eq!(src.position(), 4);
}

#[test]
fn open_resets_position() {
    let mut src = MediaSource::new();
    src.open(Some(50));
    src.complete_read(20, Some(20));
    assert_eq!(src.open(Some(70)), (STATUS_OK, 70));
    assert_eq!(src.position(), 0);
    assert_eq!(src.length(), 70);
}

#[test]
fn seek_within_stream() {
    let mut src = MediaSource::new();
    src.open(Some(1000));
    assert!(src.seek_allowed(999));
    assert_eq!(src.complete_seek(999, true), STATUS_OK);
    assert_eq!(src.read_span(10), 1);
    assert!(!src.seek_allowed(1001));
    assert_eq!(src.complete_seek(1001, true), STATUS_ERROR);
    assert_eq!(src.complete_seek(10, false), STATUS_ERROR);
    assert_eq!(src.position(), 999);
}

#[test]
fn close_releases_once() {
    let mut src = MediaSource::new();
    assert!(src.close());
    assert!(!src.close());
    assert_eq!(src.open(Some(10)).0, STATUS_ERROR);
}
