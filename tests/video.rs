use godot_vlc::video::{FrameFormat, VideoError, VideoPipeline};

#[test]
fn format_negotiate_640_by_480() {
    let mut v = VideoPipeline::new();
    let f = v.format_negotiate(640, 480).unwrap();
    assert_eq!(f.pitch, 1920);
    assert_eq!(f.lines, 480);
    assert_eq!(f, FrameFormat { width: 640, height: 480, pitch: 1920, lines: 480 });
    let buf = v.lock().unwrap();
    assert_eq!(buf.len(), 640 * 480 * 3);
}

#[test]
fn one_buffer_in_flight() {
    let mut v = VideoPipeline::new();
    assert_eq!(v.lock().err(), Some(VideoError::NotConfigured));
    v.format_negotiate(4, 2).unwrap();
    let mut buf = v.lock().unwrap();
    assert!(v.is_locked());
    assert_eq!(v.lock().err(), Some(VideoError::AlreadyLocked));
    assert_eq!(v.format_negotiate(8, 8).err(), Some(VideoError::AlreadyLocked));
    buf[0] = 7;
    assert_eq!(v.unlock(buf), Ok(()));
    assert!(!v.is_locked());
    assert_eq!(v.unlock(vec![0; 24]), Err(VideoError::NotLocked));
    let again = v.lock().unwrap();
    assert_eq!(again[0], 7);
}

#[test]
fn new_resolution_needs_negotiation() {
    let mut v = VideoPipeline::new();
    v.format_negotiate(2, 2).unwrap();
    let b = v.lock().unwrap();
    v.unlock(b).unwrap();
    v.format_negotiate(3, 1).unwrap();
    let b = v.lock().unwrap();
    assert_eq!(b.len(), 9);
}

#[test]
fn unsupported_sizes_suppress_video() {
    let mut v = VideoPipeline::new();
    assert_eq!(v.format_negotiate(0, 480).err(), Some(VideoError::Unsupported));
    assert_eq!(v.format_negotiate(640, 0).err(), Some(VideoError::Unsupported));
    assert_eq!(v.format_negotiate(65536, 65536).err(), Some(VideoError::Unsupported));
    assert_eq!(v.format(), None);
    assert_eq!(v.lock().err(), Some(VideoError::NotConfigured));
}

#[test]
fn wrong_buffer_size_unconfigures() {
    let mut v = VideoPipeline::new();
    v.format_negotiate(2, 2).unwrap();
    let _ = v.lock().unwrap();
    assert_eq!(v.unlock(vec![1, 2, 3]), Err(VideoError::WrongBufferSize));
    assert_eq!(v.format(), None);
}

#[test]
fn display_queues_latest_frame_and_keeps_resize() {
    let mut v = VideoPipeline::new();
    v.format_negotiate(1, 1).unwrap();
    assert!(!v.display());
    let mut b = v.lock().unwrap();
    b.copy_from_slice(&[1, 2, 3]);
    v.unlock(b).unwrap();
    assert!(v.display());
    let mut b = v.lock().unwrap();
    assert!(!v.display());
    b.copy_from_slice(&[4, 5, 6]);
    v.unlock(b).unwrap();
    assert!(v.display());
    let d = v.take_display().unwrap();
    assert_eq!(d.pixels, vec![4, 5, 6]);
    assert!(d.resized);
    assert_eq!(d.format.pitch, 3);
    assert!(v.take_display().is_none());
    assert!(v.display());
    assert!(!v.take_display().unwrap().resized);
}

#[test]
fn cleanup_releases_once() {
    let mut v = VideoPipeline::new();
    assert!(!v.cleanup());
    v.format_negotiate(2, 2).unwrap();
    assert!(v.cleanup());
    assert!(!v.cleanup());
    assert_eq!(v.lock().err(), Some(VideoError::NotConfigured));
}

#[test]
fn unlocked_frame_is_visible_in_place() {
    let mut v = VideoPipeline::new();
    v.format_negotiate(1, 1).unwrap();
    assert!(v.frame().is_none());
    let mut b = v.lock().unwrap();
    b.copy_from_slice(&[9, 8, 7]);
    assert!(v.frame().is_none());
    v.unlock(b).unwrap();
    assert_eq!(v.frame(), Some(&vec![9, 8, 7]));
}
