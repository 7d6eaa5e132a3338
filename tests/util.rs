use godot_vlc::util::cstring_to_gstring;

#[test]
fn conversion_stops_at_first_nul() {
    assert_eq!(cstring_to_gstring(b"abc\0def"), b"abc".to_vec());
    assert_eq!(cstring_to_gstring(b"plain"), b"plain".to_vec());
    assert_eq!(cstring_to_gstring(b"\0x"), Vec::<u8>::new());
    assert_eq!(cstring_to_gstring(b""), Vec::<u8>::new());
}
