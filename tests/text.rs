use central_player::text::{
    clock_text, has_prefix, is_audio_extension, is_audio_extension_folded, is_file_uri,
    same_text,
};

#[test]
fn clock_pads_to_two_digits() {
    assert_eq!(clock_text(0), "00:00");
    assert_eq!(clock_text(5), "00:05");
    assert_eq!(clock_text(125), "02:05");
    assert_eq!(clock_text(59), "00:59");
    assert_eq!(clock_text(60), "01:00");
    assert_eq!(clock_text(754), "12:34");
}

#[test]
fn clock_grows_past_hundred_minutes() {
    assert_eq!(clock_text(6001), "100:01");
    assert_eq!(clock_text(u64::MAX), format!("{:02}:{:02}", u64::MAX / 60, u64::MAX % 60));
}

#[test]
fn file_uris_are_recognised() {
    assert!(is_file_uri("file:///home/me/song.mp3"));
    assert!(is_file_uri("file://"));
    assert!(!is_file_uri("/home/me/song.mp3"));
    assert!(!is_file_uri("file:/x"));
    assert!(!is_file_uri(""));
}

#[test]
fn prefix_and_equality() {
    assert!(has_prefix("abc", ""));
    assert!(has_prefix("abc", "ab"));
    assert!(!has_prefix("ab", "abc"));
    assert!(has_prefix("שיר.mp3", "שיר"));
    assert!(same_text("flac", "flac"));
    assert!(!same_text("flac", "fla"));
    assert!(!same_text("mp3", "mp4"));
}

#[test]
fn folded_extensions() {
    for e in ["mp3", "wav", "ogg", "flac", "m4a", "mp4"] {
        assert!(is_audio_extension_folded(e));
    }
    assert!(!is_audio_extension_folded("MP3"));
    assert!(!is_audio_extension_folded("aac"));
    assert!(!is_audio_extension_folded(""));
}

#[test]
fn extensions_in_any_case() {
    assert!(is_audio_extension("MP3"));
    assert!(is_audio_extension("Flac"));
    assert!(is_audio_extension("wav"));
    assert!(!is_audio_extension("txt"));
    assert!(!is_audio_extension("JPG"));
}
