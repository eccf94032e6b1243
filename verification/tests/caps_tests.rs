use gstplayer::caps::{classify_media_type, has_prefix, MediaClass};

#[test]
fn audio_prefix_is_audio() {
    assert_eq!(classify_media_type("audio/mpeg"), MediaClass::Audio);
    assert_eq!(classify_media_type("audio/x-raw"), MediaClass::Audio);
}

#[test]
fn video_prefix_is_video() {
    assert_eq!(classify_media_type("video/x-raw"), MediaClass::Video);
    assert_eq!(classify_media_type("video/mpeg"), MediaClass::Video);
}

#[test]
fn other_names_are_unsupported() {
    assert_eq!(classify_media_type("text/x-subtitle"), MediaClass::Unsupported);
    assert_eq!(classify_media_type("application/x-id3"), MediaClass::Unsupported);
    assert_eq!(classify_media_type(""), MediaClass::Unsupported);
    // The prefix must include the slash: a bare scheme does not count.
    assert_eq!(classify_media_type("audio"), MediaClass::Unsupported);
    assert_eq!(classify_media_type("videotape/x"), MediaClass::Unsupported);
}

#[test]
fn prefix_checks() {
    assert!(has_prefix("audio/mpeg", "audio/"));
    assert!(has_prefix("audio/", "audio/"));
    assert!(!has_prefix("audio", "audio/"));
    assert!(!has_prefix("video/mpeg", "audio/"));
    assert!(has_prefix("anything", ""));
}
