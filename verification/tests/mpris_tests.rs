use ymz::mpris::{
    build_metadata_map, player_capabilities, playback_status, sanitize_track_id,
    track_object_path, MetadataEntry, MetadataValue, MprisRoot, PlaybackStatus,
};

#[test]
fn root_properties() {
    let root = MprisRoot;
    assert!(root.can_quit());
    assert!(!root.can_raise());
    assert!(!root.has_track_list());
    assert_eq!(root.identity(), "Yandex Music Zero");
    assert!(root.supported_uri_schemes().is_empty());
    assert_eq!(root.supported_mime_types(), vec!["audio/mpeg".to_string()]);
}

#[test]
fn player_capability_flags() {
    let c = player_capabilities();
    assert!(c.can_go_next);
    assert!(!c.can_go_previous);
    assert!(c.can_play);
    assert!(c.can_pause);
    assert!(c.can_seek);
    assert!(c.can_control);
}

#[test]
fn playback_status_names() {
    assert_eq!(playback_status(true, false), PlaybackStatus::Paused);
    assert_eq!(playback_status(true, true), PlaybackStatus::Paused);
    assert_eq!(playback_status(false, true), PlaybackStatus::Stopped);
    assert_eq!(playback_status(false, false), PlaybackStatus::Playing);
    assert_eq!(PlaybackStatus::Playing.as_str(), "Playing");
    assert_eq!(PlaybackStatus::Paused.as_str(), "Paused");
    assert_eq!(PlaybackStatus::Stopped.as_str(), "Stopped");
}

#[test]
fn track_ids_are_sanitized() {
    assert_eq!(sanitize_track_id("123:456"), "123456");
    assert_eq!(sanitize_track_id("a_b-c d"), "a_bcd");
    assert_eq!(sanitize_track_id("трек1"), "трек1");
    assert_eq!(sanitize_track_id(""), "");
}

#[test]
fn track_object_paths() {
    assert_eq!(track_object_path("12345"), "/org/ymz/Track/12345");
    assert_eq!(track_object_path("123:456"), "/org/ymz/Track/123456");
    assert_eq!(track_object_path("a_b"), "/org/ymz/Track/a_b");
    assert_eq!(track_object_path(""), "/org/mpris/MediaPlayer2/TrackList/NoTrack");
    assert_eq!(track_object_path(":-/"), "/org/mpris/MediaPlayer2/TrackList/NoTrack");
    assert_eq!(track_object_path("трек"), "/org/mpris/MediaPlayer2/TrackList/NoTrack");
}

fn text_of(e: &MetadataEntry) -> Option<&str> {
    match &e.value {
        MetadataValue::Text(t) => Some(t.as_str()),
        MetadataValue::ObjectPath(p) => Some(p.as_str()),
        _ => None,
    }
}

#[test]
fn metadata_with_cover() {
    let m = build_metadata_map("Song", "Band", "https://c/400x400", "77:1", 180_000_000);
    let keys: Vec<&str> = m.iter().map(|e| e.key.as_str()).collect();
    assert_eq!(
        keys,
        vec!["mpris:trackid", "xesam:title", "xesam:artist", "mpris:length", "mpris:artUrl"]
    );
    assert!(matches!(&m[0].value, MetadataValue::ObjectPath(p) if p == "/org/ymz/Track/771"));
    assert_eq!(text_of(&m[1]), Some("Song"));
    assert!(matches!(&m[2].value, MetadataValue::TextList(l) if l == &vec!["Band".to_string()]));
    assert!(matches!(m[3].value, MetadataValue::Int64(180_000_000)));
    assert_eq!(text_of(&m[4]), Some("https://c/400x400"));
}

#[test]
fn metadata_without_cover() {
    let m = build_metadata_map("Моя волна", "Яндекс Музыка", "", "0", 0);
    assert_eq!(m.len(), 4);
    assert!(m.iter().all(|e| e.key != "mpris:artUrl"));
    assert!(matches!(&m[0].value, MetadataValue::ObjectPath(p) if p == "/org/ymz/Track/0"));
}

#[test]
fn dropped_characters_do_not_change_metadata() {
    let a = build_metadata_map("T", "A", "", "12:3-4", 5);
    let b = build_metadata_map("T", "A", "", &sanitize_track_id("12:3-4"), 5);
    assert!(matches!((&a[0].value, &b[0].value),
        (MetadataValue::ObjectPath(p), MetadataValue::ObjectPath(q)) if p == q && p == "/org/ymz/Track/1234"));
    assert_eq!(sanitize_track_id(&sanitize_track_id("a-b:c_д")), sanitize_track_id("a-b:c_д"));
}
