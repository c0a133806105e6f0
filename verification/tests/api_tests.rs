use ymz::api::{
    authorization_value, download_info_url, feedback_body, feedback_url, is_success_status,
    mp3_download_info_url, wave_tracks_url, DownloadInfo,
};
use ymz::player::FeedbackEvent;
use ymz::stream::StreamUrlError;

#[test]
fn urls_of_the_api() {
    assert_eq!(
        wave_tracks_url(),
        "https://api.music.yandex.net/rotor/station/user:onyourwave/tracks"
    );
    assert_eq!(
        feedback_url(),
        "https://api.music.yandex.net/rotor/station/user:onyourwave/feedback"
    );
    assert_eq!(
        download_info_url("12345"),
        "https://api.music.yandex.net/tracks/12345/download-info"
    );
}

#[test]
fn success_statuses() {
    assert!(is_success_status(200));
    assert!(is_success_status(204));
    assert!(is_success_status(299));
    assert!(!is_success_status(199));
    assert!(!is_success_status(300));
    assert!(!is_success_status(404));
    assert!(!is_success_status(503));
}

#[test]
fn authorization_header_for_a_plain_token() {
    assert_eq!(
        authorization_value("y0_AgAAAAB").as_deref(),
        Some("OAuth y0_AgAAAAB")
    );
}

#[test]
fn authorization_header_refuses_control_characters() {
    assert_eq!(authorization_value("abc\ndef"), None);
    assert_eq!(authorization_value("abc\u{7f}"), None);
    assert_eq!(authorization_value("abc\rdef"), None);
}

#[test]
fn authorization_header_accepts_tab_and_non_ascii() {
    assert_eq!(authorization_value("a\tb").as_deref(), Some("OAuth a\tb"));
    assert_eq!(authorization_value("токен").as_deref(), Some("OAuth токен"));
}

fn info(codec: &str, url: &str) -> DownloadInfo {
    DownloadInfo { codec: codec.to_string(), download_info_url: url.to_string() }
}

#[test]
fn first_mp3_stream_is_chosen() {
    let infos = vec![
        info("aac", "https://a/1"),
        info("mp3", "https://a/2"),
        info("mp3", "https://a/3"),
    ];
    assert_eq!(mp3_download_info_url(&infos).unwrap(), "https://a/2");
}

#[test]
fn no_mp3_stream_is_an_error() {
    let infos = vec![info("aac", "https://a/1"), info("MP3", "https://a/2")];
    assert!(matches!(mp3_download_info_url(&infos), Err(StreamUrlError::NoMp3Stream)));
    assert!(matches!(mp3_download_info_url(&Vec::new()), Err(StreamUrlError::NoMp3Stream)));
}

#[test]
fn feedback_body_of_plain_texts() {
    let body = feedback_body("batch-1", "42:7", FeedbackEvent::TrackStarted, "2024-05-01T10:00:00+00:00");
    assert_eq!(
        body,
        "{\"batchId\":\"batch-1\",\"timestamp\":\"2024-05-01T10:00:00+00:00\",\"trackId\":\"42:7\",\"type\":\"trackStarted\"}"
    );
    let skip = feedback_body("b", "t", FeedbackEvent::Skip, "x");
    assert_eq!(skip, "{\"batchId\":\"b\",\"timestamp\":\"x\",\"trackId\":\"t\",\"type\":\"skip\"}");
    let fin = feedback_body("b", "t", FeedbackEvent::TrackFinished, "x");
    assert_eq!(fin, "{\"batchId\":\"b\",\"timestamp\":\"x\",\"trackId\":\"t\",\"type\":\"trackFinished\"}");
}

#[test]
fn feedback_body_escapes_quotes() {
    let body = feedback_body("a\"b", "t\\1", FeedbackEvent::Skip, "x");
    assert_eq!(
        body,
        "{\"batchId\":\"a\\\"b\",\"timestamp\":\"x\",\"trackId\":\"t\\\\1\",\"type\":\"skip\"}"
    );
}
