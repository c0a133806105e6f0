use ymz::config::select_token;
use ymz::retry::{AttemptOutcome, RetryAction, WaveRetry};
use ymz::text::{char_is_whitespace, replace_all, str_equal, trim};

const NOT_FOUND: &str =
    "Токен не найден! Создайте ~/.config/ymz/token с правами 600 или передайте YM_TOKEN";

#[test]
fn three_failures_then_give_up() {
    let mut r = WaveRetry::new();
    assert_eq!(r.on_attempt(AttemptOutcome::NetworkError), RetryAction::Wait(2));
    assert_eq!(r.on_attempt(AttemptOutcome::Status(500)), RetryAction::Wait(4));
    assert_eq!(r.on_attempt(AttemptOutcome::Status(404)), RetryAction::GiveUp);
}

#[test]
fn success_reads_the_body() {
    let mut r = WaveRetry::new();
    assert_eq!(r.on_attempt(AttemptOutcome::Status(200)), RetryAction::ReadBody);
    let mut s = WaveRetry::new();
    assert_eq!(s.on_attempt(AttemptOutcome::Status(502)), RetryAction::Wait(2));
    assert_eq!(s.on_attempt(AttemptOutcome::Status(204)), RetryAction::ReadBody);
    assert_eq!(s.retries_left, 2);
    assert_eq!(s.delay_secs, 4);
}

#[test]
fn token_from_file_first() {
    assert_eq!(select_token(Some("  abc \n"), Some("env")), Ok("abc".to_string()));
    assert_eq!(select_token(Some(" \n\t"), Some(" env ")), Ok("env".to_string()));
    assert_eq!(select_token(None, Some("env")), Ok("env".to_string()));
}

#[test]
fn no_token_anywhere() {
    assert_eq!(select_token(None, None), Err(NOT_FOUND.to_string()));
    assert_eq!(select_token(Some(""), Some("   ")), Err(NOT_FOUND.to_string()));
}

#[test]
fn trimming() {
    assert_eq!(trim("  a b \t\n"), "a b");
    assert_eq!(trim(""), "");
    assert_eq!(trim(" \u{a0} "), "");
    assert_eq!(trim("x"), "x");
}

#[test]
fn replacing() {
    assert_eq!(replace_all("%%%", "%%", "X"), "X%");
    assert_eq!(replace_all("abcabc", "bc", ""), "aa");
    assert_eq!(replace_all("aaa", "aa", "b"), "ba");
    assert_eq!(replace_all("", "x", "y"), "");
}

#[test]
fn string_equality() {
    assert!(str_equal("mp3", "mp3"));
    assert!(!str_equal("mp3", "mp4"));
    assert!(!str_equal("mp3", "mp33"));
}

#[test]
fn whitespace_class_agrees_with_std() {
    for v in 0u32..0x3100 {
        if let Some(c) = char::from_u32(v) {
            assert_eq!(char_is_whitespace(c), c.is_whitespace(), "U+{:04X}", v);
        }
    }
    assert!(!char_is_whitespace('\u{feff}'));
    assert_eq!(trim("\u{3000}t\u{85}"), "t");
}
