use ymz::api::{Artist, Track};
use ymz::mpris::{MetadataValue, PlaybackStatus, PlayerCommand};
use ymz::player::{
    command_allowed, cover_url, decide_command, duration_in_range, duration_us, poll_playback, CommandAction, FeedbackEvent,
    NowPlaying, PlaybackContext, TrackAction, TrackEvent, TrackPhase, TrackSession,
};

fn track(artists: &[&str], cover: Option<&str>, ms: Option<i64>) -> Track {
    Track {
        id: "101:5".to_string(),
        title: "Title".to_string(),
        artists: artists.iter().map(|a| Artist { name: a.to_string() }).collect(),
        cover_uri: cover.map(|c| c.to_string()),
        duration_ms: ms,
    }
}

#[test]
fn cover_addresses() {
    assert_eq!(
        cover_url(&Some("avatars.yandex.net/get-music-content/1/2/%%".to_string())),
        "https://avatars.yandex.net/get-music-content/1/2/400x400"
    );
    assert_eq!(cover_url(&Some("a%%b%%%".to_string())), "https://a400x400b400x400%");
    assert_eq!(cover_url(&Some("plain".to_string())), "https://plain");
    assert_eq!(cover_url(&None), "");
}

#[test]
fn durations_in_microseconds() {
    assert_eq!(duration_us(Some(215_000)), 215_000_000);
    assert_eq!(duration_us(None), 0);
    assert_eq!(duration_us(Some(-3)), -3000);
}

#[test]
fn now_playing_of_a_track() {
    let t = track(&["First", "Second"], Some("c/%%"), Some(2_000));
    let n = NowPlaying::from_track(&t);
    assert_eq!(n.title, "Title");
    assert_eq!(n.artist, "First");
    assert_eq!(n.art_url, "https://c/400x400");
    assert_eq!(n.track_id, "101:5");
    assert_eq!(n.duration_us, 2_000_000);
    let m = n.metadata();
    assert_eq!(m.len(), 5);
    assert!(matches!(&m[0].value, MetadataValue::ObjectPath(p) if p == "/org/ymz/Track/1015"));
}

#[test]
fn now_playing_without_artist_or_cover() {
    let n = NowPlaying::from_track(&track(&[], None, None));
    assert_eq!(n.artist, "Неизвестный исполнитель");
    assert_eq!(n.art_url, "");
    assert_eq!(n.duration_us, 0);
    assert_eq!(n.metadata().len(), 4);
}

#[test]
fn now_playing_before_the_first_track() {
    let n = NowPlaying::initial();
    assert_eq!(n.title, "Моя волна");
    assert_eq!(n.artist, "Яндекс Музыка");
    assert_eq!(n.art_url, "");
    assert_eq!(n.track_id, "0");
    assert_eq!(n.duration_us, 0);
}

fn ctx(paused: bool, position_us: i64, duration_us: i64) -> PlaybackContext {
    PlaybackContext { paused, position_us, duration_us }
}

#[test]
fn play_pause_toggles() {
    let a = decide_command(PlayerCommand::PlayPause, &ctx(true, 0, 10));
    assert_eq!(a, CommandAction::Resume);
    assert_eq!(a.announced_status(), Some(PlaybackStatus::Playing));
    let b = decide_command(PlayerCommand::PlayPause, &ctx(false, 0, 10));
    assert_eq!(b, CommandAction::Pause);
    assert_eq!(b.announced_status(), Some(PlaybackStatus::Paused));
}

#[test]
fn next_and_stop() {
    let n = decide_command(PlayerCommand::Next, &ctx(false, 0, 10));
    assert_eq!(n, CommandAction::Skip);
    assert_eq!(n.announced_status(), None);
    let s = decide_command(PlayerCommand::Stop, &ctx(false, 0, 10));
    assert_eq!(s, CommandAction::Stop);
    assert_eq!(s.announced_status(), Some(PlaybackStatus::Stopped));
}

#[test]
fn seeks_stay_within_the_track() {
    let c = ctx(false, 5_000_000, 60_000_000);
    assert_eq!(decide_command(PlayerCommand::Seek(10_000_000), &c), CommandAction::SeekTo(15_000_000));
    assert_eq!(decide_command(PlayerCommand::Seek(-10_000_000), &c), CommandAction::SeekTo(0));
    assert_eq!(decide_command(PlayerCommand::Seek(100_000_000), &c), CommandAction::SeekTo(60_000_000));
    assert_eq!(decide_command(PlayerCommand::SetPosition(75_000_000), &c), CommandAction::SeekTo(60_000_000));
    assert_eq!(decide_command(PlayerCommand::SetPosition(-1), &c), CommandAction::SeekTo(0));
    assert_eq!(decide_command(PlayerCommand::SetPosition(30), &c), CommandAction::SeekTo(30));
    assert_eq!(decide_command(PlayerCommand::Seek(1), &ctx(false, 0, 0)), CommandAction::SeekTo(0));
    assert_eq!(CommandAction::SeekTo(3).announced_status(), None);
}

#[test]
fn polling_the_output() {
    assert_eq!(poll_playback(true, false), Some(FeedbackEvent::Skip));
    assert_eq!(poll_playback(true, true), Some(FeedbackEvent::Skip));
    assert_eq!(poll_playback(false, true), Some(FeedbackEvent::TrackFinished));
    assert_eq!(poll_playback(false, false), None);
    assert_eq!(FeedbackEvent::TrackStarted.as_str(), "trackStarted");
    assert_eq!(FeedbackEvent::TrackFinished.as_str(), "trackFinished");
    assert_eq!(FeedbackEvent::Skip.as_str(), "skip");
}

#[test]
fn a_track_played_to_the_end() {
    let mut s = TrackSession::new();
    assert_eq!(s.step(TrackEvent::StreamResolved(true)), TrackAction::ReportStartAndLoad);
    assert_eq!(s.step(TrackEvent::AudioLoaded(true)), TrackAction::Play);
    let tick = TrackEvent::Tick { skip_requested: false, output_empty: false };
    assert_eq!(s.step(tick), TrackAction::KeepPlaying);
    assert_eq!(s.phase, TrackPhase::Playing);
    let end = TrackEvent::Tick { skip_requested: false, output_empty: true };
    assert_eq!(s.step(end), TrackAction::ReportAndNext(FeedbackEvent::TrackFinished));
    assert_eq!(s.phase, TrackPhase::Done);
    assert_eq!(s.step(end), TrackAction::Ignore);
}

#[test]
fn a_skipped_track_and_failures() {
    let mut s = TrackSession::new();
    s.step(TrackEvent::StreamResolved(true));
    s.step(TrackEvent::AudioLoaded(true));
    let skip = TrackEvent::Tick { skip_requested: true, output_empty: true };
    assert_eq!(s.step(skip), TrackAction::ReportAndNext(FeedbackEvent::Skip));

    let mut f = TrackSession::new();
    assert_eq!(f.step(TrackEvent::StreamResolved(false)), TrackAction::Abandon);
    assert_eq!(f.phase, TrackPhase::Done);

    let mut g = TrackSession::new();
    g.step(TrackEvent::StreamResolved(true));
    assert_eq!(g.step(TrackEvent::AudioLoaded(false)), TrackAction::Abandon);

    let mut h = TrackSession::new();
    assert_eq!(h.step(TrackEvent::AudioLoaded(true)), TrackAction::Ignore);
    assert_eq!(h.phase, TrackPhase::Resolving);
}

#[test]
fn durations_that_fit() {
    assert!(duration_in_range(None));
    assert!(duration_in_range(Some(215_000)));
    assert!(duration_in_range(Some(i64::MAX / 1000)));
    assert!(!duration_in_range(Some(i64::MAX / 1000 + 1)));
    assert!(duration_in_range(Some(i64::MIN / 1000)));
    assert!(!duration_in_range(Some(i64::MIN / 1000 - 1)));
}

#[test]
fn commands_that_can_be_carried_out() {
    assert!(command_allowed(PlayerCommand::PlayPause, &ctx(false, 0, -1)));
    assert!(!command_allowed(PlayerCommand::SetPosition(5), &ctx(false, 0, -1)));
    assert!(command_allowed(PlayerCommand::SetPosition(5), &ctx(false, 0, 0)));
    assert!(!command_allowed(PlayerCommand::Seek(1), &ctx(false, i64::MAX, 10)));
    assert!(command_allowed(PlayerCommand::Seek(-1), &ctx(false, i64::MAX, 10)));
}

#[test]
fn play_and_pause_commands() {
    assert_eq!(decide_command(PlayerCommand::Play, &ctx(true, 0, 10)), CommandAction::Resume);
    assert_eq!(decide_command(PlayerCommand::Play, &ctx(false, 0, 10)), CommandAction::Keep);
    assert_eq!(decide_command(PlayerCommand::Pause, &ctx(false, 0, 10)), CommandAction::Pause);
    assert_eq!(decide_command(PlayerCommand::Pause, &ctx(true, 0, 10)), CommandAction::Keep);
    assert_eq!(CommandAction::Keep.announced_status(), None);
}
