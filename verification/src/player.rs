//! The decisions of the playback loop: what is shown for the current track,
//! how a command of the MPRIS interface acts on the output, when a track
//! ends, and which feedback reports go to the station.
use vstd::prelude::*;
use vstd::string::*;

use crate::api::{json_plain, Track};
use crate::mpris::{build_metadata_map, entries_view, metadata_spec, MetadataEntry, PlaybackStatus, PlayerCommand};
use crate::stream::opt_view;
use crate::text::{replace_all, replace_spec};

verus! {

/// The title shown before the first track.
pub const WAVE_TITLE: &'static str = "Моя волна";

/// The artist shown before the first track.
pub const WAVE_ARTIST: &'static str = "Яндекс Музыка";

/// The track id shown before the first track.
pub const NO_TRACK_ID: &'static str = "0";

/// The artist shown for a track that names none.
pub const UNKNOWN_ARTIST: &'static str = "Неизвестный исполнитель";

/// The mark in a cover address where the size goes.
pub const COVER_SIZE_MARK: &'static str = "%%";

/// The size of the cover that the player asks for.
pub const COVER_SIZE: &'static str = "400x400";

/// How often the playback loop looks at the output, in milliseconds.
pub const POLL_INTERVAL_MS: u64 = 150;

/// A report that the station gets about a track.
#[derive(Clone, Copy, Debug, PartialEq, Eq, Structural)]
pub enum FeedbackEvent {
    TrackStarted,
    TrackFinished,
    Skip,
}

impl FeedbackEvent {
    /// The name of the report in the API.
    pub open spec fn name_spec(self) -> Seq<char> {
        match self {
            FeedbackEvent::TrackStarted => "trackStarted"@,
            FeedbackEvent::TrackFinished => "trackFinished"@,
            FeedbackEvent::Skip => "skip"@,
        }
    }

    /// The name of the report in the API.
    pub fn as_str(&self) -> (r: &'static str)
        ensures
            r@ == self.name_spec(),
    {
        match self {
            FeedbackEvent::TrackStarted => "trackStarted",
            FeedbackEvent::TrackFinished => "trackFinished",
            FeedbackEvent::Skip => "skip",
        }
    }

    /// The names of the reports need no escaping in JSON.
    pub proof fn lemma_name_plain(self)
        ensures
            json_plain(self.name_spec()),
    {
        reveal_strlit("trackStarted");
        reveal_strlit("trackFinished");
        reveal_strlit("skip");
    }
}

/// The address of the cover of a track: the scheme, then the cover address
/// with the size in place of each `%%`; empty when the track has no cover.
pub open spec fn cover_url_spec(cover_uri: Option<Seq<char>>) -> Seq<char> {
    match cover_uri {
        Some(u) => "https://"@ + replace_spec(u, COVER_SIZE_MARK@, COVER_SIZE@),
        None => Seq::empty(),
    }
}

/// The address of the cover of a track.
pub fn cover_url(cover_uri: &Option<String>) -> (r: String)
    ensures
        r@ == cover_url_spec(opt_view(*cover_uri)),
{
    match cover_uri {
        Some(u) => {
            proof {
                reveal_strlit("%%");
            }
            let sized = replace_all(u.as_str(), COVER_SIZE_MARK, COVER_SIZE);
            "https://".to_string().concat(sized.as_str())
        },
        None => String::new(),
    }
}

/// The length of a track in microseconds, zero when it is not known.
pub open spec fn duration_us_spec(duration_ms: Option<i64>) -> int {
    match duration_ms {
        Some(ms) => ms * 1000,
        None => 0,
    }
}

/// The length in microseconds fits in an `i64`.
pub open spec fn duration_fits(duration_ms: Option<i64>) -> bool {
    i64::MIN <= duration_us_spec(duration_ms) <= i64::MAX
}

/// The length of a track in microseconds.
pub fn duration_us(duration_ms: Option<i64>) -> (r: i64)
    requires
        duration_fits(duration_ms),
    ensures
        r == duration_us_spec(duration_ms),
{
    match duration_ms {
        Some(ms) => ms * 1000,
        None => 0,
    }
}

/// Whether the length in microseconds fits in an `i64`.
pub fn duration_in_range(duration_ms: Option<i64>) -> (r: bool)
    ensures
        r == duration_fits(duration_ms),
{
    match duration_ms {
        Some(ms) => ms >= i64::MIN / 1000 && ms <= i64::MAX / 1000,
        None => true,
    }
}

/// The artist shown for a track: the first it names, or a stand-in.
pub open spec fn artist_name_spec(track: Track) -> Seq<char> {
    if track.artists@.len() > 0 {
        track.artists@[0].name@
    } else {
        UNKNOWN_ARTIST@
    }
}

/// What the player shows about the track it plays.
#[derive(Clone, Debug)]
pub struct NowPlaying {
    pub title: String,
    pub artist: String,
    pub art_url: String,
    pub track_id: String,
    pub duration_us: i64,
}

impl NowPlaying {
    /// What the player shows before the first track.
    pub fn initial() -> (r: NowPlaying)
        ensures
            r.title@ == WAVE_TITLE@,
            r.artist@ == WAVE_ARTIST@,
            r.art_url@.len() == 0,
            r.track_id@ == NO_TRACK_ID@,
            r.duration_us == 0,
    {
        NowPlaying {
            title: WAVE_TITLE.to_string(),
            artist: WAVE_ARTIST.to_string(),
            art_url: String::new(),
            track_id: NO_TRACK_ID.to_string(),
            duration_us: 0,
        }
    }

    /// What the player shows for `track`.
    pub fn from_track(track: &Track) -> (r: NowPlaying)
        requires
            duration_fits(track.duration_ms),
        ensures
            r.title@ == track.title@,
            r.artist@ == artist_name_spec(*track),
            track.artists@.len() > 0 ==> r.artist@ == track.artists@[0].name@,
            track.artists@.len() == 0 ==> r.artist@ == UNKNOWN_ARTIST@,
            r.art_url@ == cover_url_spec(opt_view(track.cover_uri)),
            r.track_id@ == track.id@,
            r.duration_us == duration_us_spec(track.duration_ms),
    {
        let artist = if track.artists.len() > 0 {
            track.artists[0].name.clone()
        } else {
            UNKNOWN_ARTIST.to_string()
        };
        NowPlaying {
            title: track.title.clone(),
            artist,
            art_url: cover_url(&track.cover_uri),
            track_id: track.id.clone(),
            duration_us: duration_us(track.duration_ms),
        }
    }

    /// The MPRIS metadata of what the player shows.
    pub fn metadata(&self) -> (r: Vec<MetadataEntry>)
        ensures
            entries_view(r@) == metadata_spec(
                self.title@,
                self.artist@,
                self.art_url@,
                self.track_id@,
                self.duration_us,
            ),
    {
        build_metadata_map(
            self.title.as_str(),
            self.artist.as_str(),
            self.art_url.as_str(),
            self.track_id.as_str(),
            self.duration_us,
        )
    }
}

/// The state of the output that a command acts on.
#[derive(Clone, Copy, Debug, PartialEq, Eq, Structural)]
pub struct PlaybackContext {
    pub paused: bool,
    /// The position in the current track, in microseconds.
    pub position_us: i64,
    /// The length of the current track, in microseconds.
    pub duration_us: i64,
}

/// What the playback loop does for a command.
#[derive(Clone, Copy, Debug, PartialEq, Eq, Structural)]
pub enum CommandAction {
    /// Resume the output and announce `Playing`.
    Resume,
    /// Pause the output and announce `Paused`.
    Pause,
    /// Mark the track as skipped and stop the output.
    Skip,
    /// Stop the output and announce `Stopped`.
    Stop,
    /// Move the output to this position, in microseconds, and announce the
    /// jump where the output accepts it.
    SeekTo(i64),
    /// Leave the output as it is.
    Keep,
}

/// `v` held within `lo` and `hi`.
pub open spec fn clamp_spec(v: int, lo: int, hi: int) -> int {
    if v < lo {
        lo
    } else if v > hi {
        hi
    } else {
        v
    }
}

/// A command that can be carried out in the context: a jump needs a known
/// length that is not negative, and a relative jump a target that fits in
/// an `i64`.
pub open spec fn command_ok(cmd: PlayerCommand, ctx: PlaybackContext) -> bool {
    match cmd {
        PlayerCommand::Seek(offset) => ctx.duration_us >= 0 && i64::MIN <= ctx.position_us + offset
            <= i64::MAX,
        PlayerCommand::SetPosition(_) => ctx.duration_us >= 0,
        _ => true,
    }
}

/// Whether a command can be carried out in the context.
pub fn command_allowed(cmd: PlayerCommand, ctx: &PlaybackContext) -> (r: bool)
    ensures
        r == command_ok(cmd, *ctx),
{
    match cmd {
        PlayerCommand::Seek(offset) => ctx.duration_us >= 0 && ctx.position_us.checked_add(
            offset,
        ).is_some(),
        PlayerCommand::SetPosition(_) => ctx.duration_us >= 0,
        _ => true,
    }
}

/// What the playback loop does for a command.
pub open spec fn command_action_spec(cmd: PlayerCommand, ctx: PlaybackContext) -> CommandAction {
    match cmd {
        PlayerCommand::PlayPause => if ctx.paused {
            CommandAction::Resume
        } else {
            CommandAction::Pause
        },
        PlayerCommand::Play => if ctx.paused {
            CommandAction::Resume
        } else {
            CommandAction::Keep
        },
        PlayerCommand::Pause => if ctx.paused {
            CommandAction::Keep
        } else {
            CommandAction::Pause
        },
        PlayerCommand::Next => CommandAction::Skip,
        PlayerCommand::Stop => CommandAction::Stop,
        PlayerCommand::Seek(offset) => CommandAction::SeekTo(
            clamp_spec(ctx.position_us + offset, 0, ctx.duration_us as int) as i64,
        ),
        PlayerCommand::SetPosition(pos) => CommandAction::SeekTo(
            clamp_spec(pos as int, 0, ctx.duration_us as int) as i64,
        ),
    }
}

fn clamp_i64(v: i64, lo: i64, hi: i64) -> (r: i64)
    requires
        lo <= hi,
    ensures
        r == clamp_spec(v as int, lo as int, hi as int),
{
    if v < lo {
        lo
    } else if v > hi {
        hi
    } else {
        v
    }
}

/// Decides what the playback loop does for a command.
pub fn decide_command(cmd: PlayerCommand, ctx: &PlaybackContext) -> (r: CommandAction)
    requires
        command_ok(cmd, *ctx),
    ensures
        r == command_action_spec(cmd, *ctx),
        cmd == PlayerCommand::Stop ==> r == CommandAction::Stop,
{
    match cmd {
        PlayerCommand::PlayPause => if ctx.paused {
            CommandAction::Resume
        } else {
            CommandAction::Pause
        },
        PlayerCommand::Play => if ctx.paused {
            CommandAction::Resume
        } else {
            CommandAction::Keep
        },
        PlayerCommand::Pause => if ctx.paused {
            CommandAction::Keep
        } else {
            CommandAction::Pause
        },
        PlayerCommand::Next => CommandAction::Skip,
        PlayerCommand::Stop => CommandAction::Stop,
        PlayerCommand::Seek(offset) => CommandAction::SeekTo(
            clamp_i64(ctx.position_us + offset, 0, ctx.duration_us),
        ),
        PlayerCommand::SetPosition(pos) => CommandAction::SeekTo(clamp_i64(pos, 0, ctx.duration_us)),
    }
}

impl CommandAction {
    /// The playback status that the action announces.
    pub open spec fn announced_spec(self) -> Option<PlaybackStatus> {
        match self {
            CommandAction::Resume => Some(PlaybackStatus::Playing),
            CommandAction::Pause => Some(PlaybackStatus::Paused),
            CommandAction::Stop => Some(PlaybackStatus::Stopped),
            _ => None,
        }
    }

    /// The playback status that the action announces.
    pub fn announced_status(&self) -> (r: Option<PlaybackStatus>)
        ensures
            r == self.announced_spec(),
    {
        match self {
            CommandAction::Resume => Some(PlaybackStatus::Playing),
            CommandAction::Pause => Some(PlaybackStatus::Paused),
            CommandAction::Stop => Some(PlaybackStatus::Stopped),
            _ => None,
        }
    }
}

/// The report that ends the playing track, if it ends: a skip wins over the
/// output running dry.
pub open spec fn poll_spec(skip_requested: bool, output_empty: bool) -> Option<FeedbackEvent> {
    if skip_requested {
        Some(FeedbackEvent::Skip)
    } else if output_empty {
        Some(FeedbackEvent::TrackFinished)
    } else {
        None
    }
}

/// Looks at the output while a track plays and tells whether the track has
/// ended, and with which report.
pub fn poll_playback(skip_requested: bool, output_empty: bool) -> (r: Option<FeedbackEvent>)
    ensures
        r == poll_spec(skip_requested, output_empty),
{
    if skip_requested {
        Some(FeedbackEvent::Skip)
    } else if output_empty {
        Some(FeedbackEvent::TrackFinished)
    } else {
        None
    }
}

/// Where the playback of one track of the wave stands.
#[derive(Clone, Copy, Debug, PartialEq, Eq, Structural)]
pub enum TrackPhase {
    /// Asking for the stream address.
    Resolving,
    /// Downloading and decoding the audio.
    Loading,
    /// The audio plays.
    Playing,
    /// The loop has moved on to the next track.
    Done,
}

/// What happened while a track is played.
#[derive(Clone, Copy, Debug, PartialEq, Eq, Structural)]
pub enum TrackEvent {
    /// The stream address came back, or did not.
    StreamResolved(bool),
    /// The audio was downloaded and decoded, or was not.
    AudioLoaded(bool),
    /// A look at the output while the track plays.
    Tick { skip_requested: bool, output_empty: bool },
}

/// What the playback loop does next for a track.
#[derive(Clone, Copy, Debug, PartialEq, Eq, Structural)]
pub enum TrackAction {
    /// Go on to the next track without any report.
    Abandon,
    /// Report `trackStarted`, then download and decode the audio.
    ReportStartAndLoad,
    /// Clear the skip mark, queue the audio and play it.
    Play,
    /// Wait for the next look at the output.
    KeepPlaying,
    /// Send this report, then go on to the next track.
    ReportAndNext(FeedbackEvent),
    /// The event does not fit the phase: nothing to do.
    Ignore,
}

/// The next phase and the action for an event.
pub open spec fn track_step_spec(phase: TrackPhase, event: TrackEvent) -> (TrackPhase, TrackAction) {
    match (phase, event) {
        (TrackPhase::Resolving, TrackEvent::StreamResolved(ok)) => if ok {
            (TrackPhase::Loading, TrackAction::ReportStartAndLoad)
        } else {
            (TrackPhase::Done, TrackAction::Abandon)
        },
        (TrackPhase::Loading, TrackEvent::AudioLoaded(ok)) => if ok {
            (TrackPhase::Playing, TrackAction::Play)
        } else {
            (TrackPhase::Done, TrackAction::Abandon)
        },
        (TrackPhase::Playing, TrackEvent::Tick { skip_requested, output_empty }) => match poll_spec(
            skip_requested,
            output_empty,
        ) {
            Some(ev) => (TrackPhase::Done, TrackAction::ReportAndNext(ev)),
            None => (TrackPhase::Playing, TrackAction::KeepPlaying),
        },
        _ => (phase, TrackAction::Ignore),
    }
}

/// The playback of one track of the wave.
#[derive(Clone, Copy, Debug, PartialEq, Eq, Structural)]
pub struct TrackSession {
    pub phase: TrackPhase,
}

impl TrackSession {
    /// The playback of a track that is about to be asked for.
    pub fn new() -> (r: TrackSession)
        ensures
            r.phase == TrackPhase::Resolving,
    {
        TrackSession { phase: TrackPhase::Resolving }
    }

    /// Takes an event and says what to do next.
    pub fn step(&mut self, event: TrackEvent) -> (r: TrackAction)
        ensures
            (final(self).phase, r) == track_step_spec(old(self).phase, event),
    {
        match (self.phase, event) {
            (TrackPhase::Resolving, TrackEvent::StreamResolved(ok)) => {
                if ok {
                    self.phase = TrackPhase::Loading;
                    TrackAction::ReportStartAndLoad
                } else {
                    self.phase = TrackPhase::Done;
                    TrackAction::Abandon
                }
            },
            (TrackPhase::Loading, TrackEvent::AudioLoaded(ok)) => {
                if ok {
                    self.phase = TrackPhase::Playing;
                    TrackAction::Play
                } else {
                    self.phase = TrackPhase::Done;
                    TrackAction::Abandon
                }
            },
            (TrackPhase::Playing, TrackEvent::Tick { skip_requested, output_empty }) => {
                match poll_playback(skip_requested, output_empty) {
                    Some(ev) => {
                        self.phase = TrackPhase::Done;
                        TrackAction::ReportAndNext(ev)
                    },
                    None => TrackAction::KeepPlaying,
                }
            },
            _ => TrackAction::Ignore,
        }
    }
}

/// The reports that an action sends.
pub open spec fn reports_of(action: TrackAction) -> Seq<FeedbackEvent> {
    match action {
        TrackAction::ReportStartAndLoad => seq![FeedbackEvent::TrackStarted],
        TrackAction::ReportAndNext(ev) => seq![ev],
        _ => Seq::empty(),
    }
}

/// The reports sent for a series of events, from the given phase on.
pub open spec fn session_reports(phase: TrackPhase, events: Seq<TrackEvent>) -> Seq<FeedbackEvent>
    decreases events.len(),
{
    if events.len() == 0 {
        Seq::empty()
    } else {
        let (next, action) = track_step_spec(phase, events[0]);
        reports_of(action) + session_reports(next, events.drop_first())
    }
}

/// A report that ends a track.
pub open spec fn ending_report(ev: FeedbackEvent) -> bool {
    ev == FeedbackEvent::Skip || ev == FeedbackEvent::TrackFinished
}

/// The reports from a phase after the start was reported: none, or one
/// ending report (none at all once the track is done).
pub open spec fn tail_reports_ok(phase: TrackPhase, rs: Seq<FeedbackEvent>) -> bool {
    ||| rs.len() == 0
    ||| (rs.len() == 1 && ending_report(rs[0]) && phase != TrackPhase::Done)
}

proof fn lemma_tail_reports(phase: TrackPhase, events: Seq<TrackEvent>)
    requires
        phase != TrackPhase::Resolving,
    ensures
        tail_reports_ok(phase, session_reports(phase, events)),
    decreases events.len(),
{
    if events.len() > 0 {
        let (next, action) = track_step_spec(phase, events[0]);
        lemma_tail_reports(next, events.drop_first());
        if action is ReportAndNext {
            lemma_done_silent(events.drop_first());
        }
    }
}

proof fn lemma_done_silent(events: Seq<TrackEvent>)
    ensures
        session_reports(TrackPhase::Done, events).len() == 0,
    decreases events.len(),
{
    if events.len() > 0 {
        lemma_done_silent(events.drop_first());
    }
}

/// Whatever happens while a track is played, the station gets either no
/// report, or `trackStarted` alone, or `trackStarted` and then exactly one
/// of `skip` and `trackFinished`.
pub proof fn law_feedback_sequence(events: Seq<TrackEvent>)
    ensures
        ({
            let rs = session_reports(TrackPhase::Resolving, events);
            ||| rs.len() == 0
            ||| rs == seq![FeedbackEvent::TrackStarted]
            ||| (rs.len() == 2 && rs[0] == FeedbackEvent::TrackStarted && ending_report(rs[1]))
        }),
    decreases events.len(),
{
    if events.len() > 0 {
        let (next, action) = track_step_spec(TrackPhase::Resolving, events[0]);
        if next == TrackPhase::Resolving {
            law_feedback_sequence(events.drop_first());
        } else if next == TrackPhase::Loading {
            lemma_tail_reports(next, events.drop_first());
        } else {
            lemma_done_silent(events.drop_first());
        }
        assert(session_reports(TrackPhase::Resolving, events) =~= reports_of(action)
            + session_reports(next, events.drop_first()));
    }
}

/// A jump, relative or absolute, never leaves the track: its target lies
/// between the start and the length of the track.
pub proof fn law_seek_within_track(cmd: PlayerCommand, ctx: PlaybackContext)
    requires
        command_ok(cmd, ctx),
        cmd is Seek || cmd is SetPosition,
    ensures
        command_action_spec(cmd, ctx) matches CommandAction::SeekTo(t) && 0 <= t <= ctx.duration_us,
{
}

/// A jump to a position inside the track goes exactly there, and a
/// relative jump that stays inside the track moves by exactly the offset.
pub proof fn law_seek_exact(ctx: PlaybackContext, pos: i64, offset: i64)
    requires
        ctx.duration_us >= 0,
    ensures
        0 <= pos <= ctx.duration_us ==> command_action_spec(PlayerCommand::SetPosition(pos), ctx)
            == CommandAction::SeekTo(pos),
        0 <= ctx.position_us + offset <= ctx.duration_us ==> command_action_spec(
            PlayerCommand::Seek(offset),
            ctx,
        ) == CommandAction::SeekTo((ctx.position_us + offset) as i64),
{
}

/// Whether the output is paused after an action.
pub open spec fn paused_after(paused: bool, action: CommandAction) -> bool {
    match action {
        CommandAction::Resume => false,
        CommandAction::Pause => true,
        _ => paused,
    }
}

/// Play-pause flips the output between playing and paused, announces the
/// new state, and pressing it twice brings the output back.
pub proof fn law_play_pause_toggles(ctx: PlaybackContext)
    ensures
        ({
            let a1 = command_action_spec(PlayerCommand::PlayPause, ctx);
            let p1 = paused_after(ctx.paused, a1);
            let a2 = command_action_spec(
                PlayerCommand::PlayPause,
                PlaybackContext { paused: p1, ..ctx },
            );
            &&& p1 == !ctx.paused
            &&& a1.announced_spec() == Some(
                if p1 {
                    PlaybackStatus::Paused
                } else {
                    PlaybackStatus::Playing
                },
            )
            &&& paused_after(p1, a2) == ctx.paused
        }),
{
}

/// "Next" marks the playing track as skipped, and the next look at the
/// output ends it with a `skip` report, whether or not the output has run dry.
pub proof fn law_next_reports_skip(ctx: PlaybackContext, output_empty: bool)
    ensures
        command_action_spec(PlayerCommand::Next, ctx) == CommandAction::Skip,
        track_step_spec(
            TrackPhase::Playing,
            TrackEvent::Tick { skip_requested: true, output_empty },
        ) == (TrackPhase::Done, TrackAction::ReportAndNext(FeedbackEvent::Skip)),
{
}

/// Play leaves the output playing and Pause leaves it paused, whatever
/// state it was in; asking for the state the output is already in does
/// nothing and announces nothing.
pub proof fn law_play_and_pause_set_state(ctx: PlaybackContext)
    ensures
        paused_after(ctx.paused, command_action_spec(PlayerCommand::Play, ctx)) == false,
        paused_after(ctx.paused, command_action_spec(PlayerCommand::Pause, ctx)) == true,
        !ctx.paused ==> command_action_spec(PlayerCommand::Play, ctx) == CommandAction::Keep,
        ctx.paused ==> command_action_spec(PlayerCommand::Pause, ctx) == CommandAction::Keep,
        CommandAction::Keep.announced_spec() is None,
{
}

/// Stop stops the output and announces `Stopped` in every context,
/// paused or playing, at any position.
pub proof fn law_stop_always_stops(ctx: PlaybackContext)
    ensures
        command_action_spec(PlayerCommand::Stop, ctx) == CommandAction::Stop,
        command_action_spec(PlayerCommand::Stop, ctx).announced_spec() == Some(
            PlaybackStatus::Stopped,
        ),
{
}

/// A track that names artists is shown with the name of its first artist;
/// the stand-in is shown only for a track that names none.
pub proof fn law_shown_artist(track: Track)
    ensures
        track.artists@.len() > 0 ==> artist_name_spec(track) == track.artists@[0].name@,
        track.artists@.len() == 0 ==> artist_name_spec(track) == UNKNOWN_ARTIST@,
{
}

/// A skip request always ends the playing track with `skip`; without one,
/// the track ends with `trackFinished` exactly when the output has run dry.
pub proof fn law_poll_ends_track(skip_requested: bool, output_empty: bool)
    ensures
        skip_requested ==> poll_spec(skip_requested, output_empty) == Some(FeedbackEvent::Skip),
        !skip_requested ==> (poll_spec(skip_requested, output_empty) == Some(
            FeedbackEvent::TrackFinished,
        ) <==> output_empty),
        !skip_requested && !output_empty ==> poll_spec(skip_requested, output_empty) is None,
{
}

/// A resolved stream reports the start and loads the audio, and loaded
/// audio is played; a failure at either step moves on without a report.
pub proof fn law_track_progress(ok: bool)
    ensures
        track_step_spec(TrackPhase::Resolving, TrackEvent::StreamResolved(ok)) == if ok {
            (TrackPhase::Loading, TrackAction::ReportStartAndLoad)
        } else {
            (TrackPhase::Done, TrackAction::Abandon)
        },
        track_step_spec(TrackPhase::Loading, TrackEvent::AudioLoaded(ok)) == if ok {
            (TrackPhase::Playing, TrackAction::Play)
        } else {
            (TrackPhase::Done, TrackAction::Abandon)
        },
{
}

/// A known length in milliseconds is shown as a thousand times as many
/// microseconds, and an unknown one as zero.
pub proof fn law_duration_scale(duration_ms: Option<i64>)
    ensures
        duration_ms matches Some(ms) ==> duration_us_spec(duration_ms) == ms * 1000,
        duration_ms is None ==> duration_us_spec(duration_ms) == 0,
{
}

/// A cover address always starts with `https://`, and a track without a
/// cover shows none.
pub proof fn law_cover_address(cover_uri: Option<Seq<char>>)
    ensures
        cover_uri is Some ==> cover_url_spec(cover_uri).take(8) == "https://"@,
        cover_uri is None ==> cover_url_spec(cover_uri).len() == 0,
{
    reveal_strlit("https://");
    if let Some(u) = cover_uri {
        let r = replace_spec(u, COVER_SIZE_MARK@, COVER_SIZE@);
        assert(("https://"@ + r).take(8) =~= "https://"@);
    }
}

} // verus!
