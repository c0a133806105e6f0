//! What the player publishes over MPRIS v2: the root object's properties,
//! the playback status, the player's capabilities and the metadata of the
//! current track.
use vstd::prelude::*;
use vstd::string::*;

use crate::text::{ascii_alphanumeric, char_is_alphanumeric, push_char, unicode_alphanumeric};

verus! {

/// The object path that MPRIS reserves for "no track".
pub const NO_TRACK_PATH: &'static str = "/org/mpris/MediaPlayer2/TrackList/NoTrack";

/// The prefix of the object path of a track.
pub const TRACK_PATH_PREFIX: &'static str = "/org/ymz/Track/";

/// The name under which the player identifies itself.
pub const PLAYER_IDENTITY: &'static str = "Yandex Music Zero";

/// The one MIME type that the player plays.
pub const MIME_MPEG: &'static str = "audio/mpeg";

/// A command that the MPRIS interface hands to the playback loop.
#[derive(Clone, Copy, Debug, PartialEq, Eq, Structural)]
pub enum PlayerCommand {
    PlayPause,
    /// Start or resume playback; nothing happens while it plays.
    Play,
    /// Pause playback; nothing happens while it is paused.
    Pause,
    Next,
    Stop,
    /// Move the position by this many microseconds (negative: backwards).
    Seek(i64),
    /// Move to this position, in microseconds.
    SetPosition(i64),
}

/// The MPRIS playback status.
#[derive(Clone, Copy, Debug, PartialEq, Eq, Structural)]
pub enum PlaybackStatus {
    Playing,
    Paused,
    Stopped,
}

impl PlaybackStatus {
    /// The name of the status in the MPRIS interface.
    pub open spec fn name_spec(self) -> Seq<char> {
        match self {
            PlaybackStatus::Playing => "Playing"@,
            PlaybackStatus::Paused => "Paused"@,
            PlaybackStatus::Stopped => "Stopped"@,
        }
    }

    /// The name of the status in the MPRIS interface.
    pub fn as_str(&self) -> (r: &'static str)
        ensures
            r@ == self.name_spec(),
    {
        match self {
            PlaybackStatus::Playing => "Playing",
            PlaybackStatus::Paused => "Paused",
            PlaybackStatus::Stopped => "Stopped",
        }
    }
}

/// The playback status that the player reports: paused output is
/// `Paused`, an output with nothing queued is `Stopped`, else `Playing`.
pub open spec fn playback_status_spec(is_paused: bool, is_empty: bool) -> PlaybackStatus {
    if is_paused {
        PlaybackStatus::Paused
    } else if is_empty {
        PlaybackStatus::Stopped
    } else {
        PlaybackStatus::Playing
    }
}

/// The playback status of an output that is paused or not and has sound
/// queued or not.
pub fn playback_status(is_paused: bool, is_empty: bool) -> (r: PlaybackStatus)
    ensures
        r == playback_status_spec(is_paused, is_empty),
{
    if is_paused {
        PlaybackStatus::Paused
    } else if is_empty {
        PlaybackStatus::Stopped
    } else {
        PlaybackStatus::Playing
    }
}

/// The root object of the MPRIS interface.
pub struct MprisRoot;

impl MprisRoot {
    /// The player can be asked to quit.
    pub fn can_quit(&self) -> (r: bool)
        ensures
            r,
    {
        true
    }

    /// The player has no window to raise.
    pub fn can_raise(&self) -> (r: bool)
        ensures
            !r,
    {
        false
    }

    /// The player keeps no track list.
    pub fn has_track_list(&self) -> (r: bool)
        ensures
            !r,
    {
        false
    }

    /// The name the player shows.
    pub fn identity(&self) -> (r: &'static str)
        ensures
            r@ == PLAYER_IDENTITY@,
    {
        PLAYER_IDENTITY
    }

    /// The player opens no URIs.
    pub fn supported_uri_schemes(&self) -> (r: Vec<String>)
        ensures
            r@.len() == 0,
    {
        Vec::new()
    }

    /// The player plays MPEG audio only.
    pub fn supported_mime_types(&self) -> (r: Vec<String>)
        ensures
            r@.len() == 1,
            r@[0]@ == MIME_MPEG@,
    {
        let mut v: Vec<String> = Vec::new();
        v.push(MIME_MPEG.to_string());
        v
    }
}

/// The capabilities that the player object announces.
#[derive(Clone, Copy, Debug, PartialEq, Eq, Structural)]
pub struct PlayerCapabilities {
    pub can_go_next: bool,
    pub can_go_previous: bool,
    pub can_play: bool,
    pub can_pause: bool,
    pub can_seek: bool,
    pub can_control: bool,
}

/// The player can skip forward, play, pause, seek and be controlled, but
/// not go back.
pub fn player_capabilities() -> (r: PlayerCapabilities)
    ensures
        r == (PlayerCapabilities {
            can_go_next: true,
            can_go_previous: false,
            can_play: true,
            can_pause: true,
            can_seek: true,
            can_control: true,
        }),
{
    PlayerCapabilities {
        can_go_next: true,
        can_go_previous: false,
        can_play: true,
        can_pause: true,
        can_seek: true,
        can_control: true,
    }
}

/// A character that may be part of a D-Bus object path.
pub open spec fn object_path_char(c: char) -> bool {
    ('a' <= c && c <= 'z') || ('A' <= c && c <= 'Z') || ('0' <= c && c <= '9') || c == '_'
        || c == '/'
}

/// A D-Bus object path: it starts with `/`, holds only ASCII letters,
/// digits, `_` and `/`, has no `//`, and ends with `/` only when it is `/`.
pub open spec fn object_path_ok(s: Seq<char>) -> bool {
    &&& s.len() >= 1
    &&& s[0] == '/'
    &&& forall|i: int| 0 <= i < s.len() ==> object_path_char(#[trigger] s[i])
    &&& forall|i: int| 1 <= i < s.len() ==> !(#[trigger] s[i] == '/' && s[i - 1] == '/')
    &&& s.len() > 1 ==> s.last() != '/'
}

/// Calls `zvariant::ObjectPath::try_from` on `path` and tells whether it
/// accepted it. Its check runs over the UTF-8 bytes; as every byte of a
/// non-ASCII character is rejected, it is the same check over the
/// characters, stated by `object_path_ok`.
#[verifier::external_body]
fn object_path_accepts(path: &str) -> (r: bool)
    ensures
        r == object_path_ok(path@),
{
    zbus::zvariant::ObjectPath::try_from(path).is_ok()
}

/// A character that stays in the last element of a track's object path.
pub open spec fn id_char_kept(c: char) -> bool {
    unicode_alphanumeric(c) || c == '_'
}

/// The characters of a track id that stay in its object path, in order.
pub open spec fn sanitized_id_spec(s: Seq<char>) -> Seq<char>
    decreases s.len(),
{
    if s.len() == 0 {
        s
    } else {
        let front = sanitized_id_spec(s.drop_last());
        if id_char_kept(s.last()) {
            front.push(s.last())
        } else {
            front
        }
    }
}

/// The object path that the player publishes for the track with id `id`:
/// the prefix and the kept characters of the id, or the "no track" path
/// when nothing of the id is kept or the result is no valid object path.
pub open spec fn track_path_spec(id: Seq<char>) -> Seq<char> {
    let kept = sanitized_id_spec(id);
    let candidate = if kept.len() == 0 {
        NO_TRACK_PATH@
    } else {
        TRACK_PATH_PREFIX@ + kept
    };
    if object_path_ok(candidate) {
        candidate
    } else {
        NO_TRACK_PATH@
    }
}

/// A track id of ASCII letters, digits and `_` only, not empty.
pub open spec fn plain_track_id(id: Seq<char>) -> bool {
    id.len() > 0 && forall|i: int| 0 <= i < id.len() ==> ascii_alphanumeric(#[trigger] id[i]) || id[i]
        == '_'
}

/// Keeps the Unicode letters and digits and `_` of a track id; a plain id
/// stays as it is.
pub fn sanitize_track_id(id: &str) -> (r: String)
    ensures
        r@ == sanitized_id_spec(id@),
        plain_track_id(id@) ==> r@ == id@,
{
    let n = id.unicode_len();
    let mut out = String::new();
    let mut i: usize = 0;
    assert(id@.take(0) =~= Seq::<char>::empty());
    while i < n
        invariant
            n == id@.len(),
            i <= n,
            out@ == sanitized_id_spec(id@.take(i as int)),
            plain_track_id(id@) ==> out@ == id@.take(i as int),
        decreases n - i,
    {
        let c = id.get_char(i);
        assert(plain_track_id(id@) ==> (c as u32) < 128) by {
            if plain_track_id(id@) {
                assert(ascii_alphanumeric(id@[i as int]) || id@[i as int] == '_');
            }
        }
        assert(id@.take(i + 1).drop_last() =~= id@.take(i as int));
        if char_is_alphanumeric(c) || c == '_' {
            push_char(&mut out, c);
        }
        i = i + 1;
    }
    assert(id@.take(n as int) =~= id@);
    out
}

proof fn lemma_plain_track_path_ok(id: Seq<char>)
    requires
        plain_track_id(id),
    ensures
        object_path_ok(TRACK_PATH_PREFIX@ + id),
{
    reveal_strlit("/org/ymz/Track/");
    let p = TRACK_PATH_PREFIX@;
    let s = p + id;
    assert(p.len() == 15);
    assert forall|i: int| 0 <= i < s.len() implies object_path_char(#[trigger] s[i]) by {
        reveal_strlit("/org/ymz/Track/");
        if i >= 15 {
            assert(s[i] == id[i - 15]);
        }
    }
    assert forall|i: int| 1 <= i < s.len() implies !(#[trigger] s[i] == '/' && s[i - 1] == '/') by {
        reveal_strlit("/org/ymz/Track/");
        if i >= 15 {
            assert(s[i] == id[i - 15]);
        }
    }
    assert(s.last() == id[id.len() - 1]);
}

/// The object path of the track with id `track_id`; a plain id gets the
/// track prefix followed by the id itself.
pub fn track_object_path(track_id: &str) -> (r: String)
    ensures
        r@ == track_path_spec(track_id@),
        plain_track_id(track_id@) ==> r@ == TRACK_PATH_PREFIX@ + track_id@,
{
    proof {
        if plain_track_id(track_id@) {
            lemma_plain_track_path_ok(track_id@);
        }
    }
    let kept = sanitize_track_id(track_id);
    let candidate = if kept.unicode_len() == 0 {
        NO_TRACK_PATH.to_string()
    } else {
        TRACK_PATH_PREFIX.to_string().concat(kept.as_str())
    };
    if object_path_accepts(candidate.as_str()) {
        candidate
    } else {
        NO_TRACK_PATH.to_string()
    }
}

/// The path that stands for "no track" is a valid object path.
pub proof fn lemma_no_track_path_ok()
    ensures
        object_path_ok(NO_TRACK_PATH@),
{
    reveal_strlit("/org/mpris/MediaPlayer2/TrackList/NoTrack");
    let s = NO_TRACK_PATH@;
    assert(s.len() == 41);
    assert forall|i: int| 0 <= i < s.len() implies object_path_char(#[trigger] s[i]) by {
        reveal_strlit("/org/mpris/MediaPlayer2/TrackList/NoTrack");
    }
}

/// Every track id is published under a valid object path.
pub proof fn law_track_path_valid(id: Seq<char>)
    ensures
        object_path_ok(track_path_spec(id)),
{
    lemma_no_track_path_ok();
}

/// A value of the metadata map, in the D-Bus types that MPRIS asks for.
#[derive(Clone, Debug)]
pub enum MetadataValue {
    ObjectPath(String),
    Text(String),
    TextList(Vec<String>),
    Int64(i64),
}

/// The mathematical form of a `MetadataValue`.
pub enum MetadataValueView {
    ObjectPath(Seq<char>),
    Text(Seq<char>),
    TextList(Seq<Seq<char>>),
    Int64(i64),
}

impl View for MetadataValue {
    type V = MetadataValueView;

    open spec fn view(&self) -> MetadataValueView {
        match self {
            MetadataValue::ObjectPath(p) => MetadataValueView::ObjectPath(p@),
            MetadataValue::Text(t) => MetadataValueView::Text(t@),
            MetadataValue::TextList(l) => MetadataValueView::TextList(
                l@.map_values(|x: String| x@),
            ),
            MetadataValue::Int64(n) => MetadataValueView::Int64(*n),
        }
    }
}

/// One entry of the metadata map.
#[derive(Clone, Debug)]
pub struct MetadataEntry {
    pub key: String,
    pub value: MetadataValue,
}

impl View for MetadataEntry {
    type V = (Seq<char>, MetadataValueView);

    open spec fn view(&self) -> (Seq<char>, MetadataValueView) {
        (self.key@, self.value@)
    }
}

/// The metadata of the current track: its object path, title, artist
/// list, length, and its cover address when there is one.
pub open spec fn metadata_spec(
    title: Seq<char>,
    artist: Seq<char>,
    art_url: Seq<char>,
    track_id: Seq<char>,
    duration_us: i64,
) -> Seq<(Seq<char>, MetadataValueView)> {
    seq![
        ("mpris:trackid"@, MetadataValueView::ObjectPath(track_path_spec(track_id))),
        ("xesam:title"@, MetadataValueView::Text(title)),
        ("xesam:artist"@, MetadataValueView::TextList(seq![artist])),
        ("mpris:length"@, MetadataValueView::Int64(duration_us)),
    ] + if art_url.len() > 0 {
        seq![("mpris:artUrl"@, MetadataValueView::Text(art_url))]
    } else {
        Seq::<(Seq<char>, MetadataValueView)>::empty()
    }
}

/// The views of a list of metadata entries.
pub open spec fn entries_view(v: Seq<MetadataEntry>) -> Seq<(Seq<char>, MetadataValueView)> {
    v.map_values(|e: MetadataEntry| e@)
}

fn entry(key: &str, value: MetadataValue) -> (r: MetadataEntry)
    ensures
        r@ == (key@, value@),
{
    MetadataEntry { key: key.to_string(), value }
}

/// The MPRIS metadata of a track.
pub fn build_metadata_map(
    title: &str,
    artist: &str,
    art_url: &str,
    track_id: &str,
    duration_us: i64,
) -> (r: Vec<MetadataEntry>)
    ensures
        entries_view(r@) == metadata_spec(title@, artist@, art_url@, track_id@, duration_us),
{
    let mut m: Vec<MetadataEntry> = Vec::new();
    let path = track_object_path(track_id);
    m.push(entry("mpris:trackid", MetadataValue::ObjectPath(path)));
    m.push(entry("xesam:title", MetadataValue::Text(title.to_string())));
    let mut artists: Vec<String> = Vec::new();
    artists.push(artist.to_string());
    proof {
        assert(artists@.map_values(|x: String| x@) =~= seq![artist@]);
    }
    m.push(entry("xesam:artist", MetadataValue::TextList(artists)));
    m.push(entry("mpris:length", MetadataValue::Int64(duration_us)));
    if art_url.unicode_len() > 0 {
        m.push(entry("mpris:artUrl", MetadataValue::Text(art_url.to_string())));
    }
    assert(entries_view(m@) =~= metadata_spec(
        title@,
        artist@,
        art_url@,
        track_id@,
        duration_us,
    ));
    m
}

/// The metadata map holds each key once, always holds the track path,
/// title, artist list and length, and holds the cover address exactly when
/// the track has one.
pub proof fn law_metadata_keys(
    title: Seq<char>,
    artist: Seq<char>,
    art_url: Seq<char>,
    track_id: Seq<char>,
    duration_us: i64,
)
    ensures
        ({
            let m = metadata_spec(title, artist, art_url, track_id, duration_us);
            &&& forall|i: int, j: int| 0 <= i < j < m.len() ==> m[i].0 != m[j].0
            &&& m.len() == (if art_url.len() > 0 { 5int } else { 4int })
            &&& m[0] == ("mpris:trackid"@, MetadataValueView::ObjectPath(track_path_spec(track_id)))
            &&& object_path_ok(track_path_spec(track_id))
        }),
{
    reveal_strlit("mpris:trackid");
    reveal_strlit("xesam:title");
    reveal_strlit("xesam:artist");
    reveal_strlit("mpris:length");
    reveal_strlit("mpris:artUrl");
    law_track_path_valid(track_id);
    let m = metadata_spec(title, artist, art_url, track_id, duration_us);
    assert forall|i: int, j: int| 0 <= i < j < m.len() implies m[i].0 != m[j].0 by {
        assert(m[i].0.len() != m[j].0.len() || m[i].0[0] != m[j].0[0] || m[i].0[6] != m[j].0[6]);
    }
}

/// Keeping the kept characters of a track id again changes nothing.
pub proof fn law_sanitize_idempotent(s: Seq<char>)
    ensures
        sanitized_id_spec(sanitized_id_spec(s)) == sanitized_id_spec(s),
    decreases s.len(),
{
    if s.len() > 0 {
        law_sanitize_idempotent(s.drop_last());
        let f = sanitized_id_spec(s.drop_last());
        if id_char_kept(s.last()) {
            assert(f.push(s.last()).drop_last() =~= f);
        }
    }
}

/// The characters of a track id other than letters, digits and `_` never
/// affect its object path or the metadata: the sanitized id gives the same.
pub proof fn law_metadata_ignores_dropped_chars(
    title: Seq<char>,
    artist: Seq<char>,
    art_url: Seq<char>,
    track_id: Seq<char>,
    duration_us: i64,
)
    ensures
        track_path_spec(sanitized_id_spec(track_id)) == track_path_spec(track_id),
        metadata_spec(title, artist, art_url, sanitized_id_spec(track_id), duration_us)
            == metadata_spec(title, artist, art_url, track_id, duration_us),
{
    law_sanitize_idempotent(track_id);
}

/// The metadata always holds the track path, the title, the artist and the
/// given length in microseconds, with or without a cover address.
pub proof fn law_metadata_fields(
    title: Seq<char>,
    artist: Seq<char>,
    art_url: Seq<char>,
    track_id: Seq<char>,
    duration_us: i64,
)
    ensures
        ({
            let m = metadata_spec(title, artist, art_url, track_id, duration_us);
            &&& m.len() >= 4
            &&& m[1] == ("xesam:title"@, MetadataValueView::Text(title))
            &&& m[2] == ("xesam:artist"@, MetadataValueView::TextList(seq![artist]))
            &&& m[3] == ("mpris:length"@, MetadataValueView::Int64(duration_us))
            &&& art_url.len() > 0 ==> m[4] == ("mpris:artUrl"@, MetadataValueView::Text(art_url))
        }),
{
}

/// A paused output reports `Paused`; an output that is not paused reports
/// `Stopped` when it has nothing queued and `Playing` otherwise.
pub proof fn law_playback_status(is_paused: bool, is_empty: bool)
    ensures
        is_paused ==> playback_status_spec(is_paused, is_empty) == PlaybackStatus::Paused,
        !is_paused && is_empty ==> playback_status_spec(is_paused, is_empty)
            == PlaybackStatus::Stopped,
        !is_paused && !is_empty ==> playback_status_spec(is_paused, is_empty)
            == PlaybackStatus::Playing,
{
}

} // verus!
