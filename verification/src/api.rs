//! The web API of Yandex Music as the player uses it: the data it reads,
//! the addresses it asks, the authorization header, the choice of the MP3
//! stream and the body of a feedback report.
use vstd::prelude::*;
use vstd::string::*;
use vstd::utf8::encode_utf8;

use crate::stream::StreamUrlError;
use crate::text::str_equal;

verus! {

/// The address of the API.
pub const BASE_URL: &'static str = "https://api.music.yandex.net";

/// The path of the tracks of the "My Wave" station.
pub const WAVE_TRACKS_PATH: &'static str = "/rotor/station/user:onyourwave/tracks";

/// The path of the feedback of the "My Wave" station.
pub const WAVE_FEEDBACK_PATH: &'static str = "/rotor/station/user:onyourwave/feedback";

/// The scheme of the authorization header, followed by one space.
pub const AUTH_SCHEME: &'static str = "OAuth ";

/// The message when the token cannot stand in an HTTP header.
pub const INVALID_TOKEN_MESSAGE: &'static str = "Некорректный токен";

/// The client name that the API expects in the `X-Yandex-Music-Client` header.
pub const CLIENT_NAME: &'static str = "YandexMusicAndroid/24022371";

/// How long a request may take, in seconds.
pub const REQUEST_TIMEOUT_SECS: u64 = 10;

/// The codec of the stream that the player plays.
pub const MP3_CODEC: &'static str = "mp3";

/// A performer of a track.
#[derive(Clone, Debug)]
pub struct Artist {
    pub name: String,
}

/// A track of the station.
#[derive(Clone, Debug)]
pub struct Track {
    pub id: String,
    pub title: String,
    pub artists: Vec<Artist>,
    /// The address of the cover, without scheme, with `%%` where the size goes.
    pub cover_uri: Option<String>,
    /// The length of the track in milliseconds.
    pub duration_ms: Option<i64>,
}

/// One entry of the sequence of the station.
#[derive(Clone, Debug)]
pub struct TrackEntry {
    pub track: Track,
}

/// The answer of the station: the next tracks and the batch that feedback
/// refers to.
#[derive(Clone, Debug)]
pub struct StationResult {
    pub sequence: Vec<TrackEntry>,
    pub batch_id: String,
}

/// A way to download a track: its codec and where to ask for the stream.
#[derive(Clone, Debug)]
pub struct DownloadInfo {
    pub codec: String,
    pub download_info_url: String,
}

impl View for DownloadInfo {
    type V = (Seq<char>, Seq<char>);

    open spec fn view(&self) -> (Seq<char>, Seq<char>) {
        (self.codec@, self.download_info_url@)
    }
}

/// Whether an HTTP status code is in the success class (200 to 299).
pub fn is_success_status(code: u16) -> (r: bool)
    ensures
        r == (200 <= code && code < 300),
{
    200 <= code && code < 300
}

/// The address of the tracks of the wave.
pub fn wave_tracks_url() -> (r: String)
    ensures
        r@ == BASE_URL@ + WAVE_TRACKS_PATH@,
{
    BASE_URL.to_string().concat(WAVE_TRACKS_PATH)
}

/// The address of the feedback of the wave.
pub fn feedback_url() -> (r: String)
    ensures
        r@ == BASE_URL@ + WAVE_FEEDBACK_PATH@,
{
    BASE_URL.to_string().concat(WAVE_FEEDBACK_PATH)
}

/// The address of the download information of a track.
pub open spec fn download_info_url_spec(track_id: Seq<char>) -> Seq<char> {
    BASE_URL@ + "/tracks/"@ + track_id + "/download-info"@
}

/// The address of the download information of a track.
pub fn download_info_url(track_id: &str) -> (r: String)
    ensures
        r@ == download_info_url_spec(track_id@),
{
    BASE_URL.to_string().concat("/tracks/").concat(track_id).concat("/download-info")
}

/// A byte that an HTTP header value may hold: a visible byte, a space, a
/// tab, or any byte from 128 up.
pub open spec fn header_byte_ok(b: u8) -> bool {
    (b >= 32 && b != 127) || b == 9
}

/// A text that an HTTP header value may hold, judged on its UTF-8 bytes.
pub open spec fn header_value_ok(s: Seq<char>) -> bool {
    forall|i: int| 0 <= i < encode_utf8(s).len() ==> header_byte_ok(#[trigger] encode_utf8(s)[i])
}

/// Calls `HeaderValue::from_str` of the `http` crate (which `reqwest`
/// re-exports) and tells whether it accepted `value`: it accepts exactly
/// the texts whose bytes all pass `header_byte_ok`.
#[verifier::external_body]
fn header_value_accepts(value: &str) -> (r: bool)
    ensures
        r == header_value_ok(value@),
{
    reqwest::header::HeaderValue::from_str(value).is_ok()
}

/// The value of the authorization header for `token`.
pub open spec fn auth_value_spec(token: Seq<char>) -> Seq<char> {
    AUTH_SCHEME@ + token
}

/// The value of the authorization header for `token`, where it is a valid
/// header value, and `None` where it is not.
pub fn authorization_value(token: &str) -> (r: Option<String>)
    ensures
        r is Some <==> header_value_ok(auth_value_spec(token@)),
        r matches Some(v) ==> v@ == auth_value_spec(token@),
        r matches Some(v) ==> v@.len() == AUTH_SCHEME@.len() + token@.len() && v@.take(
            AUTH_SCHEME@.len() as int,
        ) == AUTH_SCHEME@ && v@.skip(AUTH_SCHEME@.len() as int) == token@,
{
    let v = AUTH_SCHEME.to_string().concat(token);
    if header_value_accepts(v.as_str()) {
        Some(v)
    } else {
        None
    }
}

/// A text of printable ASCII characters, from space to tilde.
pub open spec fn printable_ascii(s: Seq<char>) -> bool {
    forall|i: int| 0 <= i < s.len() ==> ' ' <= #[trigger] s[i] && s[i] <= '~'
}

/// Every token of printable ASCII characters gives a valid authorization
/// header.
pub proof fn law_printable_token_accepted(token: Seq<char>)
    requires
        printable_ascii(token),
    ensures
        header_value_ok(auth_value_spec(token)),
{
    reveal_strlit("OAuth ");
    let s = auth_value_spec(token);
    assert(printable_ascii(AUTH_SCHEME@));
    assert forall|i: int| 0 <= i < s.len() implies ' ' <= #[trigger] s[i] && s[i] <= '~' by {
        if i < AUTH_SCHEME@.len() {
            assert(s[i] == AUTH_SCHEME@[i]);
        } else {
            assert(s[i] == token[i - AUTH_SCHEME@.len()]);
        }
    }
    assert(vstd::utf8::is_ascii_chars(s));
    vstd::utf8::is_ascii_chars_encode_utf8(s);
    assert forall|i: int| 0 <= i < encode_utf8(s).len() implies header_byte_ok(
        #[trigger] encode_utf8(s)[i],
    ) by {
        let c = s[i];
        assert(c as u8 == encode_utf8(s)[i]);
        assert(' ' <= c && c <= '~');
        assert((c as u32) < 256);
    }
}

/// The index of the first way to download that has the MP3 codec.
pub open spec fn first_mp3(infos: Seq<(Seq<char>, Seq<char>)>) -> Option<int>
    decreases infos.len(),
{
    if infos.len() == 0 {
        None
    } else if infos[0].0 == MP3_CODEC@ {
        Some(0)
    } else {
        match first_mp3(infos.drop_first()) {
            Some(i) => Some(i + 1),
            None => None,
        }
    }
}

/// The views of a list of ways to download.
pub open spec fn infos_view(v: Seq<DownloadInfo>) -> Seq<(Seq<char>, Seq<char>)> {
    v.map_values(|d: DownloadInfo| d@)
}

proof fn lemma_first_mp3_shift(s: Seq<(Seq<char>, Seq<char>)>, i: int)
    requires
        0 <= i < s.len(),
        s[i].0 != MP3_CODEC@,
        forall|k: int| 0 <= k < i ==> s[k].0 != MP3_CODEC@,
    ensures
        first_mp3(s.skip(i + 1)) is None ==> first_mp3(s.skip(i)) is None,
        first_mp3(s.skip(i + 1)) matches Some(j) ==> first_mp3(s.skip(i)) == Some(j + 1),
{
    assert(s.skip(i).drop_first() =~= s.skip(i + 1));
}

/// The chosen way to download is the first one with the MP3 codec: it has
/// that codec, none before it has, and there is none only when no entry has
/// the MP3 codec.
pub proof fn law_first_mp3_is_first(s: Seq<(Seq<char>, Seq<char>)>)
    ensures
        match first_mp3(s) {
            Some(k) => 0 <= k < s.len() && s[k].0 == MP3_CODEC@ && forall|j: int|
                0 <= j < k ==> s[j].0 != MP3_CODEC@,
            None => forall|j: int| 0 <= j < s.len() ==> s[j].0 != MP3_CODEC@,
        },
    decreases s.len(),
{
    if s.len() > 0 {
        law_first_mp3_is_first(s.drop_first());
        let t = s.drop_first();
        assert forall|j: int| 1 <= j < s.len() implies s[j] == t[j - 1] by {}
    }
}

/// The authorization value is the scheme followed by the whole token, for
/// tokens of every length.
pub proof fn law_auth_value_holds_whole_token(token: Seq<char>)
    ensures
        auth_value_spec(token).len() == AUTH_SCHEME@.len() + token.len(),
        auth_value_spec(token).take(AUTH_SCHEME@.len() as int) == AUTH_SCHEME@,
        auth_value_spec(token).skip(AUTH_SCHEME@.len() as int) == token,
{
    assert(auth_value_spec(token).take(AUTH_SCHEME@.len() as int) =~= AUTH_SCHEME@);
    assert(auth_value_spec(token).skip(AUTH_SCHEME@.len() as int) =~= token);
}

/// Where to ask for the MP3 stream: the address of the first way to download
/// with the MP3 codec, or `NoMp3Stream` when there is none.
pub fn mp3_download_info_url(infos: &Vec<DownloadInfo>) -> (r: Result<String, StreamUrlError>)
    ensures
        match first_mp3(infos_view(infos@)) {
            Some(i) => r matches Ok(u) && u@ == infos@[i].download_info_url@,
            None => r matches Err(StreamUrlError::NoMp3Stream),
        },
        (exists|k: int| 0 <= k < infos@.len() && #[trigger] infos@[k].codec@ == MP3_CODEC@) <==> r is Ok,
        r matches Ok(u) ==> exists|k: int|
            0 <= k < infos@.len() && #[trigger] infos@[k].codec@ == MP3_CODEC@ && u@
                == infos@[k].download_info_url@ && forall|j: int| 0 <= j < k ==> infos@[j].codec@
                != MP3_CODEC@,
{
    let ghost all = infos_view(infos@);
    proof {
        law_first_mp3_is_first(all);
        assert forall|k: int| 0 <= k < infos@.len() implies #[trigger] all[k] == (
            infos@[k].codec@,
            infos@[k].download_info_url@,
        ) by {}
        match first_mp3(all) {
            Some(k) => {
                assert(infos@[k].codec@ == MP3_CODEC@);
                assert(forall|j: int| 0 <= j < k ==> infos@[j].codec@ == all[j].0);
            },
            None => {
                assert forall|k: int| 0 <= k < infos@.len() implies #[trigger] infos@[k].codec@
                    != MP3_CODEC@ by {
                    assert(all[k].0 == infos@[k].codec@);
                }
            },
        }
    }
    let n = infos.len();
    let mut i: usize = 0;
    assert(all.skip(0) =~= all);
    while i < n
        invariant
            n == infos@.len(),
            all == infos_view(infos@),
            i <= n,
            forall|k: int| 0 <= k < i ==> all[k].0 != MP3_CODEC@,
            first_mp3(all) == (match first_mp3(all.skip(i as int)) {
                Some(j) => Some(j + i),
                None => None,
            }),
        decreases n - i,
    {
        let d = &infos[i];
        assert(all[i as int] == d@);
        if str_equal(d.codec.as_str(), MP3_CODEC) {
            assert(first_mp3(all.skip(i as int)) == Some(0int));
            assert forall|j: int| 0 <= j < i implies infos@[j].codec@ != MP3_CODEC@ by {
                assert(all[j] == infos@[j]@);
            }
            assert(infos@[i as int].codec@ == MP3_CODEC@);
            return Ok(d.download_info_url.clone());
        }
        proof {
            lemma_first_mp3_shift(all, i as int);
        }
        i = i + 1;
    }
    assert(all.skip(n as int).len() == 0);
    Err(StreamUrlError::NoMp3Stream)
}

/// A text that `serde_json` writes between quotes as it is: it holds no
/// quote, no backslash and no control character below 0x20.
pub open spec fn json_plain(s: Seq<char>) -> bool {
    forall|i: int| 0 <= i < s.len() ==> #[trigger] s[i] != '"' && s[i] != '\\' && (s[i] as u32)
        >= 32
}

/// The JSON text of an object whose members have string values, as
/// `serde_json` writes it.
pub uninterp spec fn json_object_text(members: Seq<(Seq<char>, Seq<char>)>) -> Seq<char>;

/// The views of a list of members.
pub open spec fn members_view(v: Seq<(String, String)>) -> Seq<(Seq<char>, Seq<char>)> {
    v.map_values(|p: (String, String)| (p.0@, p.1@))
}

/// `a` comes before `b` in lexicographic order of characters, which for
/// UTF-8 texts is also the order of their bytes.
pub open spec fn text_before(a: Seq<char>, b: Seq<char>) -> bool
    decreases a.len(),
{
    if a.len() == 0 {
        b.len() > 0
    } else if b.len() == 0 {
        false
    } else if a[0] != b[0] {
        a[0] < b[0]
    } else {
        text_before(a.drop_first(), b.drop_first())
    }
}

/// Each key comes strictly before the next one.
pub open spec fn keys_ascending(m: Seq<(Seq<char>, Seq<char>)>) -> bool {
    forall|i: int| 0 <= i < m.len() - 1 ==> text_before(#[trigger] m[i].0, m[i + 1].0)
}

/// All keys and values need no escaping.
pub open spec fn members_plain(m: Seq<(Seq<char>, Seq<char>)>) -> bool {
    forall|i: int| 0 <= i < m.len() ==> json_plain(#[trigger] m[i].0) && json_plain(m[i].1)
}

/// One member written as `"key":"value"`.
pub open spec fn json_member(k: Seq<char>, v: Seq<char>) -> Seq<char> {
    "\""@ + k + "\":\""@ + v + "\""@
}

/// The members written in order, separated by commas.
pub open spec fn json_members(m: Seq<(Seq<char>, Seq<char>)>) -> Seq<char>
    decreases m.len(),
{
    if m.len() == 0 {
        Seq::empty()
    } else if m.len() == 1 {
        json_member(m[0].0, m[0].1)
    } else {
        json_members(m.drop_last()) + ","@ + json_member(m.last().0, m.last().1)
    }
}

/// The compact JSON object of plain members given in the order of their keys.
pub open spec fn plain_json_object(m: Seq<(Seq<char>, Seq<char>)>) -> Seq<char> {
    "{"@ + json_members(m) + "}"@
}

/// Collects the members into a `serde_json::Map` of string values and
/// writes it with the `Display` of `serde_json::Value`. The text is named
/// `json_object_text`; where the keys ascend and nothing needs escaping it
/// is stated: the default map keeps its keys in the order of their bytes,
/// and the compact writer quotes plain texts as they are. The order holds
/// while the `preserve_order` feature of `serde_json` is off, as it is in
/// this crate's build.
#[verifier::external_body]
fn write_json_object(members: &Vec<(String, String)>) -> (r: String)
    ensures
        r@ == json_object_text(members_view(members@)),
        keys_ascending(members_view(members@)) && members_plain(members_view(members@)) ==> r@
            == plain_json_object(members_view(members@)),
{
    let map: serde_json::Map<String, serde_json::Value> = members.iter().map(
        |(k, v)| (k.clone(), serde_json::Value::from(v.as_str())),
    ).collect();
    serde_json::Value::Object(map).to_string()
}

/// The members of a feedback report, in the order of their keys.
pub open spec fn feedback_members(
    event_type: Seq<char>,
    track_id: Seq<char>,
    batch_id: Seq<char>,
    timestamp: Seq<char>,
) -> Seq<(Seq<char>, Seq<char>)> {
    seq![
        ("batchId"@, batch_id),
        ("timestamp"@, timestamp),
        ("trackId"@, track_id),
        ("type"@, event_type),
    ]
}

proof fn lemma_feedback_keys(m: Seq<(Seq<char>, Seq<char>)>)
    requires
        m.len() == 4,
        m[0].0 == "batchId"@,
        m[1].0 == "timestamp"@,
        m[2].0 == "trackId"@,
        m[3].0 == "type"@,
    ensures
        keys_ascending(m),
        forall|i: int| 0 <= i < 4 ==> json_plain(#[trigger] m[i].0),
{
    reveal_strlit("batchId");
    reveal_strlit("timestamp");
    reveal_strlit("trackId");
    reveal_strlit("type");
    reveal_with_fuel(text_before, 3);
    assert(text_before(m[0].0, m[1].0));
    assert(m[1].0.drop_first()[0] == 'i');
    assert(m[2].0.drop_first()[0] == 'r');
    assert(text_before(m[1].0, m[2].0));
    assert(m[3].0.drop_first()[0] == 'y');
    assert(text_before(m[2].0, m[3].0));
    assert forall|i: int| 0 <= i < 4 implies json_plain(#[trigger] m[i].0) by {
        reveal_strlit("batchId");
        reveal_strlit("timestamp");
        reveal_strlit("trackId");
        reveal_strlit("type");
    }
}

/// The body of the feedback report that `event` happened to the track
/// `track_id` of the batch `batch_id`, at the time `timestamp` (RFC 3339):
/// a JSON object with the members `batchId`, `timestamp`, `trackId` and
/// `type`.
pub fn feedback_body(batch_id: &str, track_id: &str, event: crate::player::FeedbackEvent, timestamp: &str) -> (r: String)
    ensures
        r@ == json_object_text(feedback_members(event.name_spec(), track_id@, batch_id@, timestamp@)),
        json_plain(track_id@) && json_plain(batch_id@) && json_plain(timestamp@) ==> r@
            == plain_json_object(feedback_members(event.name_spec(), track_id@, batch_id@, timestamp@)),
{
    let mut members: Vec<(String, String)> = Vec::new();
    members.push(("batchId".to_string(), batch_id.to_string()));
    members.push(("timestamp".to_string(), timestamp.to_string()));
    members.push(("trackId".to_string(), track_id.to_string()));
    members.push(("type".to_string(), event.as_str().to_string()));
    let ghost m = feedback_members(event.name_spec(), track_id@, batch_id@, timestamp@);
    assert(members_view(members@) =~= m);
    proof {
        event.lemma_name_plain();
        lemma_feedback_keys(m);
    }
    write_json_object(&members)
}

} // verus!
