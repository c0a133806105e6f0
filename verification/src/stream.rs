//! The address of the audio stream of a track. The download service
//! answers with an XML document that names a host, a path, a timestamp and
//! a signature; the stream address joins them with an MD5 digest of a salt,
//! the path without its leading `/`, and the signature.
use vstd::prelude::*;
use vstd::string::*;
use vstd::utf8::encode_utf8;

use crate::text::push_char;

verus! {

/// The salt that the download service mixes into the digest.
pub const SIGN_SALT: &'static str = "XGRlBW9FXlekgbPrr";

#[verifier::external_type_specification]
#[verifier::external_body]
pub struct ExXmlError(roxmltree::Error);

/// A node of an XML document: the local name of an element (empty for the
/// nodes that are not elements) and the text that the node holds.
#[derive(Clone, Debug)]
pub struct XmlNode {
    pub tag: String,
    pub text: Option<String>,
}

/// The view of an optional string.
pub open spec fn opt_view(o: Option<String>) -> Option<Seq<char>> {
    match o {
        Some(s) => Some(s@),
        None => None,
    }
}

impl View for XmlNode {
    type V = (Seq<char>, Option<Seq<char>>);

    open spec fn view(&self) -> (Seq<char>, Option<Seq<char>>) {
        (self.tag@, opt_view(self.text))
    }
}

/// The views of a list of nodes.
pub open spec fn nodes_view(v: Seq<XmlNode>) -> Seq<(Seq<char>, Option<Seq<char>>)> {
    v.map_values(|n: XmlNode| n@)
}

/// The nodes of the XML document `xml` in document order, as
/// `roxmltree::Document::descendants` lists them from the root, or `None`
/// where `roxmltree::Document::parse` refuses the text.
pub uninterp spec fn xml_descendants(xml: Seq<char>) -> Option<Seq<(Seq<char>, Option<Seq<char>>)>>;

/// Calls `roxmltree::Document::parse` and lists the document's nodes from
/// `descendants()`, each by `tag_name().name()` and `text()`. What parsing
/// accepts and what it yields is named `xml_descendants`, not stated.
#[verifier::external_body]
fn parse_xml_nodes(xml: &str) -> (r: Result<Vec<XmlNode>, roxmltree::Error>)
    ensures
        match r {
            Ok(nodes) => xml_descendants(xml@) == Some(nodes_view(nodes@)),
            Err(_) => xml_descendants(xml@) is None,
        },
{
    let doc = roxmltree::Document::parse(xml)?;
    Ok(
        doc.descendants().map(
            |n| XmlNode { tag: n.tag_name().name().to_string(), text: n.text().map(|t| t.to_string()) },
        ).collect(),
    )
}

/// The MD5 digest of `data`.
pub uninterp spec fn md5_digest(data: Seq<u8>) -> Seq<u8>;

/// Calls `Md5::new`, `update` and `finalize` of the `md-5` crate on `data`;
/// the digest is named `md5_digest`, and it is 16 bytes long.
#[verifier::external_body]
fn md5_of(data: &[u8]) -> (r: Vec<u8>)
    ensures
        r@ == md5_digest(data@),
        r@.len() == 16,
{
    let mut hasher = <md5::Md5 as md5::Digest>::new();
    md5::Digest::update(&mut hasher, data);
    md5::Digest::finalize(hasher).to_vec()
}

/// The lower-case hexadecimal digit of a value below 16.
pub open spec fn hex_digit(v: int) -> char {
    if v < 10 {
        ((v + 48) as u32) as char
    } else {
        ((v - 10 + 97) as u32) as char
    }
}

/// Each byte as two lower-case hexadecimal digits, high digit first.
pub open spec fn hex_lower_spec(bytes: Seq<u8>) -> Seq<char>
    decreases bytes.len(),
{
    if bytes.len() == 0 {
        Seq::empty()
    } else {
        hex_lower_spec(bytes.drop_last()) + seq![
            hex_digit(bytes.last() as int / 16),
            hex_digit(bytes.last() as int % 16),
        ]
    }
}

fn hex_digit_exec(v: u8) -> (r: char)
    requires
        v < 16,
    ensures
        r == hex_digit(v as int),
{
    if v < 10 {
        (v + 48) as char
    } else {
        (v - 10 + 97) as char
    }
}

/// Writes bytes in lower-case hexadecimal.
pub fn hex_lower(bytes: &[u8]) -> (r: String)
    ensures
        r@ == hex_lower_spec(bytes@),
{
    let mut out = String::new();
    let n = bytes.len();
    let mut i: usize = 0;
    assert(bytes@.take(0) =~= Seq::<u8>::empty());
    while i < n
        invariant
            n == bytes@.len(),
            i <= n,
            out@ == hex_lower_spec(bytes@.take(i as int)),
        decreases n - i,
    {
        let b = bytes[i];
        assert(bytes@.take(i + 1).drop_last() =~= bytes@.take(i as int));
        let ghost before = out@;
        push_char(&mut out, hex_digit_exec(b / 16));
        push_char(&mut out, hex_digit_exec(b % 16));
        assert(out@ =~= before + seq![hex_digit(b as int / 16), hex_digit(b as int % 16)]);
        i = i + 1;
    }
    assert(bytes@.take(n as int) =~= bytes@);
    out
}

/// A field of the answer of the download service.
#[derive(Clone, Copy, Debug, PartialEq, Eq, Structural)]
pub enum XmlField {
    Host,
    Path,
    Ts,
    Sign,
}

impl XmlField {
    /// The element that holds the field.
    pub open spec fn tag_spec(self) -> Seq<char> {
        match self {
            XmlField::Host => "host"@,
            XmlField::Path => "path"@,
            XmlField::Ts => "ts"@,
            XmlField::Sign => "s"@,
        }
    }

    /// The element that holds the field.
    pub fn tag(&self) -> (r: &'static str)
        ensures
            r@ == self.tag_spec(),
    {
        match self {
            XmlField::Host => "host",
            XmlField::Path => "path",
            XmlField::Ts => "ts",
            XmlField::Sign => "s",
        }
    }
}

/// Why no stream address could be made.
#[derive(Debug)]
pub enum StreamUrlError {
    /// The download service offers no MP3 stream of the track.
    NoMp3Stream,
    /// The answer of the download service is no XML document.
    Xml(roxmltree::Error),
    /// The answer has no element for the field, or the first such element
    /// holds no text.
    MissingField(XmlField),
    /// The path is empty or does not start with an ASCII character.
    MalformedPath,
}

/// Calls the `Display` of `roxmltree::Error`; nothing is stated of the text.
#[verifier::external_body]
fn xml_error_text(e: &roxmltree::Error) -> String {
    e.to_string()
}

/// The message for a missing stream.
pub const NO_MP3_MESSAGE: &'static str = "MP3 поток не найден";

impl StreamUrlError {
    /// A message that says what went wrong.
    pub fn message(&self) -> (r: String)
        ensures
            self is NoMp3Stream ==> r@ == NO_MP3_MESSAGE@,
            self matches StreamUrlError::MissingField(f) ==> r@ == "в ответе нет поля "@ + f.tag_spec(),
            self is MalformedPath ==> r@ == "некорректный путь потока"@,
    {
        match self {
            StreamUrlError::NoMp3Stream => NO_MP3_MESSAGE.to_string(),
            StreamUrlError::Xml(e) => xml_error_text(e),
            StreamUrlError::MissingField(f) => "в ответе нет поля ".to_string().concat(f.tag()),
            StreamUrlError::MalformedPath => "некорректный путь потока".to_string(),
        }
    }
}

/// The text of the first node named `tag`: `None` where no node has that
/// name, `Some(None)` where the first one holds no text.
pub open spec fn first_tag_text(nodes: Seq<(Seq<char>, Option<Seq<char>>)>, tag: Seq<char>) -> Option<
    Option<Seq<char>>,
>
    decreases nodes.len(),
{
    if nodes.len() == 0 {
        None
    } else if nodes[0].0 == tag {
        Some(nodes[0].1)
    } else {
        first_tag_text(nodes.drop_first(), tag)
    }
}

/// The text of a field, where its first element holds one.
pub open spec fn field_text(nodes: Seq<(Seq<char>, Option<Seq<char>>)>, f: XmlField) -> Option<
    Seq<char>,
> {
    match first_tag_text(nodes, f.tag_spec()) {
        Some(Some(t)) => Some(t),
        _ => None,
    }
}

/// The four fields of the answer, or the first of host, path, ts and s
/// that is missing.
pub open spec fn stream_parts_spec(nodes: Seq<(Seq<char>, Option<Seq<char>>)>) -> Result<
    (Seq<char>, Seq<char>, Seq<char>, Seq<char>),
    XmlField,
> {
    if field_text(nodes, XmlField::Host) is None {
        Err(XmlField::Host)
    } else if field_text(nodes, XmlField::Path) is None {
        Err(XmlField::Path)
    } else if field_text(nodes, XmlField::Ts) is None {
        Err(XmlField::Ts)
    } else if field_text(nodes, XmlField::Sign) is None {
        Err(XmlField::Sign)
    } else {
        Ok(
            (
                field_text(nodes, XmlField::Host)->0,
                field_text(nodes, XmlField::Path)->0,
                field_text(nodes, XmlField::Ts)->0,
                field_text(nodes, XmlField::Sign)->0,
            ),
        )
    }
}

/// The fields of the answer of the download service.
#[derive(Clone, Debug)]
pub struct StreamParts {
    pub host: String,
    pub path: String,
    pub ts: String,
    pub sign: String,
}

impl View for StreamParts {
    type V = (Seq<char>, Seq<char>, Seq<char>, Seq<char>);

    open spec fn view(&self) -> (Seq<char>, Seq<char>, Seq<char>, Seq<char>) {
        (self.host@, self.path@, self.ts@, self.sign@)
    }
}

fn find_tag_text(nodes: &Vec<XmlNode>, tag: &str) -> (r: Option<Option<String>>)
    ensures
        match r {
            Some(t) => first_tag_text(nodes_view(nodes@), tag@) == Some(opt_view(t)),
            None => first_tag_text(nodes_view(nodes@), tag@) is None,
        },
{
    let ghost all = nodes_view(nodes@);
    let n = nodes.len();
    let mut i: usize = 0;
    assert(all.skip(0) =~= all);
    while i < n
        invariant
            n == nodes@.len(),
            all == nodes_view(nodes@),
            i <= n,
            first_tag_text(all, tag@) == first_tag_text(all.skip(i as int), tag@),
        decreases n - i,
    {
        let node = &nodes[i];
        assert(all.skip(i as int)[0] == node@);
        if crate::text::str_equal(node.tag.as_str(), tag) {
            let t = match &node.text {
                Some(s) => Some(s.clone()),
                None => None,
            };
            return Some(t);
        }
        assert(all.skip(i as int).drop_first() =~= all.skip(i + 1));
        i = i + 1;
    }
    None
}

fn require_field(nodes: &Vec<XmlNode>, f: XmlField) -> (r: Option<String>)
    ensures
        opt_view(r) == field_text(nodes_view(nodes@), f),
{
    match find_tag_text(nodes, f.tag()) {
        Some(Some(t)) => Some(t),
        _ => None,
    }
}

/// Picks the host, path, ts and s fields out of the nodes of the answer.
pub fn stream_parts(nodes: &Vec<XmlNode>) -> (r: Result<StreamParts, XmlField>)
    ensures
        match r {
            Ok(p) => stream_parts_spec(nodes_view(nodes@)) == Ok::<
                (Seq<char>, Seq<char>, Seq<char>, Seq<char>),
                XmlField,
            >(p@),
            Err(f) => stream_parts_spec(nodes_view(nodes@)) == Err::<
                (Seq<char>, Seq<char>, Seq<char>, Seq<char>),
                XmlField,
            >(f),
        },
{
    let host = match require_field(nodes, XmlField::Host) {
        Some(t) => t,
        None => return Err(XmlField::Host),
    };
    let path = match require_field(nodes, XmlField::Path) {
        Some(t) => t,
        None => return Err(XmlField::Path),
    };
    let ts = match require_field(nodes, XmlField::Ts) {
        Some(t) => t,
        None => return Err(XmlField::Ts),
    };
    let sign = match require_field(nodes, XmlField::Sign) {
        Some(t) => t,
        None => return Err(XmlField::Sign),
    };
    Ok(StreamParts { host, path, ts, sign })
}

/// A path from which the first byte can be cut: it is not empty and its
/// first character is ASCII.
pub open spec fn path_cuttable(path: Seq<char>) -> bool {
    path.len() > 0 && (path[0] as u32) < 128
}

/// The text whose digest signs the stream: the salt, the path without its
/// first character, and the signature.
pub open spec fn signature_input_spec(path: Seq<char>, sign: Seq<char>) -> Seq<char> {
    SIGN_SALT@ + path.drop_first() + sign
}

/// The stream address made of the host, the hexadecimal digest, the
/// timestamp and the path.
pub open spec fn stream_url_spec(host: Seq<char>, ts: Seq<char>, path: Seq<char>, digest: Seq<u8>) -> Seq<
    char,
> {
    "https://"@ + host + "/get-mp3/"@ + hex_lower_spec(digest) + "/"@ + ts + path
}

/// The stream address of the fields of an answer, signed with the MD5
/// digest of the UTF-8 bytes of the signature input.
pub open spec fn signed_url_spec(parts: (Seq<char>, Seq<char>, Seq<char>, Seq<char>)) -> Seq<char> {
    stream_url_spec(
        parts.0,
        parts.2,
        parts.1,
        md5_digest(encode_utf8(signature_input_spec(parts.1, parts.3))),
    )
}

/// The text whose digest signs the stream.
pub fn signature_input(path: &str, sign: &str) -> (r: String)
    requires
        path_cuttable(path@),
    ensures
        r@ == signature_input_spec(path@, sign@),
{
    let n = path.unicode_len();
    let rest = path.substring_char(1, n);
    assert(rest@ =~= path@.drop_first());
    SIGN_SALT.to_string().concat(rest).concat(sign)
}

/// Joins host, digest, timestamp and path into the stream address.
pub fn stream_url_from_digest(host: &str, ts: &str, path: &str, digest: &[u8]) -> (r: String)
    ensures
        r@ == stream_url_spec(host@, ts@, path@, digest@),
{
    let hex = hex_lower(digest);
    let url = "https://".to_string().concat(host).concat("/get-mp3/").concat(hex.as_str()).concat(
        "/",
    ).concat(ts).concat(path);
    url
}

/// The signed stream address of the fields of an answer.
pub fn signed_stream_url(parts: &StreamParts) -> (r: String)
    requires
        path_cuttable(parts.path@),
    ensures
        r@ == signed_url_spec(parts@),
        md5_digest(encode_utf8(signature_input_spec(parts.path@, parts.sign@))).len() == 16,
{
    let input = signature_input(parts.path.as_str(), parts.sign.as_str());
    let digest = md5_of(input.as_str().as_bytes());
    stream_url_from_digest(parts.host.as_str(), parts.ts.as_str(), parts.path.as_str(), &digest)
}

/// Reads the answer of the download service and makes the signed stream
/// address from it.
pub fn stream_url_from_xml(xml: &str) -> (r: Result<String, StreamUrlError>)
    ensures
        match xml_descendants(xml@) {
            None => r matches Err(StreamUrlError::Xml(_)),
            Some(nodes) => match stream_parts_spec(nodes) {
                Err(f) => r matches Err(StreamUrlError::MissingField(g)) && g == f,
                Ok(parts) => if path_cuttable(parts.1) {
                    &&& r matches Ok(u) && u@ == signed_url_spec(parts)
                    &&& md5_digest(encode_utf8(signature_input_spec(parts.1, parts.3))).len() == 16
                } else {
                    r matches Err(StreamUrlError::MalformedPath)
                },
            },
        },
{
    let nodes = match parse_xml_nodes(xml) {
        Ok(v) => v,
        Err(e) => return Err(StreamUrlError::Xml(e)),
    };
    let parts = match stream_parts(&nodes) {
        Ok(p) => p,
        Err(f) => return Err(StreamUrlError::MissingField(f)),
    };
    let n = parts.path.unicode_len();
    if n == 0 {
        return Err(StreamUrlError::MalformedPath);
    }
    let first = parts.path.as_str().get_char(0);
    if (first as u32) >= 128 {
        return Err(StreamUrlError::MalformedPath);
    }
    Ok(signed_stream_url(&parts))
}

/// Hexadecimal writing gives two lower-case digits per byte.
pub proof fn law_hex_shape(bytes: Seq<u8>)
    ensures
        hex_lower_spec(bytes).len() == 2 * bytes.len(),
        forall|i: int| 0 <= i < hex_lower_spec(bytes).len() ==> {
            let c = #[trigger] hex_lower_spec(bytes)[i];
            ('0' <= c && c <= '9') || ('a' <= c && c <= 'f')
        },
    decreases bytes.len(),
{
    if bytes.len() > 0 {
        law_hex_shape(bytes.drop_last());
        let front = hex_lower_spec(bytes.drop_last());
        let hi = bytes.last() as int / 16;
        let lo = bytes.last() as int % 16;
        assert forall|i: int| 0 <= i < hex_lower_spec(bytes).len() implies {
            let c = #[trigger] hex_lower_spec(bytes)[i];
            ('0' <= c && c <= '9') || ('a' <= c && c <= 'f')
        } by {
            if i >= front.len() {
                assert(0 <= hi < 16 && 0 <= lo < 16);
            } else {
                assert(hex_lower_spec(bytes)[i] == front[i]);
            }
        }
    }
}

/// A field is read from the first node with its name: that node has the
/// name and no node before it does; there is no such node only when no node
/// has the name.
pub proof fn law_first_tag_is_first(nodes: Seq<(Seq<char>, Option<Seq<char>>)>, tag: Seq<char>)
    ensures
        first_tag_text(nodes, tag) is None <==> forall|j: int| 0 <= j < nodes.len() ==> nodes[j].0
            != tag,
        first_tag_text(nodes, tag) is Some ==> exists|k: int|
            0 <= k < nodes.len() && #[trigger] nodes[k].0 == tag && first_tag_text(nodes, tag)
                == Some(nodes[k].1) && forall|j: int| 0 <= j < k ==> nodes[j].0 != tag,
    decreases nodes.len(),
{
    if nodes.len() > 0 {
        let t = nodes.drop_first();
        law_first_tag_is_first(t, tag);
        assert forall|j: int| 1 <= j < nodes.len() implies nodes[j] == t[j - 1] by {}
        if nodes[0].0 != tag {
            if first_tag_text(t, tag) is Some {
                let k = choose|k: int|
                    0 <= k < t.len() && #[trigger] t[k].0 == tag && first_tag_text(t, tag) == Some(
                        t[k].1,
                    ) && forall|j: int| 0 <= j < k ==> t[j].0 != tag;
                assert(nodes[k + 1].0 == tag);
                assert forall|j: int| 0 <= j < k + 1 implies nodes[j].0 != tag by {
                    if j > 0 {
                        assert(nodes[j] == t[j - 1]);
                    }
                }
            } else {
                assert forall|j: int| 0 <= j < nodes.len() implies nodes[j].0 != tag by {
                    if j > 0 {
                        assert(nodes[j] == t[j - 1]);
                    }
                }
            }
        } else {
            assert(nodes[0].0 == tag);
        }
    }
}

} // verus!
