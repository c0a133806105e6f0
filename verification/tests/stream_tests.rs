use ymz::stream::{
    hex_lower, signature_input, signed_stream_url, stream_parts, stream_url_from_digest,
    stream_url_from_xml, StreamParts, StreamUrlError, XmlField, XmlNode,
};

#[test]
fn hex_is_lower_case_two_digits_per_byte() {
    assert_eq!(hex_lower(&[0x0a, 0x14, 0x1e]), "0a141e");
    assert_eq!(hex_lower(&[0x00, 0xff, 0xab]), "00ffab");
    assert_eq!(hex_lower(&[]), "");
}

#[test]
fn signature_input_cuts_the_leading_slash() {
    assert_eq!(signature_input("/rmusic/x", "s1"), "XGRlBW9FXlekgbPrrrmusic/xs1");
    assert_eq!(signature_input("/", ""), "XGRlBW9FXlekgbPrr");
}

#[test]
fn stream_url_layout() {
    assert_eq!(
        stream_url_from_digest("s1.storage.example", "0005f3", "/get/abc", &[0xde, 0xad]),
        "https://s1.storage.example/get-mp3/dead/0005f3/get/abc"
    );
}

fn parts() -> StreamParts {
    StreamParts {
        host: "s42.storage.yandex.net".to_string(),
        path: "/rmusic/U2FsdGVk/abc".to_string(),
        ts: "0005f3a1".to_string(),
        sign: "0123abcd".to_string(),
    }
}

#[test]
fn signed_stream_url_uses_md5_of_salted_path() {
    assert_eq!(
        signed_stream_url(&parts()),
        "https://s42.storage.yandex.net/get-mp3/313091871829d3c123cadbc6056f5bb4/0005f3a1/rmusic/U2FsdGVk/abc"
    );
}

const ANSWER: &str = "<?xml version=\"1.0\" encoding=\"utf-8\"?>\
<download-info><host>s42.storage.yandex.net</host><path>/rmusic/U2FsdGVk/abc</path>\
<ts>0005f3a1</ts><region>-1</region><s>0123abcd</s></download-info>";

#[test]
fn stream_url_from_answer() {
    assert_eq!(
        stream_url_from_xml(ANSWER).unwrap(),
        "https://s42.storage.yandex.net/get-mp3/313091871829d3c123cadbc6056f5bb4/0005f3a1/rmusic/U2FsdGVk/abc"
    );
}

#[test]
fn answer_that_is_no_xml() {
    assert!(matches!(stream_url_from_xml("<download-info><host>"), Err(StreamUrlError::Xml(_))));
    assert!(matches!(stream_url_from_xml(""), Err(StreamUrlError::Xml(_))));
}

#[test]
fn answer_without_a_field() {
    let xml = "<d><host>h</host><path>/p</path><s>x</s></d>";
    assert!(matches!(
        stream_url_from_xml(xml),
        Err(StreamUrlError::MissingField(XmlField::Ts))
    ));
    let empty_host = "<d><host></host><path>/p</path><ts>1</ts><s>x</s></d>";
    assert!(matches!(
        stream_url_from_xml(empty_host),
        Err(StreamUrlError::MissingField(XmlField::Host))
    ));
}

#[test]
fn answer_with_a_bad_path() {
    let xml = "<d><host>h</host><path></path><ts>1</ts><s>x</s></d>";
    assert!(matches!(stream_url_from_xml(xml), Err(StreamUrlError::MissingField(XmlField::Path))));
    let non_ascii = "<d><host>h</host><path>ж/p</path><ts>1</ts><s>x</s></d>";
    assert!(matches!(stream_url_from_xml(non_ascii), Err(StreamUrlError::MalformedPath)));
}

#[test]
fn first_element_of_a_name_counts() {
    let nodes = vec![
        XmlNode { tag: "".to_string(), text: None },
        XmlNode { tag: "host".to_string(), text: Some("a".to_string()) },
        XmlNode { tag: "host".to_string(), text: Some("b".to_string()) },
        XmlNode { tag: "path".to_string(), text: Some("/p".to_string()) },
        XmlNode { tag: "ts".to_string(), text: Some("t".to_string()) },
        XmlNode { tag: "s".to_string(), text: Some("x".to_string()) },
    ];
    let p = stream_parts(&nodes).unwrap();
    assert_eq!(p.host, "a");
    assert_eq!(p.path, "/p");
    assert_eq!(p.ts, "t");
    assert_eq!(p.sign, "x");
    let first_empty = vec![
        XmlNode { tag: "host".to_string(), text: None },
        XmlNode { tag: "host".to_string(), text: Some("b".to_string()) },
    ];
    assert!(matches!(stream_parts(&first_empty), Err(XmlField::Host)));
}

#[test]
fn error_messages() {
    assert_eq!(StreamUrlError::NoMp3Stream.message(), "MP3 поток не найден");
    assert_eq!(
        StreamUrlError::MissingField(XmlField::Sign).message(),
        "в ответе нет поля s"
    );
    assert_eq!(StreamUrlError::MalformedPath.message(), "некорректный путь потока");
    match stream_url_from_xml("<a>") {
        Err(e @ StreamUrlError::Xml(_)) => assert!(!e.message().is_empty()),
        _ => panic!("expected an XML error"),
    }
}
