use transcendia::json::{parse_json, Json};
use transcendia::translate::{
    decode_placeholders, encode_line_breaks, extract_translation, parse_reply, request_url,
    translate_text, HttpOutcome,
};
use transcendia::errors::TranscendiaError;

#[test]
fn encode_replaces_each_line_break_once() {
    assert_eq!(encode_line_breaks("a\nb\r\nc"), "a\u{200B}b\u{200B}c");
    assert_eq!(encode_line_breaks("a\rb"), "a\u{200B}b");
    assert_eq!(encode_line_breaks("\r\r\n\n"), "\u{200B}\u{200B}\u{200B}");
    assert_eq!(encode_line_breaks("\n\r"), "\u{200B}\u{200B}");
    assert_eq!(encode_line_breaks(""), "");
    assert_eq!(encode_line_breaks("plain"), "plain");
}

#[test]
fn encode_agrees_with_successive_replacement() {
    let samples = ["a\nb\r\nc", "\r\n\r\n", "\r\r\n", "x\ry\nz\r\n", "\n\r\n\r", "été\r\nhiver"];
    for s in samples {
        let expected = s.replace("\r\n", "\u{200B}").replace('\n', "\u{200B}").replace('\r', "\u{200B}");
        assert_eq!(encode_line_breaks(s), expected);
    }
}

#[test]
fn decode_restores_line_feeds() {
    assert_eq!(decode_placeholders("a\u{200B}b\u{200B}c"), "a\nb\nc");
    assert_eq!(decode_placeholders("no placeholder"), "no placeholder");
}

#[test]
fn round_trip_keeps_line_feeds() {
    let text = "a\nb\nc";
    assert_eq!(decode_placeholders(&encode_line_breaks(text)), text);
}

#[test]
fn round_trip_normalises_carriage_returns() {
    assert_eq!(decode_placeholders(&encode_line_breaks("a\nb\r\nc")), "a\nb\nc");
}

#[test]
fn text_is_unchanged_when_no_translation_occurs() {
    let mut text = String::from("a\nb\r\nc");
    let r = translate_text(&mut text, &HttpOutcome::Failed);
    assert_eq!(r, Err(TranscendiaError::TranslationUnavailable));
    assert_eq!(text, "a\nb\r\nc");
}

#[test]
fn request_url_carries_language_and_text() {
    assert_eq!(
        request_url("Hello world", "fr").as_deref(),
        Some("https://translate.googleapis.com/translate_a/single?client=gtx&sl=auto&tl=fr&dt=t&q=Hello+world")
    );
}

#[test]
fn request_url_escapes_the_placeholder() {
    assert_eq!(
        request_url("a\nb", "en").as_deref(),
        Some("https://translate.googleapis.com/translate_a/single?client=gtx&sl=auto&tl=en&dt=t&q=a%E2%80%8Bb")
    );
}

#[test]
fn parse_json_reads_documents() {
    match parse_json("[[\"a\", 1, null, true, {\"k\": \"v\"}]]") {
        Some(Json::Array(top)) => match &top[0] {
            Json::Array(items) => {
                assert_eq!(items.len(), 5);
                assert!(matches!(&items[0], Json::Text(s) if s == "a"));
                assert!(matches!(&items[1], Json::Number(n) if n == "1"));
                assert!(matches!(&items[2], Json::Null));
                assert!(matches!(&items[3], Json::Bool(true)));
                match &items[4] {
                    Json::Object(members) => {
                        assert_eq!(members.len(), 1);
                        assert_eq!(members[0].0, "k");
                        assert!(matches!(&members[0].1, Json::Text(s) if s == "v"));
                    }
                    other => panic!("unexpected {:?}", other),
                }
            }
            other => panic!("unexpected {:?}", other),
        },
        other => panic!("unexpected {:?}", other),
    }
    assert!(parse_json("not json").is_none());
    assert!(parse_json("").is_none());
}

#[test]
fn parse_reply_joins_first_elements() {
    let body = "[[[\"Bonjour \",\"Hello \",null,null,10],[\"le monde\",\"world\",null,null,3]],null,\"en\"]";
    assert_eq!(parse_reply(body), Ok(String::from("Bonjour le monde")));
}

#[test]
fn parse_reply_restores_line_breaks() {
    let body = "[[[\"Bonjour\u{200B}monde\",\"Hello\u{200B}world\"]],null,\"en\"]";
    assert_eq!(parse_reply(body), Ok(String::from("Bonjour\nmonde")));
}

#[test]
fn parse_reply_skips_entries_without_leading_string() {
    let body = "[[[\"a\"],[1,\"x\"],[],\"s\",[\"b\"]]]";
    assert_eq!(parse_reply(body), Ok(String::from("ab")));
}

#[test]
fn parse_reply_rejects_other_shapes() {
    assert_eq!(parse_reply("{}"), Err(TranscendiaError::TranslationParseError));
    assert_eq!(parse_reply("[]"), Err(TranscendiaError::TranslationParseError));
    assert_eq!(parse_reply("[null]"), Err(TranscendiaError::TranslationParseError));
    assert_eq!(parse_reply("[\"text\"]"), Err(TranscendiaError::TranslationParseError));
    assert_eq!(parse_reply("<html>"), Err(TranscendiaError::TranslationParseError));
    assert_eq!(parse_reply("[[]]"), Ok(String::new()));
}

#[test]
fn extract_translation_on_built_document() {
    let reply = Json::Array(vec![
        Json::Array(vec![
            Json::Array(vec![Json::Text(String::from("Hallo")), Json::Text(String::from("Hello"))]),
            Json::Array(vec![Json::Text(String::from(" Welt")), Json::Null]),
        ]),
        Json::Null,
    ]);
    assert_eq!(extract_translation(&reply), Ok(String::from("Hallo Welt")));
    assert_eq!(
        extract_translation(&Json::Text(String::from("x"))),
        Err(TranscendiaError::TranslationParseError)
    );
}

#[test]
fn translate_text_replaces_text_on_success() {
    let mut text = String::from("Hello");
    let outcome = HttpOutcome::Body(String::from("[[[\"Bonjour\",\"Hello\"]]]"));
    assert_eq!(translate_text(&mut text, &outcome), Ok(()));
    assert_eq!(text, "Bonjour");
}

#[test]
fn translate_text_keeps_text_on_unreadable_body() {
    let mut text = String::from("Hello");
    let outcome = HttpOutcome::Body(String::from("oops"));
    assert_eq!(translate_text(&mut text, &outcome), Err(TranscendiaError::TranslationParseError));
    assert_eq!(text, "Hello");
}

#[test]
fn request_url_keeps_a_fragment_behind_the_query() {
    assert_eq!(
        request_url("a b", "fr#x").as_deref(),
        Some("https://translate.googleapis.com/translate_a/single?client=gtx&sl=auto&tl=fr&q=a+b#x&dt=t")
    );
    assert_eq!(
        request_url("ça & là", "zh-CN").as_deref(),
        Some("https://translate.googleapis.com/translate_a/single?client=gtx&sl=auto&tl=zh-CN&dt=t&q=%C3%A7a+%26+l%C3%A0")
    );
}

#[test]
fn json_accessors_tell_arrays_and_strings_apart() {
    let text = Json::Text(String::from("abc"));
    let array = Json::Array(vec![Json::Null, Json::Text(String::from("x"))]);
    assert_eq!(text.as_str(), Some("abc"));
    assert!(text.as_array().is_none());
    assert!(text.get(0).is_none());
    assert!(array.as_str().is_none());
    assert_eq!(array.as_array().map(|a| a.len()), Some(2));
    assert!(matches!(array.get(0), Some(Json::Null)));
    assert!(matches!(array.get(1), Some(Json::Text(s)) if s == "x"));
    assert!(array.get(2).is_none());
    assert!(Json::Object(vec![(String::from("0"), Json::Null)]).get(0).is_none());
    assert!(Json::Number(String::from("1")).as_str().is_none());
}
