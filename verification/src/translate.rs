//! The translation client: what is sent to the service and what is made of
//! its answer.

use vstd::prelude::*;
use crate::errors::TranscendiaError;
use crate::json::{json_document, parse_json, Json};
use crate::url::{append_query_pair, parse_url, url_parsed, url_string, url_with_pair};

verus! {

broadcast use vstd::string::axiom_spec_iter;

/// The code point that stands for a line break while a text travels to the
/// service and back.
pub const PLACEHOLDER: char = '\u{200B}';

/// A text with every line break (`\r\n`, `\n` or `\r`) replaced by one
/// placeholder.
pub open spec fn encoded(s: Seq<char>) -> Seq<char>
    decreases s.len(),
{
    if s.len() == 0 {
        Seq::empty()
    } else {
        let head = s.drop_last();
        let c = s.last();
        if c == '\n' && head.len() > 0 && head.last() == '\r' {
            encoded(head)
        } else if c == '\n' || c == '\r' {
            encoded(head).push(PLACEHOLDER)
        } else {
            encoded(head).push(c)
        }
    }
}

/// A text with every placeholder replaced by `\n`.
pub open spec fn decoded(s: Seq<char>) -> Seq<char> {
    s.map_values(|c: char| if c == PLACEHOLDER { '\n' } else { c })
}

/// `String::push`: the character is added at the end.
#[verifier::external_body]
fn push_char(s: &mut String, c: char)
    ensures
        final(s)@ == old(s)@.push(c),
{
    s.push(c)
}

/// Replaces every line break of `text` by one placeholder, so that a
/// line-oriented service sees a single line.
pub fn encode_line_breaks(text: &str) -> (out: String)
    ensures
        out@ == encoded(text@),
{
    let mut out = String::new();
    let mut after_cr = false;
    for c in it: text.chars()
        invariant
            it.seq() == text@,
            out@ == encoded(text@.take(it.index())),
            after_cr == (it.index() > 0 && text@[it.index() - 1] == '\r'),
    {
        proof {
            let k = it.index();
            assert(text@.take(k + 1).drop_last() == text@.take(k));
            assert(text@.take(k + 1).last() == c);
        }
        if c == '\n' && after_cr {
        } else if c == '\n' || c == '\r' {
            push_char(&mut out, PLACEHOLDER);
        } else {
            push_char(&mut out, c);
        }
        after_cr = c == '\r';
    }
    proof {
        assert(text@.take(text@.len() as int) == text@);
    }
    out
}

/// Replaces every placeholder of `text` by `\n`.
pub fn decode_placeholders(text: &str) -> (out: String)
    ensures
        out@ == decoded(text@),
{
    let mut out = String::new();
    for c in it: text.chars()
        invariant
            it.seq() == text@,
            out@ == decoded(text@.take(it.index())),
    {
        proof {
            let k = it.index();
            assert(decoded(text@.take(k + 1)) =~= decoded(text@.take(k)).push(
                if c == PLACEHOLDER {
                    '\n'
                } else {
                    c
                },
            ));
        }
        if c == PLACEHOLDER {
            push_char(&mut out, '\n');
        } else {
            push_char(&mut out, c);
        }
    }
    proof {
        assert(text@.take(text@.len() as int) == text@);
    }
    out
}

/// An encoded text holds no line break: the service sees one line.
pub proof fn encoded_is_one_line(s: Seq<char>)
    ensures
        forall|i: int| 0 <= i < encoded(s).len() ==> encoded(s)[i] != '\n' && encoded(s)[i] != '\r',
    decreases s.len(),
{
    if s.len() > 0 {
        let head = s.drop_last();
        encoded_is_one_line(head);
        let e = encoded(s);
        assert forall|i: int| 0 <= i < e.len() implies e[i] != '\n' && e[i] != '\r' by {
            if i < encoded(head).len() {
                assert(e[i] == encoded(head)[i]);
            }
        }
    }
}

/// A text with every `\r\n` replaced by one placeholder, read from the
/// left.
pub open spec fn without_pairs(s: Seq<char>) -> Seq<char>
    decreases s.len(),
{
    if s.len() == 0 {
        Seq::empty()
    } else if s.len() >= 2 && s[0] == '\r' && s[1] == '\n' {
        seq![PLACEHOLDER] + without_pairs(s.skip(2))
    } else {
        seq![s[0]] + without_pairs(s.skip(1))
    }
}

/// A text with every occurrence of one character replaced by a placeholder.
pub open spec fn without_char(s: Seq<char>, from: char) -> Seq<char> {
    s.map_values(|c: char| if c == from { PLACEHOLDER } else { c })
}

/// The three replacements one after the other: first every `\r\n`, then
/// every `\n` that is left, then every `\r` that is left.
pub open spec fn replaced_in_turn(s: Seq<char>) -> Seq<char> {
    without_char(without_char(without_pairs(s), '\n'), '\r')
}

proof fn without_pairs_from_the_right(s: Seq<char>)
    requires
        s.len() > 0,
    ensures
        without_pairs(s) == if s.last() == '\n' && s.len() >= 2 && s[s.len() - 2] == '\r' {
            without_pairs(s.take(s.len() - 2)).push(PLACEHOLDER)
        } else {
            without_pairs(s.drop_last()).push(s.last())
        },
    decreases s.len(),
{
    let n = s.len() as int;
    let head = s.drop_last();
    if n == 1 {
        assert(without_pairs(s.skip(1)) =~= Seq::<char>::empty());
        assert(without_pairs(head) =~= Seq::<char>::empty());
        assert(without_pairs(s) =~= seq![s[0]]);
    } else if s[0] == '\r' && s[1] == '\n' {
        let rest = s.skip(2);
        if n == 2 {
            assert(without_pairs(rest) =~= Seq::<char>::empty());
            assert(without_pairs(s.take(0)) =~= Seq::<char>::empty());
            assert(without_pairs(s) =~= Seq::<char>::empty().push(PLACEHOLDER));
        } else {
            without_pairs_from_the_right(rest);
            assert(rest.last() == s.last());
            if s.last() == '\n' && s[n - 2] == '\r' {
                assert(n >= 4);
                assert(rest[rest.len() - 2] == s[n - 2]);
                let inner = s.take(n - 2);
                assert(inner.len() >= 2 && inner[0] == '\r' && inner[1] == '\n');
                assert(inner.skip(2) =~= rest.take(rest.len() - 2));
                assert(without_pairs(s) =~= without_pairs(inner).push(PLACEHOLDER));
            } else {
                assert(!(rest.len() >= 2 && rest[rest.len() - 2] == '\r' && rest.last() == '\n'));
                assert(head.len() >= 2 && head[0] == '\r' && head[1] == '\n');
                assert(head.skip(2) =~= rest.drop_last());
                assert(without_pairs(s) =~= without_pairs(head).push(s.last()));
            }
        }
    } else {
        let rest = s.skip(1);
        without_pairs_from_the_right(rest);
        assert(rest.last() == s.last());
        if s.last() == '\n' && s[n - 2] == '\r' {
            assert(n >= 3);
            assert(rest[rest.len() - 2] == s[n - 2]);
            let inner = s.take(n - 2);
            assert(inner.len() >= 1 && inner[0] == s[0]);
            assert(inner.len() >= 2 ==> inner[1] == s[1]);
            assert(inner.skip(1) =~= rest.take(rest.len() - 2));
            assert(without_pairs(s) =~= without_pairs(inner).push(PLACEHOLDER));
        } else {
            assert(rest.len() >= 2 ==> rest[rest.len() - 2] == s[n - 2]);
            assert(head.len() >= 1 && head[0] == s[0]);
            assert(head.len() >= 2 ==> head[1] == s[1]);
            assert(head.skip(1) =~= rest.drop_last());
            assert(without_pairs(s) =~= without_pairs(head).push(s.last()));
        }
    }
}

proof fn replaced_in_turn_step(s: Seq<char>, c: char)
    ensures
        without_char(without_char(s.push(c), '\n'), '\r') == without_char(
            without_char(s, '\n'),
            '\r',
        ).push(
            if c == '\n' || c == '\r' {
                PLACEHOLDER
            } else {
                c
            },
        ),
{
    assert(without_char(without_char(s.push(c), '\n'), '\r') =~= without_char(
        without_char(s, '\n'),
        '\r',
    ).push(
        if c == '\n' || c == '\r' {
            PLACEHOLDER
        } else {
            c
        },
    ));
}

/// Encoding is the three replacements one after the other: every `\r\n`,
/// then every `\n`, then every `\r` becomes a placeholder.
pub proof fn encoded_is_replacement_in_turn(s: Seq<char>)
    ensures
        encoded(s) == replaced_in_turn(s),
    decreases s.len(),
{
    if s.len() == 0 {
        assert(replaced_in_turn(s) =~= Seq::<char>::empty());
    } else {
        let n = s.len() as int;
        let head = s.drop_last();
        let c = s.last();
        encoded_is_replacement_in_turn(head);
        without_pairs_from_the_right(s);
        if c == '\n' && head.len() > 0 && head.last() == '\r' {
            let inner = s.take(n - 2);
            assert(head.drop_last() =~= inner);
            without_pairs_from_the_right(head);
            replaced_in_turn_step(without_pairs(inner), '\r');
            replaced_in_turn_step(without_pairs(inner), PLACEHOLDER);
        } else {
            replaced_in_turn_step(without_pairs(head), c);
        }
    }
}

/// On a text that holds no carriage return, encoding replaces each `\n` by
/// a placeholder and changes nothing else.
pub proof fn encoded_without_carriage_returns(s: Seq<char>)
    requires
        forall|i: int| 0 <= i < s.len() ==> s[i] != '\r',
    ensures
        encoded(s) == s.map_values(|c: char| if c == '\n' { PLACEHOLDER } else { c }),
    decreases s.len(),
{
    let f = |c: char| if c == '\n' { PLACEHOLDER } else { c };
    if s.len() > 0 {
        let head = s.drop_last();
        encoded_without_carriage_returns(head);
        assert(s.map_values(f) =~= head.map_values(f).push(f(s.last())));
    } else {
        assert(s.map_values(f) =~= Seq::<char>::empty());
    }
}

/// Encoding and then decoding gives the text back, for every text that holds
/// neither a carriage return nor a placeholder.
pub proof fn decode_inverts_encode(s: Seq<char>)
    requires
        forall|i: int| 0 <= i < s.len() ==> s[i] != '\r' && s[i] != PLACEHOLDER,
    ensures
        decoded(encoded(s)) == s,
{
    encoded_without_carriage_returns(s);
    assert(decoded(encoded(s)) =~= s);
}

/// Only such texts come back unchanged: a text that encoding and decoding
/// give back holds neither a carriage return nor a placeholder.
pub proof fn decode_inverts_encode_only_then(s: Seq<char>)
    requires
        decoded(encoded(s)) == s,
    ensures
        forall|i: int| 0 <= i < s.len() ==> s[i] != '\r' && s[i] != PLACEHOLDER,
{
    encoded_is_one_line(s);
    assert forall|i: int| 0 <= i < s.len() implies s[i] != '\r' && s[i] != PLACEHOLDER by {
        assert(s[i] == decoded(encoded(s))[i]);
    }
}

/// Seconds that a connection to a service may take.
pub const CONNECT_TIMEOUT_SECONDS: u64 = 10;

/// Seconds that a request to a service may take as a whole.
pub const REQUEST_TIMEOUT_SECONDS: u64 = 20;

/// The longest endpoint, in characters, that a request is built on.
pub const MAX_ENDPOINT_CHARS: usize = 1_000_000;

/// The longest encoded text, in characters, that a request carries.
pub const MAX_QUERY_CHARS: usize = 100_000_000;

/// The address of the service for a target language, before the text is
/// added to it.
pub open spec fn endpoint(lang: Seq<char>) -> Seq<char> {
    "https://translate.googleapis.com/translate_a/single?client=gtx&sl=auto&tl="@ + lang
        + "&dt=t"@
}

/// The address that asks the service to translate `text` into `lang`: the
/// endpoint with the encoded text added to its query under the name `q`.
/// `None` where the endpoint is no URL, or where the endpoint or the text is
/// longer than a request may be.
pub open spec fn request_target(text: Seq<char>, lang: Seq<char>) -> Option<Seq<char>> {
    match url_parsed(endpoint(lang)) {
        Some(base) => if base.len() <= MAX_ENDPOINT_CHARS && encoded(text).len()
            <= MAX_QUERY_CHARS {
            Some(url_with_pair(base, "q"@, encoded(text)))
        } else {
            None
        },
        None => None,
    }
}

/// Builds the address of the request that translates `text` into `lang`.
pub fn request_url(text: &str, lang: &str) -> (r: Option<String>)
    ensures
        match request_target(text@, lang@) {
            Some(target) => r matches Some(u) && u@ == target,
            None => r is None,
        },
{
    let mut address = String::from_str(
        "https://translate.googleapis.com/translate_a/single?client=gtx&sl=auto&tl=",
    );
    address.append(lang);
    address.append("&dt=t");
    match parse_url(address.as_str()) {
        Some(url) => {
            let mut url = url;
            let base = url_string(&url);
            let query = encode_line_breaks(text);
            if base.as_str().unicode_len() > MAX_ENDPOINT_CHARS || query.as_str().unicode_len()
                > MAX_QUERY_CHARS {
                return None;
            }
            proof {
                reveal_strlit("q");
            }
            append_query_pair(&mut url, "q", query.as_str());
            Some(url_string(&url))
        },
        None => None,
    }
}

/// The first item of an array, where that item is a string.
pub open spec fn leading_text(entry: Json) -> Option<Seq<char>> {
    match entry.item(0) {
        Some(first) => first.text(),
        None => None,
    }
}

/// The leading strings of the entries, decoded and joined in order; an entry
/// without a leading string adds nothing.
pub open spec fn joined_segments(entries: Seq<Json>) -> Seq<char>
    decreases entries.len(),
{
    if entries.len() == 0 {
        Seq::empty()
    } else {
        joined_segments(entries.drop_last()) + match leading_text(entries.last()) {
            Some(segment) => decoded(segment),
            None => Seq::empty(),
        }
    }
}

/// The translated text that an answer of the service carries: the answer is
/// an array whose first item is an array of entries. `None` for every
/// document of another shape.
pub open spec fn translation_in(reply: Json) -> Option<Seq<char>> {
    match reply.item(0) {
        Some(first) => match first.items() {
            Some(entries) => Some(joined_segments(entries)),
            None => None,
        },
        None => None,
    }
}

/// Takes the translated text out of an answer of the service.
///
/// Fails with `TranslationParseError` exactly when the answer is not an
/// array whose first item is an array.
pub fn extract_translation(reply: &Json) -> (r: Result<String, TranscendiaError>)
    ensures
        match translation_in(*reply) {
            Some(text) => r matches Ok(t) && t@ == text,
            None => r == Err::<String, TranscendiaError>(TranscendiaError::TranslationParseError),
        },
{
    let entries = match reply.get(0) {
        Some(first) => match first.as_array() {
            Some(entries) => entries,
            None => {
                return Err(TranscendiaError::TranslationParseError);
            },
        },
        None => {
            return Err(TranscendiaError::TranslationParseError);
        },
    };
    let mut text = String::new();
    let mut i: usize = 0;
    while i < entries.len()
        invariant
            i <= entries.len(),
            text@ == joined_segments(entries@.take(i as int)),
        decreases entries.len() - i,
    {
        proof {
            assert(entries@.take(i + 1).drop_last() == entries@.take(i as int));
            assert(entries@.take(i + 1).last() == entries@[i as int]);
        }
        match entries[i].get(0) {
            Some(first) => match first.as_str() {
                Some(segment) => {
                    let restored = decode_placeholders(segment);
                    text.append(restored.as_str());
                },
                None => {},
            },
            None => {},
        }
        i += 1;
    }
    proof {
        assert(entries@.take(entries@.len() as int) == entries@);
    }
    Ok(text)
}

/// The translated text that the body of an answer carries.
pub open spec fn translation_of_body(body: Seq<char>) -> Option<Seq<char>> {
    match json_document(body) {
        Some(reply) => translation_in(reply),
        None => None,
    }
}

/// Reads the body of an answer of the service.
///
/// Fails with `TranslationParseError` exactly when the body is not JSON or
/// is JSON of another shape than the service is known to send.
pub fn parse_reply(body: &str) -> (r: Result<String, TranscendiaError>)
    ensures
        match translation_of_body(body@) {
            Some(text) => r matches Ok(t) && t@ == text,
            None => r == Err::<String, TranscendiaError>(TranscendiaError::TranslationParseError),
        },
{
    match parse_json(body) {
        Some(reply) => extract_translation(&reply),
        None => Err(TranscendiaError::TranslationParseError),
    }
}

/// How the request to the service ended.
#[derive(Debug)]
pub enum HttpOutcome {
    /// The service answered with this body.
    Body(String),
    /// The request failed or ran out of time.
    Failed,
}

/// Puts the translation in the place of `text`.
///
/// Where the request failed, `text` stays as it is and the error is
/// `TranslationUnavailable`; where the body cannot be read, `text` stays as
/// it is and the error is `TranslationParseError`.
pub fn translate_text(text: &mut String, outcome: &HttpOutcome) -> (r: Result<
    (),
    TranscendiaError,
>)
    ensures
        match *outcome {
            HttpOutcome::Failed => r == Err::<(), TranscendiaError>(
                TranscendiaError::TranslationUnavailable,
            ) && final(text)@ == old(text)@,
            HttpOutcome::Body(body) => match translation_of_body(body@) {
                Some(translated) => r is Ok && final(text)@ == translated,
                None => r == Err::<(), TranscendiaError>(TranscendiaError::TranslationParseError)
                    && final(text)@ == old(text)@,
            },
        },
{
    match outcome {
        HttpOutcome::Failed => Err(TranscendiaError::TranslationUnavailable),
        HttpOutcome::Body(body) => match parse_reply(body.as_str()) {
            Ok(translated) => {
                *text = translated;
                Ok(())
            },
            Err(e) => Err(e),
        },
    }
}

} // verus!
