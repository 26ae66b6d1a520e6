//! URLs, parsed and extended with the `url` crate as `reqwest` exports it.

use vstd::prelude::*;

verus! {

/// `reqwest::Url`, a parsed URL.
#[verifier::external_type_specification]
#[verifier::external_body]
pub struct ExUrl(reqwest::Url);

/// The text of a URL value: its serialization.
pub uninterp spec fn url_text(url: reqwest::Url) -> Seq<char>;

/// The serialization of the URL that a text parses to, or `None` where the
/// text is not an absolute URL.
pub uninterp spec fn url_parsed(text: Seq<char>) -> Option<Seq<char>>;

/// The serialization of a URL after one more name and value were added to
/// its query in `application/x-www-form-urlencoded` syntax.
pub uninterp spec fn url_with_pair(url: Seq<char>, name: Seq<char>, value: Seq<char>) -> Seq<
    char,
>;

/// `Url::parse`: the parser accepts the text exactly when the text is an
/// absolute URL, and the value it returns serializes as that URL.
#[verifier::external_body]
pub(crate) fn parse_url(text: &str) -> (r: Option<reqwest::Url>)
    ensures
        match r {
            Some(url) => url_parsed(text@) == Some(url_text(url)),
            None => url_parsed(text@) is None,
        },
{
    reqwest::Url::parse(text).ok()
}

/// `Url::as_str`: the serialization of the URL.
#[verifier::external_body]
pub(crate) fn url_string(url: &reqwest::Url) -> (s: String)
    ensures
        s@ == url_text(*url),
{
    url.as_str().to_owned()
}

/// `Url::query_pairs_mut` followed by `Serializer::append_pair`: the pair is
/// added to the query of the URL.
///
/// The crate keeps positions inside a URL in 32 bits and stops the program
/// where one does not fit. Every character of the URL takes at most four
/// bytes, and every character of the pair at most twelve once escaped; the
/// pair brings two separators with it. The precondition keeps the sum of
/// these within 32 bits.
#[verifier::external_body]
pub(crate) fn append_query_pair(url: &mut reqwest::Url, name: &str, value: &str)
    requires
        4 * url_text(*old(url)).len() + 12 * (name@.len() + value@.len()) + 2 <= u32::MAX,
    ensures
        url_text(*final(url)) == url_with_pair(url_text(*old(url)), name@, value@),
{
    url.query_pairs_mut().append_pair(name, value);
}

} // verus!
