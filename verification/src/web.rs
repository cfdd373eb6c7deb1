//! URLs, form bodies and HTML escaping through the crates that implement them.

use vstd::prelude::*;

verus! {

/// The `application/x-www-form-urlencoded` text that `form_urlencoded` writes
/// for a list of name/value pairs.
pub uninterp spec fn form_encoded(pairs: Seq<(Seq<char>, Seq<char>)>) -> Seq<char>;

/// The URL that `url` serialises after parsing `base` and appending the pairs
/// to its query, if `base` is an absolute URL.
pub uninterp spec fn url_with_query(base: Seq<char>, pairs: Seq<(Seq<char>, Seq<char>)>) -> Option<
    Seq<char>,
>;

/// What stands for one character in escaped HTML.
pub open spec fn html_entity(c: char) -> Seq<char> {
    if c == '"' {
        "&quot;"@
    } else if c == '&' {
        "&amp;"@
    } else if c == '\'' {
        "&#x27;"@
    } else if c == '<' {
        "&lt;"@
    } else if c == '>' {
        "&gt;"@
    } else {
        seq![c]
    }
}

/// The text with each of `"`, `&`, `'`, `<`, `>` replaced by its entity.
pub open spec fn html_escaped(s: Seq<char>) -> Seq<char>
    decreases s.len(),
{
    if s.len() == 0 {
        Seq::empty()
    } else {
        html_escaped(s.drop_last()) + html_entity(s.last())
    }
}

/// The views of a list of name/value pairs.
pub open spec fn pairs_view(pairs: Seq<(String, String)>) -> Seq<(Seq<char>, Seq<char>)> {
    Seq::new(pairs.len(), |i: int| (pairs[i].0@, pairs[i].1@))
}

/// Serialises the pairs with `form_urlencoded::Serializer`: `extend_pairs`
/// on an empty target, then `finish`. The contract names the text.
#[verifier::external_body]
pub(crate) fn form_encode(pairs: &Vec<(String, String)>) -> (r: String)
    ensures
        r@ == form_encoded(pairs_view(pairs@)),
{
    url::form_urlencoded::Serializer::new(String::new()).extend_pairs(pairs.iter()).finish()
}

/// Calls `Url::parse_with_params` and serialises the URL. The contract names
/// the outcome, and says that whether there is one depends on `base` alone:
/// that function parses `base` first and appends the pairs to the URL that
/// it has parsed, whatever they are.
#[verifier::external_body]
pub(crate) fn url_with_params(base: &str, pairs: &Vec<(String, String)>) -> (r: Option<String>)
    ensures
        r.deep_view() == url_with_query(base@, pairs_view(pairs@)),
        r is Some <==> url_with_query(base@, Seq::empty()) is Some,
{
    url::Url::parse_with_params(base, pairs.iter()).ok().map(|u| u.into())
}

/// Calls `htmlescape::encode_minimal`, which replaces `"`, `&`, `'`, `<` and
/// `>` by their entities and keeps every other character.
#[verifier::external_body]
pub(crate) fn html_escape(s: &str) -> (r: String)
    ensures
        r@ == html_escaped(s@),
{
    htmlescape::encode_minimal(s)
}

} // verus!
