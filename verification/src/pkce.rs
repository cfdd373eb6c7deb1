//! The pieces of the PKCE authorization-code flow that compute: verifiers
//! and challenges, claims of an identity token, and what counts as empty.

use vstd::prelude::*;
use crate::chance::random_bytes;
use crate::digest::{
    base64_url_decode, base64_url_decoded, base64_url_encode, base64_url_encoded, hex_encode,
    is_hex_digit, lemma_hex_lower_shape, sha256, sha256_digest,
};
use crate::image::find_char;
use crate::json::{json_document_of_bytes, json_text_at2, parse_document_bytes, text_at2};
use crate::text::{blank, chars_of, first_index_of, is_blank, text_of};

verus! {

/// The S256 code challenge of a verifier: the URL-safe, unpadded base64 of
/// the SHA-256 digest of its bytes.
pub open spec fn challenge_of(verifier: Seq<char>) -> Seq<char> {
    base64_url_encoded(sha256(vstd::utf8::encode_utf8(verifier)))
}

/// The text, unless it is blank.
pub open spec fn kept(s: Seq<char>) -> Option<Seq<char>> {
    if is_blank(s) {
        None
    } else {
        Some(s)
    }
}

/// The text, if there is one and it is not blank.
pub open spec fn kept_option(s: Option<Seq<char>>) -> Option<Seq<char>> {
    match s {
        Some(t) => kept(t),
        None => None,
    }
}

/// The payload segment of a token: the middle one of exactly three segments
/// that `.` separates.
pub open spec fn payload_segment(token: Seq<char>) -> Option<Seq<char>> {
    let a = first_index_of(token, '.');
    if a == token.len() {
        None
    } else {
        let rest = token.skip(a + 1);
        let b = first_index_of(rest, '.');
        if b == rest.len() {
            None
        } else {
            let tail = rest.skip(b + 1);
            if first_index_of(tail, '.') != tail.len() {
                None
            } else {
                Some(rest.take(b))
            }
        }
    }
}

/// The text claim `key` under the namespace `top_ns` of a token's payload.
/// The payload is URL-safe, unpadded base64 of a JSON object. The token's
/// signature is not looked at.
pub open spec fn claim_of(token: Seq<char>, top_ns: Seq<char>, key: Seq<char>) -> Option<
    Seq<char>,
> {
    match payload_segment(token) {
        Some(p) => match base64_url_decoded(vstd::utf8::encode_utf8(p)) {
            Some(bytes) => match json_document_of_bytes(bytes) {
                Some(doc) => json_text_at2(doc, top_ns, key),
                None => None,
            },
            None => None,
        },
        None => None,
    }
}

/// Fresh random bytes in hexadecimal: two digits for each of `nbytes` bytes.
pub fn rand_hex(nbytes: usize) -> (r: String)
    ensures
        r@.len() == 2 * nbytes,
        forall|i: int| 0 <= i < r@.len() ==> is_hex_digit(#[trigger] r@[i]),
{
    let bytes = random_bytes(nbytes);
    proof {
        lemma_hex_lower_shape(bytes@);
    }
    hex_encode(bytes.as_slice())
}

/// The S256 code challenge of a verifier.
pub fn code_challenge_s256(verifier: &str) -> (r: String)
    ensures
        r@ == challenge_of(verifier@),
{
    let digest = sha256_digest(verifier.as_bytes());
    base64_url_encode(digest.as_slice())
}

/// The text, unless it is blank.
pub fn some_if_not_empty(s: String) -> (r: Option<String>)
    ensures
        r.deep_view() == kept(s@),
{
    if blank(s.as_str()) {
        None
    } else {
        Some(s)
    }
}

/// The text, if there is one and it is not blank.
pub fn option_if_not_empty(s: Option<String>) -> (r: Option<String>)
    ensures
        r.deep_view() == kept_option(s.deep_view()),
{
    match s {
        Some(v) => some_if_not_empty(v),
        None => None,
    }
}

/// The characters `v[from..]`.
fn tail_of(v: &Vec<char>, from: usize) -> (t: Vec<char>)
    requires
        from <= v.len(),
    ensures
        t@ == v@.skip(from as int),
{
    let mut t: Vec<char> = Vec::new();
    let mut i: usize = from;
    while i < v.len()
        invariant
            from <= i <= v.len(),
            t@ == v@.subrange(from as int, i as int),
        decreases v.len() - i,
    {
        t.push(v[i]);
        i += 1;
    }
    t
}

/// The payload segment of a token.
pub fn jwt_payload(token: &str) -> (r: Option<String>)
    ensures
        r.deep_view() == payload_segment(token@),
{
    let v = chars_of(token);
    let a = find_char(&v, '.');
    if a == v.len() {
        return None;
    }
    let rest = tail_of(&v, a + 1);
    let b = find_char(&rest, '.');
    if b == rest.len() {
        return None;
    }
    let tail = tail_of(&rest, b + 1);
    if find_char(&tail, '.') != tail.len() {
        return None;
    }
    Some(text_of(&rest, 0, b))
}

/// The text claim `key` under the namespace `top_ns` of a token's payload,
/// read without verifying the token's signature.
pub fn parse_jwt_claim(token: &str, top_ns: &str, key: &str) -> (r: Option<String>)
    ensures
        r.deep_view() == claim_of(token@, top_ns@, key@),
{
    let payload = match jwt_payload(token) {
        Some(p) => p,
        None => {
            return None;
        },
    };
    let decoded = match base64_url_decode(payload.as_str().as_bytes()) {
        Some(d) => d,
        None => {
            return None;
        },
    };
    match parse_document_bytes(decoded.as_slice()) {
        Some(doc) => text_at2(&doc, top_ns, key),
        None => None,
    }
}

} // verus!
