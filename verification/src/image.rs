//! Image references: `data:image/...` URLs are brought to standard, padded
//! base64; every other URL is left as it is.

use vstd::prelude::*;
use vstd::string::StringExecFns;
use crate::digest::{base64_std_decode, base64_std_decoded, base64_url_decode, base64_url_decoded};
use crate::text::{
    chars_of, first_index_of, has_prefix, lemma_first_index_is_first,
    lemma_first_index_of, lemma_trimmed_fixed, lemma_trimmed_shape, text_of, trim_bounds, trimmed,
};

verus! {

/// What a data URL of an image begins with.
pub open spec fn data_image_prefix() -> Seq<char> {
    "data:image/"@
}

/// A character of the URL-safe alphabet as the standard alphabet has it.
pub open spec fn standard_alphabet(c: char) -> char {
    if c == '-' {
        '+'
    } else if c == '_' {
        '/'
    } else {
        c
    }
}

/// The payload without line breaks, in the standard alphabet.
pub open spec fn payload_chars(s: Seq<char>) -> Seq<char>
    decreases s.len(),
{
    if s.len() == 0 {
        Seq::empty()
    } else {
        let rest = payload_chars(s.drop_last());
        let c = s.last();
        if c == '\n' || c == '\r' {
            rest
        } else {
            rest.push(standard_alphabet(c))
        }
    }
}

/// How many `=` bring a length to a multiple of four.
pub open spec fn padding_for(len: nat) -> nat {
    ((4 - len % 4) % 4) as nat
}

/// The text followed by as many `=` as bring it to a multiple of four.
pub open spec fn padded(s: Seq<char>) -> Seq<char> {
    s + Seq::new(padding_for(s.len()), |i: int| '=')
}

/// The payload of a data URL, normalised: trimmed, without line breaks, in
/// the standard alphabet, padded.
pub open spec fn normalized_payload(data: Seq<char>) -> Seq<char> {
    padded(payload_chars(trimmed(data)))
}

/// The payload is base64 to one of the two engines.
pub open spec fn payload_decodes(p: Seq<char>) -> bool {
    let bytes = vstd::utf8::encode_utf8(p);
    base64_url_decoded(bytes) is Some || base64_std_decoded(bytes) is Some
}

/// The normal form of an image URL. A URL that is no image data URL, that has
/// no comma, or whose normalised payload is not base64 stands for itself.
pub open spec fn normalized_url(url: Seq<char>) -> Seq<char> {
    let k = first_index_of(url, ',');
    if !has_prefix(url, data_image_prefix()) || k == url.len() {
        url
    } else {
        let p = normalized_payload(url.skip(k + 1));
        if payload_decodes(p) {
            url.take(k) + seq![','] + p
        } else {
            url
        }
    }
}

/// `c` is none of the characters that normalising a payload removes or
/// replaces.
pub open spec fn is_settled_char(c: char) -> bool {
    c != '\n' && c != '\r' && c != '-' && c != '_'
}

/// What `payload_chars` gives holds no line break and no character of the
/// URL-safe alphabet alone.
proof fn lemma_payload_chars_settled(s: Seq<char>)
    ensures
        forall|i: int|
            0 <= i < payload_chars(s).len() ==> is_settled_char(#[trigger] payload_chars(s)[i]),
    decreases s.len(),
{
    if s.len() > 0 {
        let rest = payload_chars(s.drop_last());
        lemma_payload_chars_settled(s.drop_last());
        assert forall|i: int| 0 <= i < payload_chars(s).len() implies is_settled_char(
            #[trigger] payload_chars(s)[i],
        ) by {
            if i < rest.len() {
                assert(payload_chars(s)[i] == rest[i]);
            }
        }
    }
}

/// `payload_chars` leaves a text of settled characters as it is.
proof fn lemma_payload_chars_fixed(s: Seq<char>)
    requires
        forall|i: int| 0 <= i < s.len() ==> is_settled_char(#[trigger] s[i]),
    ensures
        payload_chars(s) == s,
    decreases s.len(),
{
    if s.len() > 0 {
        let t = s.drop_last();
        lemma_payload_chars_fixed(t);
    }
}

/// Where a text begins with a character that is no line break,
/// `payload_chars` begins with that character in the standard alphabet.
proof fn lemma_payload_chars_first(s: Seq<char>)
    requires
        s.len() > 0,
        s[0] != '\n' && s[0] != '\r',
    ensures
        payload_chars(s).len() > 0,
        payload_chars(s)[0] == standard_alphabet(s[0]),
    decreases s.len(),
{
    if s.len() > 1 {
        let t = s.drop_last();
        lemma_payload_chars_first(t);
    } else {
        assert(payload_chars(s.drop_last()).len() == 0);
    }
}

/// A normalised payload is its own normal form.
proof fn lemma_normalized_payload_fixed(data: Seq<char>)
    ensures
        normalized_payload(normalized_payload(data)) == normalized_payload(data),
        normalized_payload(data).len() % 4 == 0,
{
    let t = trimmed(data);
    let q = payload_chars(t);
    let p = padded(q);
    lemma_trimmed_shape(data);
    lemma_payload_chars_settled(t);
    if p.len() > 0 {
        lemma_payload_chars_first(t);
    }
    lemma_trimmed_fixed(p);
    lemma_payload_chars_fixed(p);
}

/// Normalising an image URL twice gives what normalising it once gives.
pub proof fn lemma_normalize_data_url_idempotent(url: Seq<char>)
    ensures
        normalized_url(normalized_url(url)) == normalized_url(url),
{
    let k = first_index_of(url, ',');
    let prefix = data_image_prefix();
    lemma_first_index_is_first(url, ',');
    if has_prefix(url, prefix) && k < url.len() {
        let p = normalized_payload(url.skip(k + 1));
        if payload_decodes(p) {
            let r = url.take(k) + seq![','] + p;
            reveal_strlit("data:image/");
            assert(k >= prefix.len()) by {
                if k < prefix.len() {
                    assert(url.take(prefix.len() as int)[k] == prefix[k]);
                }
            }
            lemma_first_index_of(r, ',', k);
            assert(r.skip(k + 1) =~= p);
            lemma_normalized_payload_fixed(url.skip(k + 1));
        }
    }
}

/// A URL that does not begin with `data:image/` is its own normal form.
pub proof fn lemma_other_urls_unchanged(url: Seq<char>)
    requires
        !has_prefix(url, data_image_prefix()),
    ensures
        normalized_url(url) == url,
{
}

/// Where normalising changes a URL, the result keeps what stood before the
/// first comma, and what follows the comma is a payload of a multiple of four
/// characters that one of the two base64 engines decodes.
pub proof fn lemma_normalized_payload_is_padded_base64(url: Seq<char>)
    ensures
        normalized_url(url) != url ==> {
            let k = first_index_of(url, ',');
            let r = normalized_url(url);
            &&& has_prefix(url, data_image_prefix())
            &&& k < url.len()
            &&& r.len() > k
            &&& r.take(k) == url.take(k)
            &&& r[k] == ','
            &&& r.skip(k + 1).len() % 4 == 0
            &&& payload_decodes(r.skip(k + 1))
        },
{
    let k = first_index_of(url, ',');
    lemma_first_index_is_first(url, ',');
    if normalized_url(url) != url {
        let p = normalized_payload(url.skip(k + 1));
        let r = url.take(k) + seq![','] + p;
        assert(r.skip(k + 1) =~= p);
        lemma_normalized_payload_fixed(url.skip(k + 1));
    }
}

/// Whether `v` begins with the characters of `prefix`.
pub fn starts_with(v: &Vec<char>, prefix: &str) -> (r: bool)
    ensures
        r == has_prefix(v@, prefix@),
{
    let p = chars_of(prefix);
    if p.len() > v.len() {
        return false;
    }
    let mut i: usize = 0;
    while i < p.len()
        invariant
            i <= p.len() <= v.len(),
            p@ == prefix@,
            v@.take(i as int) == p@.take(i as int),
        decreases p.len() - i,
    {
        if v[i] != p[i] {
            return false;
        }
        i += 1;
    }
    proof {
        assert(p@.take(p.len() as int) =~= p@);
    }
    true
}

/// The position of the first `c` in `v`, or the length of `v`.
pub fn find_char(v: &Vec<char>, c: char) -> (k: usize)
    ensures
        k <= v.len(),
        k == first_index_of(v@, c),
        k < v.len() ==> v@[k as int] == c,
{
    let mut k: usize = 0;
    while k < v.len() && v[k] != c
        invariant
            k <= v.len(),
            forall|i: int| 0 <= i < k ==> #[trigger] v@[i] != c,
        decreases v.len() - k,
    {
        k += 1;
    }
    proof {
        lemma_first_index_of(v@, c, k as int);
    }
    k
}

/// The normalised payload of the data `v[from..]`.
fn normalize_payload(v: &Vec<char>, from: usize) -> (p: String)
    requires
        from <= v.len(),
    ensures
        p@ == normalized_payload(v@.skip(from as int)),
{
    let mut data: Vec<char> = Vec::new();
    let mut j: usize = from;
    while j < v.len()
        invariant
            from <= j <= v.len(),
            data@ == v@.subrange(from as int, j as int),
        decreases v.len() - j,
    {
        data.push(v[j]);
        j += 1;
    }
    let (a, b) = trim_bounds(&data);
    let ghost t = trimmed(data@);
    let mut p = String::new();
    let mut n: usize = 0;
    let mut i: usize = a;
    while i < b
        invariant
            a <= i <= b <= data.len(),
            t == data@.subrange(a as int, b as int),
            p@ == payload_chars(t.take(i - a)),
            n == p@.len() % 4,
        decreases b - i,
    {
        let c = data[i];
        proof {
            assert(t.take(i - a + 1).drop_last() =~= t.take(i - a));
        }
        if c != '\n' && c != '\r' {
            let m = if c == '-' {
                '+'
            } else if c == '_' {
                '/'
            } else {
                c
            };
            p.push(m);
            n = (n + 1) % 4;
        }
        i += 1;
    }
    proof {
        assert(t.take(b - a) =~= t);
    }
    let ghost body = p@;
    let pad: usize = (4 - n) % 4;
    let mut q: usize = 0;
    while q < pad
        invariant
            q <= pad,
            pad == padding_for(body.len()),
            p@ == body + Seq::new(q as nat, |i: int| '='),
        decreases pad - q,
    {
        p.push('=');
        proof {
            assert(Seq::new(q as nat, |i: int| '=').push('=') =~= Seq::new(
                (q + 1) as nat,
                |i: int| '=',
            ));
        }
        q += 1;
    }
    p
}

/// The normal form of an image URL.
///
/// A `data:image/...` URL keeps what stands before its first comma; what
/// follows is trimmed, freed of line breaks, written in the standard base64
/// alphabet and padded with `=` to a multiple of four characters. Where
/// neither the URL-safe nor the standard engine decodes that payload, and for
/// every other URL, the result is the URL itself.
pub fn normalize_data_url(url: &str) -> (r: String)
    ensures
        r@ == normalized_url(url@),
{
    let v = chars_of(url);
    if !starts_with(&v, "data:image/") {
        return url.to_string();
    }
    let k = find_char(&v, ',');
    if k == v.len() {
        return url.to_string();
    }
    let p = normalize_payload(&v, k + 1);
    let url_safe = base64_url_decode(p.as_str().as_bytes());
    let accepted = if url_safe.is_some() {
        true
    } else {
        base64_std_decode(p.as_str().as_bytes()).is_some()
    };
    if !accepted {
        return url.to_string();
    }
    let mut r = text_of(&v, 0, k);
    r.push(',');
    r.append(p.as_str());
    r
}

} // verus!
