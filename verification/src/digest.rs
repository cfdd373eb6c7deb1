//! SHA-256, hexadecimal and base64 through the crates that implement them.

use vstd::prelude::*;
use base64::Engine;
use sha2::Digest;

verus! {

/// The SHA-256 digest of a byte string, as `sha2` computes it.
pub uninterp spec fn sha256(data: Seq<u8>) -> Seq<u8>;

/// What the URL-safe, unpadded base64 engine of `base64` decodes from the
/// bytes of a text, if it accepts them.
pub uninterp spec fn base64_url_decoded(input: Seq<u8>) -> Option<Seq<u8>>;

/// What the standard, padded base64 engine of `base64` decodes from the bytes
/// of a text, if it accepts them.
pub uninterp spec fn base64_std_decoded(input: Seq<u8>) -> Option<Seq<u8>>;

/// The URL-safe, unpadded base64 text that `base64` encodes bytes to.
pub uninterp spec fn base64_url_encoded(data: Seq<u8>) -> Seq<char>;

/// The sixteen lower-case hexadecimal digits, in order.
pub open spec fn hex_digits() -> Seq<char> {
    "0123456789abcdef"@
}

/// Two lower-case hexadecimal digits for each byte, the high half first.
pub open spec fn hex_lower(data: Seq<u8>) -> Seq<char> {
    Seq::new(
        2 * data.len(),
        |i: int|
            if i % 2 == 0 {
                hex_digits()[data[i / 2] as int / 16]
            } else {
                hex_digits()[data[i / 2] as int % 16]
            },
    )
}

/// `c` is one of `0`-`9`, `a`-`f`.
pub open spec fn is_hex_digit(c: char) -> bool {
    exists|n: int| 0 <= n < 16 && c == #[trigger] hex_digits()[n]
}

/// Every character of a hexadecimal encoding is a hexadecimal digit, and
/// there are two for each byte.
pub proof fn lemma_hex_lower_shape(data: Seq<u8>)
    ensures
        hex_lower(data).len() == 2 * data.len(),
        forall|i: int| 0 <= i < 2 * data.len() ==> is_hex_digit(#[trigger] hex_lower(data)[i]),
{
}

/// The bytes of an optional buffer.
pub open spec fn optional_bytes(r: Option<Vec<u8>>) -> Option<Seq<u8>> {
    match r {
        Some(v) => Some(v@),
        None => None,
    }
}

/// Computes `Sha256::digest` of `sha2`. The contract names the digest and
/// states its length, 32 bytes.
#[verifier::external_body]
pub(crate) fn sha256_digest(data: &[u8]) -> (r: Vec<u8>)
    ensures
        r@ == sha256(data@),
        r@.len() == 32,
{
    sha2::Sha256::digest(data).to_vec()
}

/// Calls `hex::encode`: two lower-case digits for each byte.
#[verifier::external_body]
pub(crate) fn hex_encode(data: &[u8]) -> (r: String)
    ensures
        r@ == hex_lower(data@),
{
    hex::encode(data)
}

/// Calls `decode` on `base64`'s `URL_SAFE_NO_PAD` engine. The contract names
/// the outcome.
#[verifier::external_body]
pub(crate) fn base64_url_decode(input: &[u8]) -> (r: Option<Vec<u8>>)
    ensures
        optional_bytes(r) == base64_url_decoded(input@),
{
    base64::engine::general_purpose::URL_SAFE_NO_PAD.decode(input).ok()
}

/// Calls `decode` on `base64`'s `STANDARD` engine. The contract names the
/// outcome.
#[verifier::external_body]
pub(crate) fn base64_std_decode(input: &[u8]) -> (r: Option<Vec<u8>>)
    ensures
        optional_bytes(r) == base64_std_decoded(input@),
{
    base64::engine::general_purpose::STANDARD.decode(input).ok()
}

/// Calls `encode` on `base64`'s `URL_SAFE_NO_PAD` engine, which panics only
/// where the encoded length does not fit in `usize`. The contract names the
/// text.
#[verifier::external_body]
pub(crate) fn base64_url_encode(data: &[u8]) -> (r: String)
    requires
        data@.len() <= 0x1000_0000,
    ensures
        r@ == base64_url_encoded(data@),
{
    base64::engine::general_purpose::URL_SAFE_NO_PAD.encode(data)
}

} // verus!
