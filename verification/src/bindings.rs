//! The calls into std and into the outside crates that the library's verified
//! code makes. Each item states what the called function
//! does as far as its source and documentation show it; nothing here is proved.
use base64::engine::general_purpose::URL_SAFE_NO_PAD;
use base64::Engine;
use hmac::{Hmac, Mac};
use sha2::Sha256;
use vstd::prelude::*;
use vstd::utf8::{decode_utf8, encode_utf8, valid_utf8};

verus! {

/// The characters of the URL-safe base64 alphabet: `A`-`Z`, `a`-`z`, `0`-`9`, `-` and `_`.
pub open spec fn is_url_safe_b64(c: char) -> bool {
    ||| ('A' <= c && c <= 'Z')
    ||| ('a' <= c && c <= 'z')
    ||| ('0' <= c && c <= '9')
    ||| c == '-'
    ||| c == '_'
}

/// What `base64`'s `URL_SAFE_NO_PAD` engine encodes `bytes` to.
pub uninterp spec fn b64url_encode(bytes: Seq<u8>) -> Seq<char>;

/// What `base64`'s `URL_SAFE_NO_PAD` engine decodes `input` to, `None` where it refuses the input.
pub uninterp spec fn b64url_decode(input: Seq<u8>) -> Option<Seq<u8>>;

/// The HMAC-SHA256 tag of `msg` under `key`.
pub uninterp spec fn hmac_sha256_tag(key: Seq<u8>, msg: Seq<u8>) -> Seq<u8>;

/// What `str::to_lowercase` gives for `s`.
pub uninterp spec fn lowercase(s: Seq<char>) -> Seq<char>;

/// What `str::to_uppercase` gives for `s`.
pub uninterp spec fn uppercase(s: Seq<char>) -> Seq<char>;

/// `String::push`: appends one character.
#[verifier::external_body]
pub(crate) fn push_char(s: &mut String, c: char)
    ensures
        final(s)@ == old(s)@.push(c),
{
    s.push(c);
}

/// `base64::Engine::encode` with the URL-safe alphabet and no padding.
/// Claims: the result is `b64url_encode(bytes)`, four characters for every
/// three bytes with the last group cut short rather than padded, it holds
/// characters of the URL-safe alphabet only, and the same engine decodes its bytes back to
/// `bytes` (no padding is written, and none is accepted on decoding).
/// The length bound keeps the engine's output-size computation from overflowing.
#[verifier::external_body]
pub(crate) fn b64url_encode_bytes(bytes: &[u8]) -> (r: String)
    requires
        bytes@.len() <= usize::MAX / 2,
    ensures
        r@ == b64url_encode(bytes@),
        r@.len() == (bytes@.len() * 4 + 2) / 3,
        forall|i: int| 0 <= i < r@.len() ==> is_url_safe_b64(#[trigger] r@[i]),
        b64url_decode(encode_utf8(r@)) == Some(bytes@),
{
    URL_SAFE_NO_PAD.encode(bytes)
}

/// `base64::Engine::decode` with the URL-safe alphabet and no padding;
/// the decode error becomes `None`. Claims: the result is `b64url_decode(input)`.
#[verifier::external_body]
pub(crate) fn b64url_decode_bytes(input: &[u8]) -> (r: Option<Vec<u8>>)
    ensures
        r matches Some(v) ==> b64url_decode(input@) == Some(v@),
        r is None ==> b64url_decode(input@) is None,
{
    URL_SAFE_NO_PAD.decode(input).ok()
}

/// HMAC-SHA256 from the `hmac` and `sha2` crates: a MAC keyed with `key`
/// (`Mac::new_from_slice`, which accepts a key of any length), fed `msg`
/// (`Mac::update`), and finalized (`Mac::finalize`, `into_bytes`).
/// Claims: the result is the tag `hmac_sha256_tag(key, msg)` and is 32 bytes long.
#[verifier::external_body]
pub(crate) fn hmac_sha256(key: &[u8], msg: &[u8]) -> (r: Vec<u8>)
    ensures
        r@ == hmac_sha256_tag(key@, msg@),
        r@.len() == 32,
{
    let mut mac = <Hmac<Sha256> as Mac>::new_from_slice(key).expect("HMAC accepts any key length");
    mac.update(msg);
    mac.finalize().into_bytes().to_vec()
}

/// `String::from_utf8`; the error becomes `None`. Claims, as std documents
/// it: the bytes are accepted exactly when they are valid UTF-8, and the
/// string then holds the characters they encode.
#[verifier::external_body]
pub(crate) fn string_from_utf8(bytes: Vec<u8>) -> (r: Option<String>)
    ensures
        r is Some <==> valid_utf8(bytes@),
        r matches Some(s) ==> s@ == decode_utf8(bytes@),
{
    String::from_utf8(bytes).ok()
}

/// Whole seconds since the UNIX epoch, from `SystemTime::now` and
/// `SystemTime::duration_since(UNIX_EPOCH)`; `None` where the clock reads a
/// time before the epoch, which `duration_since` reports as an error. Nothing
/// is claimed of the value: it is the machine's clock.
#[verifier::external_body]
pub fn now_secs() -> Option<u64> {
    match std::time::SystemTime::now().duration_since(std::time::UNIX_EPOCH) {
        Ok(d) => Some(d.as_secs()),
        Err(_) => None,
    }
}

/// `str::to_lowercase`. Claims: the result is `lowercase(s)`.
#[verifier::external_body]
pub(crate) fn to_lowercase(s: &str) -> (r: String)
    ensures
        r@ == lowercase(s@),
{
    s.to_lowercase()
}

/// `str::to_uppercase`. Claims: the result is `uppercase(s)`.
#[verifier::external_body]
pub(crate) fn to_uppercase(s: &str) -> (r: String)
    ensures
        r@ == uppercase(s@),
{
    s.to_uppercase()
}

} // verus!
