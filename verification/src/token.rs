//! Signed, time-limited segment access tokens.
//!
//! A token binds a subject, a resource, a scope and a segment path to an
//! expiry time. Its payload is the five fields joined by `|`; the signed form
//! is the URL-safe base64 (no padding) of `payload.signature`, where the
//! signature is the URL-safe base64 of the HMAC-SHA256 of the payload under
//! the secret. Verification decodes, checks the signature in constant time,
//! splits the payload and checks the expiry.
use crate::bindings::{b64url_decode, b64url_decode_bytes, b64url_encode, b64url_encode_bytes, hmac_sha256, hmac_sha256_tag, is_url_safe_b64, now_secs, string_from_utf8};
use crate::text::{append, chars_of, dec, has_char, lemma_dec, lemma_digits_lack, lemma_parse_dec, lemma_split_nonempty, parse_u64, parse_u64_chars, split, split_chars, string_of, u64_digits, is_digit};
use vstd::prelude::*;
use vstd::utf8::{decode_utf8, encode_utf8, valid_utf8};

verus! {

broadcast use vstd::utf8::group_utf8_lib;

/// A signed, time-limited token for segment access.
///
/// The caller decides what `subject`, `resource` and `scope` mean, e.g.
/// person, film and platform, or `"public"`, video and `"default"`.
#[derive(Debug, Clone)]
pub struct SegmentToken {
    pub subject: String,
    pub resource: String,
    pub scope: String,
    pub segment_path: String,
    pub expires_at: u64,
}

/// Why a token was refused.
#[derive(Debug, Clone, Copy, PartialEq, Eq, Structural)]
pub enum TokenError {
    InvalidFormat,
    InvalidSignature,
    Expired,
}

/// The fields a token carries, as character sequences.
pub struct TokenFields {
    pub subject: Seq<char>,
    pub resource: Seq<char>,
    pub scope: Seq<char>,
    pub segment_path: Seq<char>,
    pub expires_at: u64,
}

impl SegmentToken {
    /// The fields of this token.
    pub open spec fn fields(&self) -> TokenFields {
        TokenFields {
            subject: self.subject@,
            resource: self.resource@,
            scope: self.scope@,
            segment_path: self.segment_path@,
            expires_at: self.expires_at,
        }
    }
}

/// Total number of characters in the text fields.
pub open spec fn text_len(f: TokenFields) -> nat {
    f.subject.len() + f.resource.len() + f.scope.len() + f.segment_path.len()
}

/// Largest total length of the text fields that a token can be signed with,
/// as the base64 encoder's limit gives it: the encoder takes at most
/// `usize::MAX / 2` bytes, and the signed text of a token has at most four
/// bytes for each character of its text fields, plus 272 for the four
/// separators, the twenty digits of the expiry, the dot and the 43 characters
/// of the signature.
pub const MAX_TOKEN_TEXT: usize = (usize::MAX / 2 - 272) / 4;

/// Whether the text fields are short enough to sign.
pub open spec fn signable(f: TokenFields) -> bool {
    text_len(f) <= MAX_TOKEN_TEXT
}

/// Whether no text field holds the separator `|`; only such tokens read
/// back as the fields they were signed with.
pub open spec fn separable(f: TokenFields) -> bool {
    &&& !has_char(f.subject, '|')
    &&& !has_char(f.resource, '|')
    &&& !has_char(f.scope, '|')
    &&& !has_char(f.segment_path, '|')
}

/// The payload: the five fields joined by `|`, the expiry in decimal.
pub open spec fn payload(f: TokenFields) -> Seq<char> {
    f.subject + seq!['|'] + f.resource + seq!['|'] + f.scope + seq!['|'] + f.segment_path
        + seq!['|'] + dec(f.expires_at as nat)
}

/// The signature of `payload` under `secret`: base64 of its HMAC-SHA256 tag.
pub open spec fn signature(payload: Seq<char>, secret: Seq<char>) -> Seq<char> {
    b64url_encode(hmac_sha256_tag(encode_utf8(secret), encode_utf8(payload)))
}

/// The signed form of a token with fields `f`.
pub open spec fn signed(f: TokenFields, secret: Seq<char>) -> Seq<char> {
    b64url_encode(encode_utf8(payload(f) + seq!['.'] + signature(payload(f), secret)))
}

/// Whether `token` verifies under `secret` as exactly `f` at every time up
/// to its expiry, and is refused as expired at every time after it.
pub open spec fn verifies_as(token: Seq<char>, secret: Seq<char>, f: TokenFields) -> bool {
    forall|now: u64|
        #[trigger] verify_result(encode_utf8(token), secret, now) == (if now <= f.expires_at {
            Ok::<TokenFields, TokenError>(f)
        } else {
            Err::<TokenFields, TokenError>(TokenError::Expired)
        })
}

/// Index of the last `c` in `s`, or -1.
pub open spec fn last_index(s: Seq<char>, c: char) -> int
    decreases s.len(),
{
    if s.len() == 0 {
        -1
    } else if s.last() == c {
        s.len() - 1
    } else {
        last_index(s.drop_last(), c)
    }
}

/// `str::rsplit_once(c)`: the text before and after the last `c`.
pub open spec fn rsplit_once(s: Seq<char>, c: char) -> Option<(Seq<char>, Seq<char>)> {
    let i = last_index(s, c);
    if i < 0 {
        None
    } else {
        Some((s.take(i), s.skip(i + 1)))
    }
}

/// What verifying the token whose text has the bytes `token` gives at time
/// `now`: the fields it carries, or why it is refused.
pub open spec fn verify_result(token: Seq<u8>, secret: Seq<char>, now: u64) -> Result<
    TokenFields,
    TokenError,
> {
    match b64url_decode(token) {
        None => Err(TokenError::InvalidFormat),
        Some(bytes) => if !valid_utf8(bytes) {
            Err(TokenError::InvalidFormat)
        } else {
            match rsplit_once(decode_utf8(bytes), '.') {
                None => Err(TokenError::InvalidFormat),
                Some((p, sig)) => if sig != signature(p, secret) {
                    Err(TokenError::InvalidSignature)
                } else {
                    let parts = split(p, '|');
                    if parts.len() != 5 {
                        Err(TokenError::InvalidFormat)
                    } else {
                        match parse_u64(parts[4]) {
                            None => Err(TokenError::InvalidFormat),
                            Some(exp) => if now > exp {
                                Err(TokenError::Expired)
                            } else {
                                Ok(
                                    TokenFields {
                                        subject: parts[0],
                                        resource: parts[1],
                                        scope: parts[2],
                                        segment_path: parts[3],
                                        expires_at: exp,
                                    },
                                )
                            },
                        }
                    }
                },
            }
        },
    }
}

} // verus!

verus! {

pub proof fn lemma_utf8_len(s: Seq<char>)
    ensures
        encode_utf8(s).len() <= 4 * s.len(),
    decreases s.len(),
{
    if s.len() > 0 {
        lemma_utf8_len(s.drop_first());
    }
}

/// Splitting text that holds no separator gives the text itself.
pub proof fn lemma_split_plain(a: Seq<char>, c: char)
    requires
        !has_char(a, c),
    ensures
        split(a, c) == seq![a],
    decreases a.len(),
{
    if a.len() > 0 {
        assert(!has_char(a.drop_first(), c)) by {
            if has_char(a.drop_first(), c) {
                let i = choose|i: int| 0 <= i < a.drop_first().len() && a.drop_first()[i] == c;
                assert(a[i + 1] == c);
            }
        }
        lemma_split_plain(a.drop_first(), c);
        assert(a[0] != c);
        assert(seq![a[0]] + a.drop_first() =~= a);
        assert(split(a, c) =~= seq![a]);
    } else {
        assert(a =~= Seq::<char>::empty());
    }
}

/// Splitting `a c b`, where `a` holds no `c`, gives `a` and then the pieces of `b`.
pub proof fn lemma_split_concat(a: Seq<char>, b: Seq<char>, c: char)
    requires
        !has_char(a, c),
    ensures
        split(a + seq![c] + b, c) == seq![a] + split(b, c),
    decreases a.len(),
{
    let s = a + seq![c] + b;
    lemma_split_nonempty(b, c);
    if a.len() == 0 {
        assert(s.drop_first() =~= b);
        assert(a =~= Seq::<char>::empty());
    } else {
        let a1 = a.drop_first();
        assert(!has_char(a1, c)) by {
            if has_char(a1, c) {
                let i = choose|i: int| 0 <= i < a1.len() && a1[i] == c;
                assert(a[i + 1] == c);
            }
        }
        lemma_split_concat(a1, b, c);
        assert(s.drop_first() =~= a1 + seq![c] + b);
        assert(s[0] == a[0] && a[0] != c);
        assert(seq![a[0]] + a1 =~= a);
        assert(split(s, c) =~= seq![a] + split(b, c));
    }
}

/// The last `c` in `a c b`, where `b` holds no `c`, is the one after `a`.
pub proof fn lemma_last_index(a: Seq<char>, b: Seq<char>, c: char)
    requires
        !has_char(b, c),
    ensures
        last_index(a + seq![c] + b, c) == a.len(),
    decreases b.len(),
{
    let s = a + seq![c] + b;
    if b.len() == 0 {
        assert(s.last() == c);
    } else {
        assert(b.last() != c);
        assert(s.drop_last() =~= a + seq![c] + b.drop_last());
        assert(!has_char(b.drop_last(), c)) by {
            if has_char(b.drop_last(), c) {
                let i = choose|i: int| 0 <= i < b.drop_last().len() && b.drop_last()[i] == c;
                assert(b[i] == c);
            }
        }
        lemma_last_index(a, b.drop_last(), c);
    }
}

/// The text before and after the last `c` in `s`.
pub fn rsplit_once_chars(s: &[char], c: char) -> (r: Option<(Vec<char>, Vec<char>)>)
    ensures
        match r {
            None => rsplit_once(s@, c) is None,
            Some((a, b)) => rsplit_once(s@, c) == Some((a@, b@)),
        },
{
    let mut i = s.len();
    assert(s@.subrange(0, s@.len() as int) =~= s@);
    while i > 0 && s[i - 1] != c
        invariant
            i <= s@.len(),
            last_index(s@, c) == last_index(s@.subrange(0, i as int), c),
        decreases i,
    {
        assert(s@.subrange(0, i as int).drop_last() =~= s@.subrange(0, i - 1));
        i = i - 1;
    }
    if i == 0 {
        assert(s@.subrange(0, 0).len() == 0);
        None
    } else {
        assert(s@.subrange(0, i as int).last() == c);
        let a = crate::text::copy_range(s, 0, i - 1);
        let b = crate::text::copy_range(s, i, s.len());
        assert(s@.take(i - 1) =~= a@);
        assert(s@.skip(i as int) =~= b@);
        Some((a, b))
    }
}

/// Whether `a` and `b` are equal, in time that depends on their length only.
pub fn constant_time_eq(a: &[u8], b: &[u8]) -> (r: bool)
    ensures
        r == (a@ == b@),
{
    if a.len() != b.len() {
        return false;
    }
    let mut acc: u8 = 0;
    let mut i: usize = 0;
    while i < a.len()
        invariant
            a@.len() == b@.len(),
            i <= a@.len(),
            (acc == 0) <==> (forall|k: int| 0 <= k < i ==> a@[k] == b@[k]),
        decreases a.len() - i,
    {
        let x = a[i];
        let y = b[i];
        let next: u8 = acc | (x ^ y);
        assert((next == 0) <==> (acc == 0 && x == y)) by (bit_vector)
            requires
                next == acc | (x ^ y),
        ;
        acc = next;
        i = i + 1;
    }
    if acc == 0 {
        assert(a@ =~= b@);
        true
    } else {
        false
    }
}

impl SegmentToken {
    /// The payload text `subject|resource|scope|segment_path|expires_at`.
    pub fn to_payload(&self) -> (r: String)
        ensures
            r@ == payload(self.fields()),
    {
        let mut p = chars_of(self.subject.as_str());
        p.push('|');
        append(&mut p, chars_of(self.resource.as_str()).as_slice());
        p.push('|');
        append(&mut p, chars_of(self.scope.as_str()).as_slice());
        p.push('|');
        append(&mut p, chars_of(self.segment_path.as_str()).as_slice());
        p.push('|');
        append(&mut p, u64_digits(self.expires_at).as_slice());
        assert(p@ =~= payload(self.fields()));
        string_of(p.as_slice())
    }
}

/// Base64 of the HMAC-SHA256 tag of `payload` under `secret`.
pub fn compute_signature(payload: &str, secret: &str) -> (r: String)
    ensures
        r@ == signature(payload@, secret@),
        r@.len() == 43,
        forall|i: int| 0 <= i < r@.len() ==> is_url_safe_b64(#[trigger] r@[i]),
{
    let tag = hmac_sha256(secret.as_bytes(), payload.as_bytes());
    b64url_encode_bytes(tag.as_slice())
}

} // verus!

verus! {

pub open spec fn pow10(k: nat) -> nat
    decreases k,
{
    if k == 0 {
        1
    } else {
        10 * pow10((k - 1) as nat)
    }
}

proof fn lemma_dec_len(n: nat, k: nat)
    requires
        k >= 1,
        n < pow10(k),
    ensures
        dec(n).len() <= k,
    decreases k,
{
    if n >= 10 {
        assert(k >= 2) by {
            if k == 1 {
                assert(pow10(1) == 10 * pow10(0));
            }
        }
        assert(n / 10 < pow10((k - 1) as nat)) by (nonlinear_arith)
            requires
                n < pow10(k),
                pow10(k) == 10 * pow10((k - 1) as nat),
        ;
        lemma_dec_len(n / 10, (k - 1) as nat);
    }
}

/// A 64-bit number has at most twenty decimal digits.
proof fn lemma_dec_u64_len(n: u64)
    ensures
        dec(n as nat).len() <= 20,
{
    reveal_with_fuel(pow10, 21);
    assert(pow10(20) == 100000000000000000000nat);
    lemma_dec_len(n as nat, 20);
}

/// The payload of a separable token splits on `|` into its five fields.
pub proof fn lemma_payload_split(f: TokenFields)
    requires
        separable(f),
    ensures
        split(payload(f), '|') == seq![
            f.subject,
            f.resource,
            f.scope,
            f.segment_path,
            dec(f.expires_at as nat),
        ],
{
    let d = dec(f.expires_at as nat);
    lemma_dec(f.expires_at as nat);
    assert(!is_digit('|'));
    lemma_digits_lack(d, '|');
    lemma_split_plain(d, '|');
    let t3 = f.segment_path + seq!['|'] + d;
    lemma_split_concat(f.segment_path, d, '|');
    let t2 = f.scope + seq!['|'] + t3;
    lemma_split_concat(f.scope, t3, '|');
    let t1 = f.resource + seq!['|'] + t2;
    lemma_split_concat(f.resource, t2, '|');
    let t0 = f.subject + seq!['|'] + t1;
    lemma_split_concat(f.subject, t1, '|');
    assert(payload(f) =~= t0);
    assert(split(payload(f), '|') =~= seq![f.subject, f.resource, f.scope, f.segment_path, d]);
}

/// A token whose signed text decodes to `payload.signature` verifies as its
/// own fields at every time up to its expiry, and as expired after it.
pub proof fn lemma_signed_verifies(f: TokenFields, secret: Seq<char>, token: Seq<char>, now: u64)
    requires
        separable(f),
        forall|i: int|
            0 <= i < signature(payload(f), secret).len() ==> is_url_safe_b64(
                #[trigger] signature(payload(f), secret)[i],
            ),
        b64url_decode(encode_utf8(token)) == Some(
            encode_utf8(payload(f) + seq!['.'] + signature(payload(f), secret)),
        ),
    ensures
        now <= f.expires_at ==> verify_result(encode_utf8(token), secret, now) == Ok::<
            TokenFields,
            TokenError,
        >(f),
        now > f.expires_at ==> verify_result(encode_utf8(token), secret, now) == Err::<
            TokenFields,
            TokenError,
        >(TokenError::Expired),
{
    let p = payload(f);
    let sig = signature(p, secret);
    let raw = p + seq!['.'] + sig;
    assert(decode_utf8(encode_utf8(raw)) == raw);
    assert(!has_char(sig, '.')) by {
        if has_char(sig, '.') {
            let i = choose|i: int| 0 <= i < sig.len() && sig[i] == '.';
            assert(is_url_safe_b64(sig[i]));
        }
    }
    lemma_last_index(p, sig, '.');
    assert(raw.take(p.len() as int) =~= p);
    assert(raw.skip(p.len() as int + 1) =~= sig);
    assert(rsplit_once(raw, '.') == Some((p, sig)));
    lemma_payload_split(f);
    lemma_parse_dec(f.expires_at);
    let parts = split(p, '|');
    assert(parts[4] == dec(f.expires_at as nat));
}

/// Splitting `a c b` on `c` gives as many pieces as splitting `a` and `b` together.
proof fn lemma_split_concat_len(a: Seq<char>, b: Seq<char>, c: char)
    ensures
        split(a + seq![c] + b, c).len() == split(a, c).len() + split(b, c).len(),
    decreases a.len(),
{
    let s = a + seq![c] + b;
    lemma_split_nonempty(b, c);
    if a.len() == 0 {
        assert(s.drop_first() =~= b);
    } else {
        let a1 = a.drop_first();
        lemma_split_concat_len(a1, b, c);
        lemma_split_nonempty(a1, c);
        lemma_split_nonempty(s.drop_first(), c);
        assert(s.drop_first() =~= a1 + seq![c] + b);
        assert(s[0] == a[0]);
    }
}

/// Text that holds `c` splits on it into at least two pieces.
proof fn lemma_split_has(a: Seq<char>, c: char)
    requires
        has_char(a, c),
    ensures
        split(a, c).len() >= 2,
    decreases a.len(),
{
    let a1 = a.drop_first();
    lemma_split_nonempty(a1, c);
    if a[0] != c {
        assert(has_char(a1, c)) by {
            let i = choose|i: int| 0 <= i < a.len() && a[i] == c;
            assert(a1[i - 1] == c);
        }
        lemma_split_has(a1, c);
    }
}

/// The payload of a token whose text fields hold `|` does not split into five fields.
proof fn lemma_payload_unsplit(f: TokenFields)
    requires
        !separable(f),
    ensures
        split(payload(f), '|').len() > 5,
{
    let d = dec(f.expires_at as nat);
    let t3 = f.segment_path + seq!['|'] + d;
    let t2 = f.scope + seq!['|'] + t3;
    let t1 = f.resource + seq!['|'] + t2;
    let t0 = f.subject + seq!['|'] + t1;
    assert(payload(f) =~= t0);
    lemma_split_concat_len(f.segment_path, d, '|');
    lemma_split_concat_len(f.scope, t3, '|');
    lemma_split_concat_len(f.resource, t2, '|');
    lemma_split_concat_len(f.subject, t1, '|');
    lemma_split_nonempty(f.subject, '|');
    lemma_split_nonempty(f.resource, '|');
    lemma_split_nonempty(f.scope, '|');
    lemma_split_nonempty(f.segment_path, '|');
    lemma_split_nonempty(d, '|');
    if has_char(f.subject, '|') {
        lemma_split_has(f.subject, '|');
    } else if has_char(f.resource, '|') {
        lemma_split_has(f.resource, '|');
    } else if has_char(f.scope, '|') {
        lemma_split_has(f.scope, '|');
    } else {
        lemma_split_has(f.segment_path, '|');
    }
}

/// A token whose signed text decodes to `payload.signature` but whose text
/// fields hold `|` carries a valid signature and is still refused as
/// malformed, at every time.
pub proof fn lemma_signed_unseparable(f: TokenFields, secret: Seq<char>, token: Seq<char>, now: u64)
    requires
        !separable(f),
        forall|i: int|
            0 <= i < signature(payload(f), secret).len() ==> is_url_safe_b64(
                #[trigger] signature(payload(f), secret)[i],
            ),
        b64url_decode(encode_utf8(token)) == Some(
            encode_utf8(payload(f) + seq!['.'] + signature(payload(f), secret)),
        ),
    ensures
        verify_result(encode_utf8(token), secret, now) == Err::<TokenFields, TokenError>(
            TokenError::InvalidFormat,
        ),
{
    let p = payload(f);
    let sig = signature(p, secret);
    let raw = p + seq!['.'] + sig;
    assert(decode_utf8(encode_utf8(raw)) == raw);
    assert(!has_char(sig, '.')) by {
        if has_char(sig, '.') {
            let i = choose|i: int| 0 <= i < sig.len() && sig[i] == '.';
            assert(is_url_safe_b64(sig[i]));
        }
    }
    lemma_last_index(p, sig, '.');
    assert(raw.take(p.len() as int) =~= p);
    assert(raw.skip(p.len() as int + 1) =~= sig);
    assert(rsplit_once(raw, '.') == Some((p, sig)));
    lemma_payload_unsplit(f);
}

impl SegmentToken {
    /// Signs the token with `secret` and returns its URL-safe base64 text.
    ///
    /// The text uses the URL-safe base64 alphabet only and decodes to the
    /// payload, a dot and the signature. A token whose text fields hold no `|`
    /// verifies, with the same secret and at any time up to its expiry, as
    /// exactly its own fields; after its expiry it is refused as expired. A
    /// token whose text fields hold `|` is refused as malformed at every time,
    /// though its signature is valid.
    pub fn sign(&self, secret: &str) -> (r: String)
        requires
            signable(self.fields()),
        ensures
            r@ == signed(self.fields(), secret@),
            separable(self.fields()) ==> forall|now: u64|
                now <= self.expires_at ==> verify_result(encode_utf8(r@), secret@, now) == Ok::<
                    TokenFields,
                    TokenError,
                >(self.fields()),
            separable(self.fields()) ==> forall|now: u64|
                now > self.expires_at ==> verify_result(encode_utf8(r@), secret@, now) == Err::<
                    TokenFields,
                    TokenError,
                >(TokenError::Expired),
            separable(self.fields()) ==> verifies_as(signed(self.fields(), secret@), secret@, self.fields()),
            !separable(self.fields()) ==> forall|now: u64|
                verify_result(encode_utf8(r@), secret@, now) == Err::<TokenFields, TokenError>(
                    TokenError::InvalidFormat,
                ),
            forall|i: int| 0 <= i < r@.len() ==> is_url_safe_b64(#[trigger] r@[i]),
            b64url_decode(encode_utf8(r@)) == Some(
                encode_utf8(
                    payload(self.fields()) + seq!['.'] + signature(payload(self.fields()), secret@),
                ),
            ),
    {
        let ghost f = self.fields();
        let text = self.to_payload();
        let sig = compute_signature(text.as_str(), secret);
        let mut raw = chars_of(text.as_str());
        raw.push('.');
        append(&mut raw, chars_of(sig.as_str()).as_slice());
        let ghost rv = payload(f) + seq!['.'] + signature(payload(f), secret@);
        assert(raw@ =~= rv);
        let raw_text = string_of(raw.as_slice());
        let bytes = raw_text.as_str().as_bytes();
        proof {
            lemma_dec_u64_len(self.expires_at);
            lemma_utf8_len(rv);
            assert(bytes@.len() <= usize::MAX / 2);
        }
        let r = b64url_encode_bytes(bytes);
        proof {
            if separable(f) {
                assert forall|now: u64| now <= self.expires_at implies verify_result(
                    encode_utf8(r@),
                    secret@,
                    now,
                ) == Ok::<TokenFields, TokenError>(f) by {
                    lemma_signed_verifies(f, secret@, r@, now);
                }
                assert forall|now: u64| now > self.expires_at implies verify_result(
                    encode_utf8(r@),
                    secret@,
                    now,
                ) == Err::<TokenFields, TokenError>(TokenError::Expired) by {
                    lemma_signed_verifies(f, secret@, r@, now);
                }
                assert forall|now: u64| #[trigger] verify_result(encode_utf8(signed(f, secret@)), secret@, now)
                    == (if now <= f.expires_at {
                    Ok::<TokenFields, TokenError>(f)
                } else {
                    Err::<TokenFields, TokenError>(TokenError::Expired)
                }) by {
                    lemma_signed_verifies(f, secret@, r@, now);
                }
            } else {
                assert forall|now: u64| verify_result(encode_utf8(r@), secret@, now) == Err::<
                    TokenFields,
                    TokenError,
                >(TokenError::InvalidFormat) by {
                    lemma_signed_unseparable(f, secret@, r@, now);
                }
            }
        }
        r
    }
}

} // verus!

verus! {

/// The time a token is issued at, from a clock reading: a clock that reads
/// before the epoch counts as the epoch itself, so what is issued then has
/// long expired for any clock that reads correctly.
pub fn issue_time(reading: Option<u64>) -> (t: u64)
    ensures
        t == match reading {
            Some(s) => s,
            None => 0,
        },
{
    match reading {
        Some(s) => s,
        None => 0,
    }
}

/// The time a token is checked at, from a clock reading: a clock that reads
/// before the epoch counts as the last representable time, so that only a
/// token that never expires is accepted then.
pub fn check_time(reading: Option<u64>) -> (t: u64)
    ensures
        t == match reading {
            Some(s) => s,
            None => u64::MAX,
        },
{
    match reading {
        Some(s) => s,
        None => u64::MAX,
    }
}

/// The fields of a verification outcome.
pub open spec fn outcome(r: Result<SegmentToken, TokenError>) -> Result<TokenFields, TokenError> {
    match r {
        Ok(t) => Ok(t.fields()),
        Err(e) => Err(e),
    }
}

/// Saturating sum of a time and a lifetime.
pub open spec fn expiry(now: u64, ttl: u64) -> u64 {
    if now + ttl <= u64::MAX {
        (now + ttl) as u64
    } else {
        u64::MAX
    }
}

/// The fields of a token made from these arguments.
pub open spec fn token_fields(
    subject: Seq<char>,
    resource: Seq<char>,
    scope: Seq<char>,
    segment_path: Seq<char>,
    expires_at: u64,
) -> TokenFields {
    TokenFields { subject, resource, scope, segment_path, expires_at }
}

impl SegmentToken {
    /// A token with the given fields that expires `ttl_secs` after `now`,
    /// or at the largest representable time when that sum does not fit.
    pub fn new_at(
        subject: &str,
        resource: &str,
        scope: &str,
        segment_path: &str,
        ttl_secs: u64,
        now: u64,
    ) -> (r: Self)
        ensures
            r.fields() == token_fields(
                subject@,
                resource@,
                scope@,
                segment_path@,
                expiry(now, ttl_secs),
            ),
    {
        let expires_at = match now.checked_add(ttl_secs) {
            Some(t) => t,
            None => u64::MAX,
        };
        SegmentToken {
            subject: string_of(chars_of(subject).as_slice()),
            resource: string_of(chars_of(resource).as_slice()),
            scope: string_of(chars_of(scope).as_slice()),
            segment_path: string_of(chars_of(segment_path).as_slice()),
            expires_at,
        }
    }

    /// A token with the given fields that expires `ttl_secs` from now; a
    /// clock that reads before the epoch counts as the epoch (`issue_time`).
    pub fn new(
        subject: &str,
        resource: &str,
        scope: &str,
        segment_path: &str,
        ttl_secs: u64,
    ) -> (r: Self)
        ensures
            exists|now: u64|
                r.fields() == token_fields(
                    subject@,
                    resource@,
                    scope@,
                    segment_path@,
                    #[trigger] expiry(now, ttl_secs),
                ),
    {
        let now = issue_time(now_secs());
        let r = Self::new_at(subject, resource, scope, segment_path, ttl_secs, now);
        assert(r.fields() == token_fields(subject@, resource@, scope@, segment_path@, expiry(now, ttl_secs)));
        r
    }

    /// Decodes and checks a signed token at time `now`.
    pub fn verify_at(token_str: &str, secret: &str, now: u64) -> (r: Result<Self, TokenError>)
        ensures
            outcome(r) == verify_result(encode_utf8(token_str@), secret@, now),
    {
        let decoded = match b64url_decode_bytes(token_str.as_bytes()) {
            Some(d) => d,
            None => return Err(TokenError::InvalidFormat),
        };
        let raw = match string_from_utf8(decoded) {
            Some(s) => s,
            None => return Err(TokenError::InvalidFormat),
        };
        let raw_chars = chars_of(raw.as_str());
        let (p, sig) = match rsplit_once_chars(raw_chars.as_slice(), '.') {
            Some(x) => x,
            None => return Err(TokenError::InvalidFormat),
        };
        let p_text = string_of(p.as_slice());
        let expected = compute_signature(p_text.as_str(), secret);
        let sig_text = string_of(sig.as_slice());
        let same = constant_time_eq(sig_text.as_str().as_bytes(), expected.as_str().as_bytes());
        proof {
            if same {
                assert(decode_utf8(encode_utf8(sig@)) == sig@);
                assert(decode_utf8(encode_utf8(expected@)) == expected@);
            }
        }
        if !same {
            return Err(TokenError::InvalidSignature);
        }
        let parts = split_chars(p.as_slice(), '|');
        if parts.len() != 5 {
            return Err(TokenError::InvalidFormat);
        }
        assert(parts@[4]@ == split(p@, '|')[4]);
        let exp = match parse_u64_chars(parts[4].as_slice()) {
            Some(v) => v,
            None => return Err(TokenError::InvalidFormat),
        };
        if now > exp {
            return Err(TokenError::Expired);
        }
        let r = SegmentToken {
            subject: string_of(parts[0].as_slice()),
            resource: string_of(parts[1].as_slice()),
            scope: string_of(parts[2].as_slice()),
            segment_path: string_of(parts[3].as_slice()),
            expires_at: exp,
        };
        assert(parts@[0]@ == split(p@, '|')[0]);
        assert(parts@[1]@ == split(p@, '|')[1]);
        assert(parts@[2]@ == split(p@, '|')[2]);
        assert(parts@[3]@ == split(p@, '|')[3]);
        Ok(r)
    }

    /// Decodes and checks a signed token against the current time; a clock
    /// that reads before the epoch counts as the last representable time
    /// (`check_time`), so only a token that never expires passes then.
    pub fn verify(token_str: &str, secret: &str) -> (r: Result<Self, TokenError>)
        ensures
            exists|now: u64|
                outcome(r) == #[trigger] verify_result(encode_utf8(token_str@), secret@, now),
    {
        let now = check_time(now_secs());
        let r = Self::verify_at(token_str, secret, now);
        assert(outcome(r) == verify_result(encode_utf8(token_str@), secret@, now));
        r
    }

    /// Whether the token was issued to `subject`.
    pub fn matches_subject(&self, subject: &str) -> (r: bool)
        ensures
            r == (self.subject@ == subject@),
    {
        let a = chars_of(self.subject.as_str());
        let b = chars_of(subject);
        crate::text::chars_eq(a.as_slice(), b.as_slice())
    }
}

/// The URL `prefix` followed by the signed token for these fields.
pub open spec fn signed_url(
    subject: Seq<char>,
    resource: Seq<char>,
    scope: Seq<char>,
    segment_path: Seq<char>,
    secret: Seq<char>,
    expires_at: u64,
    prefix: Seq<char>,
) -> Seq<char> {
    prefix + signed(token_fields(subject, resource, scope, segment_path, expires_at), secret)
}

/// A signed segment URL whose token expires `ttl_secs` after `now`.
pub fn sign_segment_url_at(
    subject: &str,
    resource: &str,
    scope: &str,
    segment_path: &str,
    secret: &str,
    ttl_secs: u64,
    prefix: &str,
    now: u64,
) -> (r: String)
    requires
        subject@.len() + resource@.len() + scope@.len() + segment_path@.len() <= MAX_TOKEN_TEXT,
    ensures
        r@ == signed_url(
            subject@,
            resource@,
            scope@,
            segment_path@,
            secret@,
            expiry(now, ttl_secs),
            prefix@,
        ),
        separable(token_fields(subject@, resource@, scope@, segment_path@, expiry(now, ttl_secs)))
            ==> verifies_as(
            signed(token_fields(subject@, resource@, scope@, segment_path@, expiry(now, ttl_secs)), secret@),
            secret@,
            token_fields(subject@, resource@, scope@, segment_path@, expiry(now, ttl_secs)),
        ),
{
    let token = SegmentToken::new_at(subject, resource, scope, segment_path, ttl_secs, now);
    let signed_text = token.sign(secret);
    let mut url = chars_of(prefix);
    append(&mut url, chars_of(signed_text.as_str()).as_slice());
    string_of(url.as_slice())
}

/// A signed segment URL whose token expires `ttl_secs` from now; a clock that
/// reads before the epoch counts as the epoch (`issue_time`).
pub fn sign_segment_url(
    subject: &str,
    resource: &str,
    scope: &str,
    segment_path: &str,
    secret: &str,
    ttl_secs: u64,
    prefix: &str,
) -> (r: String)
    requires
        subject@.len() + resource@.len() + scope@.len() + segment_path@.len() <= MAX_TOKEN_TEXT,
    ensures
        exists|now: u64|
            r@ == signed_url(
                subject@,
                resource@,
                scope@,
                segment_path@,
                secret@,
                #[trigger] expiry(now, ttl_secs),
                prefix@,
            ),
{
    let now = issue_time(now_secs());
    let r = sign_segment_url_at(subject, resource, scope, segment_path, secret, ttl_secs, prefix, now);
    assert(r@ == signed_url(subject@, resource@, scope@, segment_path@, secret@, expiry(now, ttl_secs), prefix@));
    r
}

} // verus!
