//! Authentication: the claims a session token carries, where a request's
//! token is found, the session cookie, role checks, and Argon2id passwords.
use crate::bindings::now_secs;
use crate::error::AppError;
use crate::text::{chars_of, has_prefix, owned, push_str, split, split_chars, starts_with,
    string_of, trim, trim_chars};
use argon2::password_hash::rand_core::{OsRng, RngCore};
use argon2::password_hash::{Salt, SaltString};
use argon2::{Argon2, PasswordHash, PasswordHasher, PasswordVerifier};
use vstd::prelude::*;

verus! {

/// How long a session token stays valid after it is issued, in seconds.
pub const TOKEN_EXPIRY_SECS: u64 = 86400;

/// The identity a session token carries.
#[derive(Debug, Clone)]
pub struct Claims {
    /// The person's record key.
    pub sub: String,
    /// Display name when the token was issued.
    pub name: String,
    /// Roles granted to the person.
    pub roles: Vec<String>,
    /// Expiry, in seconds since the UNIX epoch.
    pub exp: u64,
    /// Issue time, in seconds since the UNIX epoch.
    pub iat: u64,
}

/// Whether `roles` holds `role`.
pub open spec fn holds_role(roles: Seq<String>, role: Seq<char>) -> bool {
    exists|i: int| 0 <= i < roles.len() && (#[trigger] roles[i])@ == role
}

impl Claims {
    /// The person's record key.
    pub fn person_key_str(&self) -> (r: String)
        ensures
            r@ == self.sub@,
    {
        self.sub.clone()
    }

    /// Whether the person has `role`.
    pub fn has_role(&self, role: &str) -> (b: bool)
        ensures
            b == holds_role(self.roles@, role@),
    {
        let mut i: usize = 0;
        while i < self.roles.len()
            invariant
                i <= self.roles@.len(),
                forall|j: int| 0 <= j < i ==> (#[trigger] self.roles@[j])@ != role@,
            decreases self.roles.len() - i,
        {
            if crate::text::str_is(self.roles[i].as_str(), role) {
                assert((self.roles@[i as int])@ == role@);
                return true;
            }
            i = i + 1;
        }
        false
    }
}

/// The claims of a token issued at `now` for a person: valid for a day.
pub fn claims_at(person_key: &str, name: &str, roles: &Vec<String>, now: u64) -> (c: Claims)
    requires
        now + TOKEN_EXPIRY_SECS <= u64::MAX,
    ensures
        c.sub@ == person_key@,
        c.name@ == name@,
        c.roles@ == roles@,
        c.iat == now,
        c.exp == now + TOKEN_EXPIRY_SECS,
{
    Claims {
        sub: owned(person_key),
        name: owned(name),
        roles: roles.clone(),
        exp: now + TOKEN_EXPIRY_SECS,
        iat: now,
    }
}

/// The claims of a token issued at `now` for a person, valid for a day;
/// `None` where the expiry would not fit in 64 bits.
pub fn claims_for(person_key: &str, name: &str, roles: &Vec<String>, now: u64) -> (r: Option<Claims>)
    ensures
        now + TOKEN_EXPIRY_SECS <= u64::MAX ==> (r matches Some(c) && c.sub@ == person_key@ && c.name@
            == name@ && c.roles@ == roles@ && c.iat == now && c.exp == now + TOKEN_EXPIRY_SECS),
        now + TOKEN_EXPIRY_SECS > u64::MAX ==> r is None,
{
    if now > u64::MAX - TOKEN_EXPIRY_SECS {
        None
    } else {
        Some(claims_at(person_key, name, roles, now))
    }
}

/// The claims of a token issued now for a person, valid for a day; `None`
/// where the clock reads so late that the expiry would not fit in 64 bits,
/// and where it reads a time before the epoch.
pub fn issue_claims(person_key: &str, name: &str, roles: &Vec<String>) -> (r: Option<Claims>)
    ensures
        exists|now: u64|
            (#[trigger] (now + TOKEN_EXPIRY_SECS) <= u64::MAX ==> (r matches Some(c) && c.sub@
                == person_key@ && c.name@ == name@ && c.roles@ == roles@ && c.iat == now && c.exp
                == now + TOKEN_EXPIRY_SECS)) && (now + TOKEN_EXPIRY_SECS > u64::MAX ==> r is None),
{
    match now_secs() {
        Some(now) => {
            let r = claims_for(person_key, name, roles, now);
            assert(now + TOKEN_EXPIRY_SECS <= u64::MAX ==> (r matches Some(c) && c.sub@ == person_key@
                && c.name@ == name@ && c.roles@ == roles@ && c.iat == now && c.exp == now
                + TOKEN_EXPIRY_SECS));
            r
        },
        None => {
            let ghost late: u64 = u64::MAX;
            assert(late + TOKEN_EXPIRY_SECS > u64::MAX);
            None
        },
    }
}

/// Refuses anyone without the admin role.
pub fn require_admin(claims: &Claims) -> (r: Result<(), AppError>)
    ensures
        r is Ok <==> holds_role(claims.roles@, "admin"@),
        r matches Err(e) ==> e is Forbidden,
{
    if claims.has_role("admin") {
        Ok(())
    } else {
        Err(AppError::Forbidden)
    }
}

/// The session token a cookie header carries: the first `;`-separated cookie
/// that, trimmed, starts with `pavilion_token=`, with the rest trimmed.
pub open spec fn cookie_token_in(parts: Seq<Seq<char>>) -> Option<Seq<char>>
    decreases parts.len(),
{
    if parts.len() == 0 {
        None
    } else if starts_with(trim(parts[0]), "pavilion_token="@) {
        Some(trim(trim(parts[0]).skip("pavilion_token="@.len() as int)))
    } else {
        cookie_token_in(parts.drop_first())
    }
}

/// The token a request presents: an `Authorization` header of the form
/// `Bearer <token>` wins, with the token trimmed; otherwise the session cookie.
pub open spec fn request_token(authorization: Option<Seq<char>>, cookie: Option<Seq<char>>) -> Option<
    Seq<char>,
> {
    if authorization matches Some(a) && starts_with(a, "Bearer "@) {
        Some(trim(authorization->0.skip("Bearer "@.len() as int)))
    } else {
        match cookie {
            Some(c) => cookie_token_in(split(c, ';')),
            None => None,
        }
    }
}

fn after_prefix(s: &[char], prefix: &str) -> (r: Option<Vec<char>>)
    ensures
        r is Some <==> starts_with(s@, prefix@),
        r matches Some(v) ==> v@ == s@.skip(prefix@.len() as int),
{
    let p = chars_of(prefix);
    if has_prefix(s, p.as_slice()) {
        let v = crate::text::copy_range(s, p.len(), s.len());
        assert(v@ =~= s@.skip(prefix@.len() as int));
        Some(v)
    } else {
        None
    }
}

/// The token a request presents in its `Authorization` or `Cookie` header, if any.
pub fn token_from_headers(authorization: Option<&str>, cookie: Option<&str>) -> (r: Option<String>)
    ensures
        match request_token(
            match authorization {
                Some(a) => Some(a@),
                None => None,
            },
            match cookie {
                Some(c) => Some(c@),
                None => None,
            },
        ) {
            Some(t) => r matches Some(s) && s@ == t,
            None => r is None,
        },
{
    match authorization {
        Some(a) => {
            let cs = chars_of(a);
            match after_prefix(cs.as_slice(), "Bearer ") {
                Some(rest) => {
                    return Some(string_of(trim_chars(rest.as_slice()).as_slice()));
                },
                None => {},
            }
        },
        None => {},
    }
    match cookie {
        Some(c) => cookie_token(c),
        None => None,
    }
}

/// The session token in the cookie header `c`, if it carries one.
fn cookie_token(c: &str) -> (r: Option<String>)
    ensures
        match cookie_token_in(split(c@, ';')) {
            Some(t) => r matches Some(s) && s@ == t,
            None => r is None,
        },
{
    let cs = chars_of(c);
    let parts = split_chars(cs.as_slice(), ';');
    let ghost ps = split(c@, ';');
    let mut i: usize = 0;
    assert(ps.skip(0) =~= ps);
    while i < parts.len()
        invariant
            i <= parts@.len(),
            ps == split(c@, ';'),
            crate::text::views(parts@) == ps,
            cookie_token_in(ps) == cookie_token_in(ps.skip(i as int)),
        decreases parts.len() - i,
    {
        let ghost rest = ps.skip(i as int);
        assert(rest[0] == parts@[i as int]@);
        assert(rest.drop_first() =~= ps.skip(i + 1));
        let t = trim_chars(parts[i].as_slice());
        match after_prefix(t.as_slice(), "pavilion_token=") {
            Some(v) => {
                return Some(string_of(trim_chars(v.as_slice()).as_slice()));
            },
            None => {},
        }
        i = i + 1;
    }
    assert(ps.skip(parts@.len() as int) =~= Seq::<Seq<char>>::empty());
    None
}

/// A session token comes back as it was stored: a request whose cookie
/// header is `pavilion_token=<t>`, or whose `Authorization` header is
/// `Bearer <t>`, presents `t`, for any token that holds no `;` and has no
/// whitespace at either end.
pub proof fn lemma_session_token_round_trip(t: Seq<char>)
    requires
        !crate::text::has_char(t, ';'),
        t.len() > 0 ==> !crate::text::is_ws(t[0]) && !crate::text::is_ws(t.last()),
    ensures
        request_token(None, Some("pavilion_token="@ + t)) == Some(t),
        request_token(Some("Bearer "@ + t), None) == Some(t),
{
    reveal_strlit("pavilion_token=");
    reveal_strlit("Bearer ");
    let p = "pavilion_token="@;
    let c = p + t;
    crate::text::lemma_trim_same(t);
    assert(!crate::text::has_char(c, ';')) by {
        if crate::text::has_char(c, ';') {
            let i = choose|i: int| 0 <= i < c.len() && c[i] == ';';
            if i >= p.len() {
                assert(t[i - p.len()] == ';');
            }
        }
    }
    crate::token::lemma_split_plain(c, ';');
    assert(c[0] == 'p');
    assert(c.last() == t.last() || c.last() == '=');
    crate::text::lemma_trim_same(c);
    assert(c.take(p.len() as int) =~= p);
    assert(starts_with(c, p));
    assert(c.skip(p.len() as int) =~= t);
    let parts = split(c, ';');
    assert(parts.len() == 1 && parts[0] == c);
    let b = "Bearer "@ + t;
    assert(b.take("Bearer "@.len() as int) =~= "Bearer "@);
    assert(b.skip("Bearer "@.len() as int) =~= t);
}

/// The `Set-Cookie` value that stores a session token for a day.
pub open spec fn token_cookie_spec(token: Seq<char>) -> Seq<char> {
    "pavilion_token="@ + token + "; Path=/; Max-Age=86400; HttpOnly; SameSite=Lax"@
}

/// The `Set-Cookie` value that stores `token` as the session.
pub fn token_cookie(token: &str) -> (r: String)
    ensures
        r@ == token_cookie_spec(token@),
{
    let mut v = chars_of("pavilion_token=");
    push_str(&mut v, token);
    push_str(&mut v, "; Path=/; Max-Age=86400; HttpOnly; SameSite=Lax");
    string_of(v.as_slice())
}

/// The `Set-Cookie` value that ends the session.
pub fn logout_cookie() -> (r: String)
    ensures
        r@ == "pavilion_token=; Path=/; Max-Age=0; HttpOnly; SameSite=Lax"@,
{
    owned("pavilion_token=; Path=/; Max-Age=0; HttpOnly; SameSite=Lax")
}

/// Claims of the request, where it presented valid ones.
pub struct OptionalClaims(pub Option<Claims>);

/// The error type of the `password-hash` crate.
#[verifier::external_type_specification]
#[verifier::external_body]
pub struct ExPasswordHashError(argon2::password_hash::Error);

/// Whether `password` matches the PHC string `phc` under Argon2: `None` where
/// `phc` is not a well-formed PHC string.
pub uninterp spec fn argon2_verdict(password: Seq<char>, phc: Seq<char>) -> Option<bool>;

/// Argon2id with the crate's default parameters and a salt of 16 bytes
/// drawn from the operating system's generator (`OsRng::try_fill_bytes`,
/// `SaltString::encode_b64`, `Argon2::default().hash_password`), written as a
/// PHC string; `None` where the generator reports a failure. The hash depends
/// on the random salt, so its text is not described. Claims, as the sources
/// of `argon2` and `password-hash` show: once the salt is drawn, the only
/// refusal left is a password of more than `0xFFFF_FFFF` bytes, which a
/// string of at most a quarter of that many characters cannot reach (UTF-8
/// takes at most four bytes a character); and the PHC string parses back (so
/// any password gets a verdict against it, parsing not reading the password)
/// and verifies `password`, since verifying hashes again with the algorithm,
/// version, parameters and salt that it records.
#[verifier::external_body]
fn argon2_hash(password: &str) -> (r: Option<Result<String, argon2::password_hash::Error>>)
    ensures
        4 * password@.len() <= 0xFFFF_FFFF ==> (r matches Some(h) ==> h is Ok),
        r matches Some(Ok(h)) ==> argon2_verdict(password@, h@) == Some(true),
        r matches Some(Ok(h)) ==> forall|other: Seq<char>| #[trigger] argon2_verdict(other, h@) is Some,
{
    let mut bytes = [0u8; Salt::RECOMMENDED_LENGTH];
    if OsRng.try_fill_bytes(&mut bytes).is_err() {
        return None;
    }
    let salt = match SaltString::encode_b64(&bytes) {
        Ok(s) => s,
        Err(e) => return Some(Err(e)),
    };
    Some(Argon2::default().hash_password(password.as_bytes(), &salt).map(|h| h.to_string()))
}

/// Parses `phc` (`PasswordHash::new`) and checks `password` against it with
/// `Argon2::default()` (`PasswordVerifier::verify_password`, any failure
/// counting as a mismatch). Claims: a parse error is returned exactly where
/// `argon2_verdict` is `None`, and otherwise the verdict is returned.
#[verifier::external_body]
fn argon2_verify(password: &str, phc: &str) -> (r: Result<bool, argon2::password_hash::Error>)
    ensures
        match r {
            Ok(b) => argon2_verdict(password@, phc@) == Some(b),
            Err(_) => argon2_verdict(password@, phc@) is None,
        },
{
    let parsed = PasswordHash::new(phc)?;
    Ok(Argon2::default().verify_password(password.as_bytes(), &parsed).is_ok())
}

/// The text of a `password-hash` error, as its `Display` writes it.
#[verifier::external_body]
fn password_error_text(e: &argon2::password_hash::Error) -> String {
    e.to_string()
}

/// A failure of the password hasher, with its text.
#[derive(Debug, Clone)]
pub struct PasswordError {
    pub message: String,
}

/// Hashes `password` with Argon2id and a fresh random salt, as a PHC string
/// that `verify_password` accepts for `password` and checks any other
/// password against without an error. Where the operating system's random
/// generator fails, no salt can be drawn and the error says so.
pub fn hash_password(password: &str) -> (r: Result<String, PasswordError>)
    ensures
        4 * password@.len() <= 0xFFFF_FFFF ==> (r is Ok || (r matches Err(e) && e.message@
            == "Random number generator failed"@)),
        r matches Ok(h) ==> argon2_verdict(password@, h@) == Some(true),
        r matches Ok(h) ==> forall|other: Seq<char>| #[trigger] argon2_verdict(other, h@) is Some,
{
    match argon2_hash(password) {
        None => Err(PasswordError { message: owned("Random number generator failed") }),
        Some(Ok(h)) => Ok(h),
        Some(Err(e)) => Err(PasswordError { message: password_error_text(&e) }),
    }
}

/// Checks `password` against the stored PHC string `hash`; an error where
/// `hash` is malformed.
pub fn verify_password(password: &str, hash: &str) -> (r: Result<bool, PasswordError>)
    ensures
        match argon2_verdict(password@, hash@) {
            Some(b) => r == Ok::<bool, PasswordError>(b),
            None => r is Err,
        },
{
    match argon2_verify(password, hash) {
        Ok(b) => Ok(b),
        Err(e) => Err(PasswordError { message: password_error_text(&e) }),
    }
}

} // verus!
