//! Serving a film: where its manifests live in storage, what is served while
//! a film is not transcoded yet, the signing of manifests for one viewer,
//! the check on every segment request, playhead progress, and the security
//! headers of every response.
use crate::error::AppError;
use crate::manifest::{dash_refs_verify, rewrite_dash, rewrite_dash_manifest, rewrite_hls, rewrite_hls_manifest, segments_verify, sign_args};
use crate::text::{chars_of, owned, push_str, string_of};
use crate::token::{verify_result, SegmentToken, TokenFields, MAX_TOKEN_TEXT};
use vstd::prelude::*;
use vstd::utf8::encode_utf8;

verus! {

/// How long the segment URLs of a served manifest stay valid, in seconds.
pub const SEGMENT_TTL_SECS: u64 = 300;

/// The URL of the player's HLS manifest for a film on a platform.
pub open spec fn manifest_url_spec(platform_slug: Seq<char>, film_slug: Seq<char>) -> Seq<char> {
    "/watch/"@ + platform_slug + "/"@ + film_slug + "/manifest.m3u8"@
}

/// The URL of the player's HLS manifest for `film_slug` on `platform_slug`.
pub fn manifest_url(platform_slug: &str, film_slug: &str) -> (r: String)
    ensures
        r@ == manifest_url_spec(platform_slug@, film_slug@),
{
    let mut v = chars_of("/watch/");
    push_str(&mut v, platform_slug);
    push_str(&mut v, "/");
    push_str(&mut v, film_slug);
    push_str(&mut v, "/manifest.m3u8");
    string_of(v.as_slice())
}

/// The storage key of a film's HLS master playlist.
pub open spec fn hls_key_spec(film_key: Seq<char>) -> Seq<char> {
    "videos/"@ + film_key + "/master.m3u8"@
}

/// The storage key of a film's DASH manifest.
pub open spec fn mpd_key_spec(film_key: Seq<char>) -> Seq<char> {
    "videos/"@ + film_key + "/manifest.mpd"@
}

/// The storage key of the HLS master playlist of `film_key`.
pub fn hls_manifest_key(film_key: &str) -> (r: String)
    ensures
        r@ == hls_key_spec(film_key@),
{
    let mut v = chars_of("videos/");
    push_str(&mut v, film_key);
    push_str(&mut v, "/master.m3u8");
    string_of(v.as_slice())
}

/// The storage key of the DASH manifest of `film_key`.
pub fn dash_manifest_key(film_key: &str) -> (r: String)
    ensures
        r@ == mpd_key_spec(film_key@),
{
    let mut v = chars_of("videos/");
    push_str(&mut v, film_key);
    push_str(&mut v, "/manifest.mpd");
    string_of(v.as_slice())
}

/// The HLS master playlist served while a film has none in storage: three
/// renditions, 360p, 720p and 1080p, under the film's key.
pub open spec fn placeholder_hls_spec(film_key: Seq<char>) -> Seq<char> {
    "#EXTM3U\n#EXT-X-VERSION:7\n#EXT-X-STREAM-INF:BANDWIDTH=800000,RESOLUTION=640x360\n"@
        + film_key + "/360p/360p.m3u8\n#EXT-X-STREAM-INF:BANDWIDTH=2800000,RESOLUTION=1280x720\n"@
        + film_key + "/720p/720p.m3u8\n#EXT-X-STREAM-INF:BANDWIDTH=5000000,RESOLUTION=1920x1080\n"@
        + film_key + "/1080p/1080p.m3u8\n"@
}

/// The HLS master playlist served for `film_key` while it has none in storage.
pub fn placeholder_hls(film_key: &str) -> (r: String)
    ensures
        r@ == placeholder_hls_spec(film_key@),
{
    let mut v = chars_of(
        "#EXTM3U\n#EXT-X-VERSION:7\n#EXT-X-STREAM-INF:BANDWIDTH=800000,RESOLUTION=640x360\n",
    );
    push_str(&mut v, film_key);
    push_str(&mut v, "/360p/360p.m3u8\n#EXT-X-STREAM-INF:BANDWIDTH=2800000,RESOLUTION=1280x720\n");
    push_str(&mut v, film_key);
    push_str(&mut v, "/720p/720p.m3u8\n#EXT-X-STREAM-INF:BANDWIDTH=5000000,RESOLUTION=1920x1080\n");
    push_str(&mut v, film_key);
    push_str(&mut v, "/1080p/1080p.m3u8\n");
    string_of(v.as_slice())
}

/// The HLS manifest served to a viewer: the stored playlist, or the
/// placeholder where there is none, with every segment URL signed for the
/// viewer, the film and the platform under `secret`, valid for five minutes
/// under `/segments/`.
pub fn serve_hls_manifest(
    stored: Option<String>,
    person: &str,
    film_key: &str,
    platform_key: &str,
    secret: &str,
) -> (r: String)
    requires
        person@.len() + film_key@.len() + platform_key@.len() + (match stored {
            Some(s) => s@.len(),
            None => placeholder_hls_spec(film_key@).len(),
        }) <= MAX_TOKEN_TEXT,
    ensures
        exists|now: u64|
            r@ == rewrite_hls(
                match stored {
                    Some(s) => s@,
                    None => placeholder_hls_spec(film_key@),
                },
                #[trigger] sign_args(person, film_key, platform_key, secret, SEGMENT_TTL_SECS, "/segments/", now),
            ) && segments_verify(
                match stored {
                    Some(s) => s@,
                    None => placeholder_hls_spec(film_key@),
                },
                sign_args(person, film_key, platform_key, secret, SEGMENT_TTL_SECS, "/segments/", now),
            ),
{
    let raw = match stored {
        Some(s) => s,
        None => placeholder_hls(film_key),
    };
    rewrite_hls_manifest(raw.as_str(), person, film_key, platform_key, secret, SEGMENT_TTL_SECS,
        "/segments/")
}

/// The DASH manifest served to a viewer: the stored one, or an empty `MPD`
/// element where there is none, signed as the HLS manifest is.
pub fn serve_dash_manifest(
    stored: Option<String>,
    person: &str,
    film_key: &str,
    platform_key: &str,
    secret: &str,
) -> (r: String)
    requires
        person@.len() + film_key@.len() + platform_key@.len() + (match stored {
            Some(s) => s@.len(),
            None => "<MPD></MPD>"@.len(),
        }) <= MAX_TOKEN_TEXT,
    ensures
        exists|now: u64|
            r@ == rewrite_dash(
                match stored {
                    Some(s) => s@,
                    None => "<MPD></MPD>"@,
                },
                #[trigger] sign_args(person, film_key, platform_key, secret, SEGMENT_TTL_SECS, "/segments/", now),
            ) && dash_refs_verify(
                match stored {
                    Some(s) => s@,
                    None => "<MPD></MPD>"@,
                },
                sign_args(person, film_key, platform_key, secret, SEGMENT_TTL_SECS, "/segments/", now),
            ),
{
    let raw = match stored {
        Some(s) => s,
        None => owned("<MPD></MPD>"),
    };
    rewrite_dash_manifest(raw.as_str(), person, film_key, platform_key, secret, SEGMENT_TTL_SECS,
        "/segments/")
}

/// Whether a segment request is served: the token must verify under `secret`
/// at the time of the request, and a signed-in viewer must be the one it
/// was issued to.
pub open spec fn segment_access_spec(
    token: Seq<char>,
    secret: Seq<char>,
    viewer: Option<Seq<char>>,
    now: u64,
) -> Option<TokenFields> {
    match verify_result(encode_utf8(token), secret, now) {
        Ok(f) => match viewer {
            Some(v) => if f.subject == v {
                Some(f)
            } else {
                None
            },
            None => Some(f),
        },
        Err(_) => None,
    }
}

/// The text of an optional string.
pub open spec fn opt_text(o: Option<&str>) -> Option<Seq<char>> {
    match o {
        Some(v) => Some(v@),
        None => None,
    }
}

/// Checks a segment request: the token it carries, and the viewer's record
/// key where the viewer is signed in. Refusals are `Unauthorized`; the
/// accepted token names the segment to serve. The token is checked against
/// the current time; a clock that reads before the epoch counts as the last
/// representable time (`check_time`).
pub fn segment_access(token: &str, secret: &str, viewer: Option<&str>) -> (r: Result<
    SegmentToken,
    AppError,
>)
    ensures
        exists|now: u64|
            match #[trigger] segment_access_spec(
                token@,
                secret@,
                opt_text(viewer),
                now,
            ) {
                Some(f) => r matches Ok(t) && t.fields() == f,
                None => r matches Err(e) && e is Unauthorized,
            },
{
    let now = crate::token::check_time(crate::bindings::now_secs());
    let v = SegmentToken::verify_at(token, secret, now);
    let r = match v {
        Err(_) => Err(AppError::Unauthorized),
        Ok(t) => match viewer {
            Some(p) => if t.matches_subject(p) {
                Ok(t)
            } else {
                Err(AppError::Unauthorized)
            },
            None => Ok(t),
        },
    };
    assert(match segment_access_spec(
        token@,
        secret@,
        opt_text(viewer),
        now,
    ) {
        Some(f) => r matches Ok(t) && t.fields() == f,
        None => r matches Err(e) && e is Unauthorized,
    });
    r
}

/// The segment proxy serves what a served manifest points to, to its viewer
/// only: a segment line of a manifest signed for a viewer yields a token that
/// the proxy accepts from that viewer, or from a visitor who is not signed
/// in, naming that segment, at any time until it expires; it refuses it from
/// any other viewer, and from everyone once it has expired.
pub proof fn lemma_served_segments_accepted(
    m: Seq<char>,
    a: crate::manifest::SignArgs,
    i: int,
    viewer: Seq<char>,
    now: u64,
)
    requires
        segments_verify(m, a),
        0 <= i < crate::text::lines(m).len(),
        crate::manifest::segment_line(crate::text::lines(m)[i]),
        crate::token::separable(crate::manifest::ref_fields(trim_line(m, i), a)),
    ensures
        ({
            let f = crate::manifest::ref_fields(trim_line(m, i), a);
            let token = crate::token::signed(f, a.secret);
            &&& now <= a.expires_at ==> segment_access_spec(token, a.secret, Some(a.subject), now) == Some(f)
            &&& now <= a.expires_at ==> segment_access_spec(token, a.secret, None, now) == Some(f)
            &&& f.segment_path == trim_line(m, i)
            &&& viewer != a.subject ==> segment_access_spec(token, a.secret, Some(viewer), now) is None
            &&& now > a.expires_at ==> segment_access_spec(token, a.secret, Some(a.subject), now) is None
        }),
{
    let f = crate::manifest::ref_fields(trim_line(m, i), a);
    let token = crate::token::signed(f, a.secret);
    assert(crate::manifest::ref_verifies(trim_line(m, i), a));
    assert(verify_result(encode_utf8(token), a.secret, now) == (if now <= f.expires_at {
        Ok::<TokenFields, crate::token::TokenError>(f)
    } else {
        Err::<TokenFields, crate::token::TokenError>(crate::token::TokenError::Expired)
    }));
}

/// The trimmed text of line `i` of `m`.
pub open spec fn trim_line(m: Seq<char>, i: int) -> Seq<char> {
    crate::text::trim(crate::text::lines(m)[i])
}

/// The playback form a player posts as it plays.
#[derive(Debug, Clone, Copy)]
pub struct HeartbeatForm {
    pub position: i64,
    pub duration: Option<i64>,
}

/// A viewing counts as complete once the playhead reaches nine tenths of a
/// known, positive duration (rounded toward zero).
pub open spec fn completed_spec(position: i64, duration: Option<i64>) -> bool {
    match duration {
        Some(d) => d > 0 && position >= (d * 90) / 100,
        None => false,
    }
}

/// Whether a heartbeat marks the viewing complete.
pub fn watch_completed(form: &HeartbeatForm) -> (b: bool)
    requires
        form.duration matches Some(d) ==> (d > 0 ==> d * 90 <= i64::MAX),
    ensures
        b == completed_spec(form.position, form.duration),
{
    match form.duration {
        Some(d) => d > 0 && form.position >= d * 90 / 100,
        None => false,
    }
}

/// The security headers added to every response, name then value.
pub open spec fn security_headers_spec() -> Seq<(Seq<char>, Seq<char>)> {
    seq![
        ("x-content-type-options"@, "nosniff"@),
        ("x-frame-options"@, "DENY"@),
        ("x-xss-protection"@, "1; mode=block"@),
        ("referrer-policy"@, "strict-origin-when-cross-origin"@),
        (
            "content-security-policy"@,
            "default-src 'self'; script-src 'self' https://cdn.jsdelivr.net https://js.stripe.com 'unsafe-inline'; style-src 'self' 'unsafe-inline'; img-src 'self' data: https:; connect-src 'self' https://api.stripe.com; frame-src https://js.stripe.com; font-src 'self'"@,
        ),
    ]
}

/// The headers as plain text pairs.
pub open spec fn header_views(v: Seq<(String, String)>) -> Seq<(Seq<char>, Seq<char>)> {
    v.map_values(|h: (String, String)| (h.0@, h.1@))
}

fn push_header(v: &mut Vec<(String, String)>, name: &str, value: &str)
    ensures
        header_views(final(v)@) == header_views(old(v)@).push((name@, value@)),
{
    v.push((owned(name), owned(value)));
    assert(header_views(v@) =~= header_views(old(v)@).push((name@, value@)));
}

/// The security headers of every response: no content sniffing, no framing,
/// the XSS filter in blocking mode, the referrer policy, and the content
/// security policy.
pub fn security_headers() -> (r: Vec<(String, String)>)
    ensures
        header_views(r@) == security_headers_spec(),
{
    let mut v: Vec<(String, String)> = Vec::new();
    push_header(&mut v, "x-content-type-options", "nosniff");
    push_header(&mut v, "x-frame-options", "DENY");
    push_header(&mut v, "x-xss-protection", "1; mode=block");
    push_header(&mut v, "referrer-policy", "strict-origin-when-cross-origin");
    push_header(
        &mut v,
        "content-security-policy",
        "default-src 'self'; script-src 'self' https://cdn.jsdelivr.net https://js.stripe.com 'unsafe-inline'; style-src 'self' 'unsafe-inline'; img-src 'self' data: https:; connect-src 'self' https://api.stripe.com; frame-src https://js.stripe.com; font-src 'self'",
    );
    assert(header_views(v@) =~= security_headers_spec());
    v
}

} // verus!
