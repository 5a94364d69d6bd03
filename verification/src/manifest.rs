//! HLS and DASH manifests: generation from rendition lists, and rewriting
//! of segment references into signed proxy URLs.
use crate::text::{
    append, chars_of, copy_all, dec, ends_with, has_char, is_ws, lemma_split_nonempty, split, find, find_chars, has_prefix, has_suffix, join,
    join_chars, lemma_line_len, lemma_trim_len, lines, lines_of, replace_all, replace_all_chars,
    starts_with, string_of, trim, trim_chars, views, copy_range,
};
use crate::token::{expiry, lemma_split_plain, separable, sign_segment_url_at, signed, signed_url, token_fields,
    verifies_as, TokenFields, MAX_TOKEN_TEXT};
use vstd::prelude::*;

verus! {

/// What a signed reference is made from, besides the segment path.
pub struct SignArgs {
    pub subject: Seq<char>,
    pub resource: Seq<char>,
    pub scope: Seq<char>,
    pub secret: Seq<char>,
    pub expires_at: u64,
    pub prefix: Seq<char>,
}

/// The signed proxy URL for `path`.
pub open spec fn signed_ref(path: Seq<char>, a: SignArgs) -> Seq<char> {
    signed_url(a.subject, a.resource, a.scope, path, a.secret, a.expires_at, a.prefix)
}

/// One line of a rewritten HLS manifest: comments and blank lines stay as
/// they are, every other line becomes the signed URL of its trimmed text.
pub open spec fn hls_line(l: Seq<char>, a: SignArgs) -> Seq<char> {
    let t = trim(l);
    if (t.len() > 0 && t[0] == '#') || t.len() == 0 {
        l
    } else {
        signed_ref(t, a)
    }
}

/// Whether a manifest line names a segment: it is neither blank nor a comment.
pub open spec fn segment_line(l: Seq<char>) -> bool {
    let t = trim(l);
    !((t.len() > 0 && t[0] == '#') || t.len() == 0)
}

/// The fields of the token that signs the segment `path`.
pub open spec fn ref_fields(path: Seq<char>, a: SignArgs) -> TokenFields {
    token_fields(a.subject, a.resource, a.scope, path, a.expires_at)
}

/// Whether the signed reference to `path` verifies as its own fields.
pub open spec fn ref_verifies(path: Seq<char>, a: SignArgs) -> bool {
    separable(ref_fields(path, a)) ==> verifies_as(
        signed(ref_fields(path, a), a.secret),
        a.secret,
        ref_fields(path, a),
    )
}

/// Every segment line of `m` is signed with a token that verifies: under the
/// secret, within its lifetime, as the viewer, the film, the platform and the
/// trimmed line, and as expired after it. (Fields holding `|` are left out,
/// as they do not read back.)
pub open spec fn segments_verify(m: Seq<char>, a: SignArgs) -> bool {
    forall|i: int|
        0 <= i < lines(m).len() && segment_line(#[trigger] lines(m)[i]) ==> ref_verifies(
            trim(lines(m)[i]),
            a,
        )
}

/// The rewritten HLS manifest: its lines, rewritten one by one, joined by line feeds.
pub open spec fn rewrite_hls(m: Seq<char>, a: SignArgs) -> Seq<char> {
    join(Seq::new(lines(m).len(), |i: int| hls_line(lines(m)[i], a)), seq!['\n'])
}

/// The signing arguments of a rewrite request.
pub open spec fn sign_args(
    subject: &str,
    resource: &str,
    scope: &str,
    secret: &str,
    ttl_secs: u64,
    url_prefix: &str,
    now: u64,
) -> SignArgs {
    SignArgs {
        subject: subject@,
        resource: resource@,
        scope: scope@,
        secret: secret@,
        expires_at: expiry(now, ttl_secs),
        prefix: url_prefix@,
    }
}

fn sign_chars(
    path: &[char],
    subject: &str,
    resource: &str,
    scope: &str,
    secret: &str,
    ttl_secs: u64,
    url_prefix: &str,
    now: u64,
) -> (r: Vec<char>)
    requires
        subject@.len() + resource@.len() + scope@.len() + path@.len() <= MAX_TOKEN_TEXT,
    ensures
        r@ == signed_ref(path@, sign_args(subject, resource, scope, secret, ttl_secs, url_prefix, now)),
        ref_verifies(path@, sign_args(subject, resource, scope, secret, ttl_secs, url_prefix, now)),
{
    let p = string_of(path);
    let url = sign_segment_url_at(subject, resource, scope, p.as_str(), secret, ttl_secs, url_prefix, now);
    chars_of(url.as_str())
}

/// Rewrites an HLS manifest at time `now`, replacing each segment reference
/// with a signed proxy URL.
pub fn rewrite_hls_manifest_at(
    manifest: &str,
    subject: &str,
    resource: &str,
    scope: &str,
    secret: &str,
    ttl_secs: u64,
    url_prefix: &str,
    now: u64,
) -> (r: String)
    requires
        subject@.len() + resource@.len() + scope@.len() + manifest@.len() <= MAX_TOKEN_TEXT,
    ensures
        r@ == rewrite_hls(manifest@, sign_args(subject, resource, scope, secret, ttl_secs, url_prefix, now)),
        segments_verify(manifest@, sign_args(subject, resource, scope, secret, ttl_secs, url_prefix, now)),
{
    let ghost a = sign_args(subject, resource, scope, secret, ttl_secs, url_prefix, now);
    let m = chars_of(manifest);
    let ls = lines_of(m.as_slice());
    let ghost ln = lines(m@);
    let mut out: Vec<Vec<char>> = Vec::new();
    let mut k: usize = 0;
    while k < ls.len()
        invariant
            views(ls@) == ln,
            ln == lines(manifest@),
            k <= ls@.len(),
            subject@.len() + resource@.len() + scope@.len() + manifest@.len() <= MAX_TOKEN_TEXT,
            a == sign_args(subject, resource, scope, secret, ttl_secs, url_prefix, now),
            views(out@) == Seq::new(k as nat, |i: int| hls_line(ln[i], a)),
            forall|i: int| 0 <= i < k && segment_line(#[trigger] ln[i]) ==> ref_verifies(trim(ln[i]), a),
        decreases ls.len() - k,
    {
        let line = &ls[k];
        assert(line@ == ln[k as int]);
        let t = trim_chars(line.as_slice());
        let ghost before = out@;
        if (t.len() > 0 && t[0] == '#') || t.len() == 0 {
            out.push(copy_all(line.as_slice()));
        } else {
            proof {
                lemma_line_len(manifest@, k as int);
                lemma_trim_len(line@);
            }
            out.push(sign_chars(t.as_slice(), subject, resource, scope, secret, ttl_secs, url_prefix, now));
        }
        k = k + 1;
        assert(views(out@) =~= Seq::new(k as nat, |i: int| hls_line(ln[i], a))) by {
            assert(views(out@) =~= views(before).push(out@[k - 1]@));
        }
    }
    let mut sep: Vec<char> = Vec::new();
    sep.push('\n');
    let joined = join_chars(&out, sep.as_slice());
    assert(sep@ =~= seq!['\n']);
    string_of(joined.as_slice())
}

} // verus!

verus! {

/// Rewrites an HLS manifest, replacing each segment reference with a signed
/// proxy URL whose token expires `ttl_secs` from now; a clock that reads
/// before the epoch counts as the epoch (`issue_time`).
pub fn rewrite_hls_manifest(
    manifest: &str,
    subject: &str,
    resource: &str,
    scope: &str,
    secret: &str,
    ttl_secs: u64,
    url_prefix: &str,
) -> (r: String)
    requires
        subject@.len() + resource@.len() + scope@.len() + manifest@.len() <= MAX_TOKEN_TEXT,
    ensures
        exists|now: u64|
            r@ == rewrite_hls(
                manifest@,
                #[trigger] sign_args(subject, resource, scope, secret, ttl_secs, url_prefix, now),
            ) && segments_verify(manifest@, sign_args(subject, resource, scope, secret, ttl_secs, url_prefix, now)),
{
    let now = crate::token::issue_time(crate::bindings::now_secs());
    let r = rewrite_hls_manifest_at(manifest, subject, resource, scope, secret, ttl_secs, url_prefix, now);
    assert(r@ == rewrite_hls(manifest@, sign_args(subject, resource, scope, secret, ttl_secs, url_prefix, now))
        && segments_verify(manifest@, sign_args(subject, resource, scope, secret, ttl_secs, url_prefix, now)));
    r
}

pub open spec fn base_open() -> Seq<char> {
    "<BaseURL>"@
}

pub open spec fn base_close() -> Seq<char> {
    "</BaseURL>"@
}

pub open spec fn source_attr() -> Seq<char> {
    "sourceURL=\""@
}

/// The path inside a `<BaseURL>...</BaseURL>` line: what is left after
/// removing the opening tag and then the closing tag, or nothing.
pub open spec fn base_path(t: Seq<char>) -> Seq<char> {
    let s = t.skip(base_open().len() as int);
    if ends_with(s, base_close()) {
        s.take(s.len() - base_close().len())
    } else {
        Seq::empty()
    }
}

/// One step of the DASH rewrite: the `<BaseURL>` line and the first
/// `sourceURL="..."` reference of line `l`, each replaced everywhere in `result`.
pub open spec fn dash_step(result: Seq<char>, l: Seq<char>, a: SignArgs) -> Seq<char> {
    let t = trim(l);
    let r1 = if starts_with(t, base_open()) && ends_with(t, base_close()) && base_path(t).len()
        > 0 {
        replace_all(result, t, base_open() + signed_ref(base_path(t), a) + base_close())
    } else {
        result
    };
    let i = find(t, source_attr());
    if i >= 0 {
        let after = t.skip(i + source_attr().len());
        let e = find(after, seq!['"']);
        if e >= 0 {
            let p = after.take(e);
            replace_all(
                r1,
                source_attr() + p + seq!['"'],
                source_attr() + signed_ref(p, a) + seq!['"'],
            )
        } else {
            r1
        }
    } else {
        r1
    }
}

/// The segment path that a `<BaseURL>` line refers to, if line `l` is one.
pub open spec fn base_ref(l: Seq<char>) -> Option<Seq<char>> {
    let t = trim(l);
    if starts_with(t, base_open()) && ends_with(t, base_close()) && base_path(t).len() > 0 {
        Some(base_path(t))
    } else {
        None
    }
}

/// The path of the first `sourceURL="..."` reference of line `l`, if any.
pub open spec fn source_ref(l: Seq<char>) -> Option<Seq<char>> {
    let t = trim(l);
    let i = find(t, source_attr());
    if i >= 0 {
        let after = t.skip(i + source_attr().len());
        let e = find(after, seq!['"']);
        if e >= 0 {
            Some(after.take(e))
        } else {
            None
        }
    } else {
        None
    }
}

/// Every reference that the DASH rewrite signs, in a `<BaseURL>` line or a
/// `sourceURL` attribute, is signed with a token that verifies as the
/// viewer, the film, the platform and that path until it expires.
pub open spec fn dash_refs_verify(m: Seq<char>, a: SignArgs) -> bool {
    forall|i: int|
        0 <= i < lines(m).len() ==> (base_ref(#[trigger] lines(m)[i]) matches Some(p) ==> ref_verifies(p, a))
            && (source_ref(lines(m)[i]) matches Some(q) ==> ref_verifies(q, a))
}

/// The manifest after the DASH rewrite steps of its first `k` lines.
pub open spec fn dash_fold(m: Seq<char>, ls: Seq<Seq<char>>, k: int, a: SignArgs) -> Seq<char>
    decreases k,
{
    if k <= 0 {
        m
    } else {
        dash_step(dash_fold(m, ls, k - 1, a), ls[k - 1], a)
    }
}

/// The rewritten DASH manifest.
pub open spec fn rewrite_dash(m: Seq<char>, a: SignArgs) -> Seq<char> {
    dash_fold(m, lines(m), lines(m).len() as int, a)
}

/// Rewrites a DASH manifest at time `now`, replacing `BaseURL` and
/// `sourceURL` references with signed proxy URLs.
pub fn rewrite_dash_manifest_at(
    manifest: &str,
    subject: &str,
    resource: &str,
    scope: &str,
    secret: &str,
    ttl_secs: u64,
    url_prefix: &str,
    now: u64,
) -> (r: String)
    requires
        subject@.len() + resource@.len() + scope@.len() + manifest@.len() <= MAX_TOKEN_TEXT,
    ensures
        r@ == rewrite_dash(manifest@, sign_args(subject, resource, scope, secret, ttl_secs, url_prefix, now)),
        dash_refs_verify(manifest@, sign_args(subject, resource, scope, secret, ttl_secs, url_prefix, now)),
{
    let ghost a = sign_args(subject, resource, scope, secret, ttl_secs, url_prefix, now);
    let m = chars_of(manifest);
    let mut result = copy_all(m.as_slice());
    let ls = lines_of(m.as_slice());
    let ghost ln = lines(m@);
    let open = chars_of("<BaseURL>");
    let close = chars_of("</BaseURL>");
    let src = chars_of("sourceURL=\"");
    proof {
        reveal_strlit("<BaseURL>");
        reveal_strlit("sourceURL=\"");
    }
    let mut quote: Vec<char> = Vec::new();
    quote.push('"');
    let mut k: usize = 0;
    while k < ls.len()
        invariant
            views(ls@) == ln,
            ln == lines(manifest@),
            k <= ls@.len(),
            subject@.len() + resource@.len() + scope@.len() + manifest@.len() <= MAX_TOKEN_TEXT,
            a == sign_args(subject, resource, scope, secret, ttl_secs, url_prefix, now),
            open@ == base_open(),
            close@ == base_close(),
            src@ == source_attr(),
            open@.len() == 9,
            src@.len() == 11,
            quote@ == seq!['"'],
            result@ == dash_fold(manifest@, ln, k as int, a),
            forall|i: int|
                0 <= i < k ==> (base_ref(#[trigger] ln[i]) matches Some(p) ==> ref_verifies(p, a))
                    && (source_ref(ln[i]) matches Some(q) ==> ref_verifies(q, a)),
        decreases ls.len() - k,
    {
        let line = &ls[k];
        assert(line@ == ln[k as int]);
        proof {
            lemma_line_len(manifest@, k as int);
            lemma_trim_len(line@);
        }
        let t = trim_chars(line.as_slice());
        if has_prefix(t.as_slice(), open.as_slice()) && has_suffix(t.as_slice(), close.as_slice()) {
            let s = copy_range(t.as_slice(), open.len(), t.len());
            let path = if has_suffix(s.as_slice(), close.as_slice()) {
                copy_range(s.as_slice(), 0, s.len() - close.len())
            } else {
                Vec::new()
            };
            assert(path@ == base_path(t@)) by {
                assert(s@ =~= t@.skip(open@.len() as int));
                if !ends_with(s@, close@) {
                    assert(path@ =~= Seq::<char>::empty());
                }
            }
            if path.len() > 0 {
                let signed = sign_chars(path.as_slice(), subject, resource, scope, secret, ttl_secs, url_prefix, now);
                let mut rep = copy_all(open.as_slice());
                append(&mut rep, signed.as_slice());
                append(&mut rep, close.as_slice());
                result = replace_all_chars(result.as_slice(), t.as_slice(), rep.as_slice());
            }
        }
        let ghost r1 = result@;
        match find_chars(t.as_slice(), src.as_slice()) {
            Some(i) => {
                let after = copy_range(t.as_slice(), i + src.len(), t.len());
                assert(after@ =~= t@.skip(i + source_attr().len()));
                match find_chars(after.as_slice(), quote.as_slice()) {
                    Some(e) => {
                        let p = copy_range(after.as_slice(), 0, e);
                        assert(p@ =~= after@.take(e as int));
                        let signed = sign_chars(p.as_slice(), subject, resource, scope, secret, ttl_secs, url_prefix, now);
                        let mut pat = copy_all(src.as_slice());
                        append(&mut pat, p.as_slice());
                        append(&mut pat, quote.as_slice());
                        let mut rep = copy_all(src.as_slice());
                        append(&mut rep, signed.as_slice());
                        append(&mut rep, quote.as_slice());
                        result = replace_all_chars(result.as_slice(), pat.as_slice(), rep.as_slice());
                    },
                    None => {},
                }
            },
            None => {},
        }
        assert(result@ == dash_step(dash_fold(manifest@, ln, k as int, a), ln[k as int], a));
        assert(base_ref(ln[k as int]) matches Some(p) ==> ref_verifies(p, a));
        assert(source_ref(ln[k as int]) matches Some(q) ==> ref_verifies(q, a));
        k = k + 1;
    }
    string_of(result.as_slice())
}

/// Rewrites a DASH manifest, replacing `BaseURL` and `sourceURL` references
/// with signed proxy URLs whose tokens expire `ttl_secs` from now; a clock
/// that reads before the epoch counts as the epoch (`issue_time`).
pub fn rewrite_dash_manifest(
    manifest: &str,
    subject: &str,
    resource: &str,
    scope: &str,
    secret: &str,
    ttl_secs: u64,
    url_prefix: &str,
) -> (r: String)
    requires
        subject@.len() + resource@.len() + scope@.len() + manifest@.len() <= MAX_TOKEN_TEXT,
    ensures
        exists|now: u64|
            r@ == rewrite_dash(
                manifest@,
                #[trigger] sign_args(subject, resource, scope, secret, ttl_secs, url_prefix, now),
            ) && dash_refs_verify(manifest@, sign_args(subject, resource, scope, secret, ttl_secs, url_prefix, now)),
{
    let now = crate::token::issue_time(crate::bindings::now_secs());
    let r = rewrite_dash_manifest_at(manifest, subject, resource, scope, secret, ttl_secs, url_prefix, now);
    assert(r@ == rewrite_dash(manifest@, sign_args(subject, resource, scope, secret, ttl_secs, url_prefix, now))
        && dash_refs_verify(manifest@, sign_args(subject, resource, scope, secret, ttl_secs, url_prefix, now)));
    r
}

} // verus!

verus! {

/// Describes a single rendition for manifest generation.
#[derive(Debug, Clone)]
pub struct RenditionInfo {
    pub name: String,
    pub width: u32,
    pub height: u32,
    pub bandwidth: u64,
    pub playlist_file: String,
}

/// The tag line that describes one rendition in a master playlist.
pub open spec fn stream_tag(r: RenditionInfo) -> Seq<char> {
    "#EXT-X-STREAM-INF:BANDWIDTH="@ + dec(r.bandwidth as nat) + ",RESOLUTION="@ + dec(r.width as nat)
        + "x"@ + dec(r.height as nat) + ",CODECS=\"avc1.4d401f,mp4a.40.2\""@
}

/// Where a master playlist points for one rendition's playlist.
pub open spec fn rendition_path(r: RenditionInfo, base: Seq<char>) -> Seq<char> {
    base + "/"@ + r.name@ + "/"@ + r.playlist_file@
}

/// The two playlist lines of one rendition in a master playlist.
pub open spec fn hls_entry(r: RenditionInfo, base: Seq<char>) -> Seq<Seq<char>> {
    seq![stream_tag(r), rendition_path(r, base)]
}

/// The lines of a master playlist: the header, then two lines per rendition.
pub open spec fn hls_master_lines(rs: Seq<RenditionInfo>, base: Seq<char>) -> Seq<Seq<char>>
    decreases rs.len(),
{
    if rs.len() == 0 {
        seq!["#EXTM3U"@, "#EXT-X-VERSION:7"@]
    } else {
        hls_master_lines(rs.drop_last(), base) + hls_entry(rs.last(), base)
    }
}

/// The master playlist: its lines joined by line feeds, with a final line feed.
pub open spec fn hls_master(rs: Seq<RenditionInfo>, base: Seq<char>) -> Seq<char> {
    join(hls_master_lines(rs, base), seq!['\n']) + seq!['\n']
}

fn entry_lines(r: &RenditionInfo, base_url: &str) -> (v: (Vec<char>, Vec<char>))
    ensures
        seq![v.0@, v.1@] == hls_entry(*r, base_url@),
{
    let mut a: Vec<char> = Vec::new();
    crate::text::push_str(&mut a, "#EXT-X-STREAM-INF:BANDWIDTH=");
    append(&mut a, crate::text::u64_digits(r.bandwidth).as_slice());
    crate::text::push_str(&mut a, ",RESOLUTION=");
    append(&mut a, crate::text::u64_digits(r.width as u64).as_slice());
    crate::text::push_str(&mut a, "x");
    append(&mut a, crate::text::u64_digits(r.height as u64).as_slice());
    crate::text::push_str(&mut a, ",CODECS=\"avc1.4d401f,mp4a.40.2\"");
    let mut b: Vec<char> = chars_of(base_url);
    crate::text::push_str(&mut b, "/");
    crate::text::push_string(&mut b, &r.name);
    crate::text::push_str(&mut b, "/");
    crate::text::push_string(&mut b, &r.playlist_file);
    (a, b)
}

/// Generates an HLS master playlist that references each rendition's playlist.
pub fn generate_hls_master(renditions: &[RenditionInfo], base_url: &str) -> (r: String)
    ensures
        r@ == hls_master(renditions@, base_url@),
{
    let mut out: Vec<Vec<char>> = Vec::new();
    out.push(chars_of("#EXTM3U"));
    out.push(chars_of("#EXT-X-VERSION:7"));
    assert(views(out@) =~= hls_master_lines(renditions@.take(0), base_url@));
    let mut k: usize = 0;
    while k < renditions.len()
        invariant
            k <= renditions@.len(),
            views(out@) == hls_master_lines(renditions@.take(k as int), base_url@),
        decreases renditions.len() - k,
    {
        let ghost before = out@;
        let (a, b) = entry_lines(&renditions[k], base_url);
        out.push(a);
        out.push(b);
        k = k + 1;
        assert(renditions@.take(k as int).drop_last() =~= renditions@.take(k - 1));
        assert(views(out@) =~= views(before) + seq![a@, b@]);
    }
    assert(renditions@.take(renditions@.len() as int) =~= renditions@);
    let mut sep: Vec<char> = Vec::new();
    sep.push('\n');
    let mut joined = join_chars(&out, sep.as_slice());
    joined.push('\n');
    assert(sep@ =~= seq!['\n']);
    string_of(joined.as_slice())
}

/// The `Representation` element of one rendition in a DASH manifest.
pub open spec fn dash_representation(r: RenditionInfo, base: Seq<char>) -> Seq<char> {
    "      <Representation id=\""@ + r.name@
        + "\" mimeType=\"video/mp4\" codecs=\"avc1.4d401f\" width=\""@ + dec(r.width as nat)
        + "\" height=\""@ + dec(r.height as nat) + "\" bandwidth=\""@ + dec(r.bandwidth as nat)
        + "\">\n        <BaseURL>"@ + base + "/"@ + r.name@
        + "/</BaseURL>\n        <SegmentList>\n          <Initialization sourceURL=\"init.mp4\"/>\n        </SegmentList>\n      </Representation>\n"@
}

/// The representations of all renditions, in order.
pub open spec fn dash_adaptations(rs: Seq<RenditionInfo>, base: Seq<char>) -> Seq<char>
    decreases rs.len(),
{
    if rs.len() == 0 {
        Seq::empty()
    } else {
        dash_adaptations(rs.drop_last(), base) + dash_representation(rs.last(), base)
    }
}

/// The DASH manifest for the renditions, with an ISO 8601 duration.
pub open spec fn dash_mpd(rs: Seq<RenditionInfo>, base: Seq<char>, duration_seconds: u64) -> Seq<char> {
    "<?xml version=\"1.0\" encoding=\"UTF-8\"?>\n<MPD xmlns=\"urn:mpeg:dash:schema:mpd:2011\" type=\"static\" mediaPresentationDuration=\""@
        + "PT"@ + dec(duration_seconds as nat) + "S"@
        + "\" minBufferTime=\"PT2S\" profiles=\"urn:mpeg:dash:profile:isoff-on-demand:2011\">\n  <Period>\n    <AdaptationSet contentType=\"video\" segmentAlignment=\"true\" bitstreamSwitching=\"true\">\n"@
        + dash_adaptations(rs, base) + "    </AdaptationSet>\n  </Period>\n</MPD>\n"@
}

fn representation(r: &RenditionInfo, base_url: &str) -> (v: Vec<char>)
    ensures
        v@ == dash_representation(*r, base_url@),
{
    let mut a: Vec<char> = Vec::new();
    crate::text::push_str(&mut a, "      <Representation id=\"");
    crate::text::push_string(&mut a, &r.name);
    crate::text::push_str(&mut a, "\" mimeType=\"video/mp4\" codecs=\"avc1.4d401f\" width=\"");
    append(&mut a, crate::text::u64_digits(r.width as u64).as_slice());
    crate::text::push_str(&mut a, "\" height=\"");
    append(&mut a, crate::text::u64_digits(r.height as u64).as_slice());
    crate::text::push_str(&mut a, "\" bandwidth=\"");
    append(&mut a, crate::text::u64_digits(r.bandwidth).as_slice());
    crate::text::push_str(&mut a, "\">\n        <BaseURL>");
    crate::text::push_str(&mut a, base_url);
    crate::text::push_str(&mut a, "/");
    crate::text::push_string(&mut a, &r.name);
    crate::text::push_str(&mut a, "/</BaseURL>\n        <SegmentList>\n          <Initialization sourceURL=\"init.mp4\"/>\n        </SegmentList>\n      </Representation>\n");
    a
}

/// Generates a DASH MPD manifest for the renditions.
pub fn generate_dash_mpd(renditions: &[RenditionInfo], base_url: &str, duration_seconds: u64) -> (r: String)
    ensures
        r@ == dash_mpd(renditions@, base_url@, duration_seconds),
{
    let mut adaptations: Vec<char> = Vec::new();
    let mut k: usize = 0;
    assert(adaptations@ =~= dash_adaptations(renditions@.take(0), base_url@));
    while k < renditions.len()
        invariant
            k <= renditions@.len(),
            adaptations@ == dash_adaptations(renditions@.take(k as int), base_url@),
        decreases renditions.len() - k,
    {
        let rep = representation(&renditions[k], base_url);
        append(&mut adaptations, rep.as_slice());
        k = k + 1;
        assert(renditions@.take(k as int).drop_last() =~= renditions@.take(k - 1));
    }
    assert(renditions@.take(renditions@.len() as int) =~= renditions@);
    let mut out: Vec<char> = Vec::new();
    crate::text::push_str(&mut out, "<?xml version=\"1.0\" encoding=\"UTF-8\"?>\n<MPD xmlns=\"urn:mpeg:dash:schema:mpd:2011\" type=\"static\" mediaPresentationDuration=\"");
    crate::text::push_str(&mut out, "PT");
    append(&mut out, crate::text::u64_digits(duration_seconds).as_slice());
    crate::text::push_str(&mut out, "S");
    crate::text::push_str(&mut out, "\" minBufferTime=\"PT2S\" profiles=\"urn:mpeg:dash:profile:isoff-on-demand:2011\">\n  <Period>\n    <AdaptationSet contentType=\"video\" segmentAlignment=\"true\" bitstreamSwitching=\"true\">\n");
    append(&mut out, adaptations.as_slice());
    crate::text::push_str(&mut out, "    </AdaptationSet>\n  </Period>\n</MPD>\n");
    string_of(out.as_slice())
}

} // verus!

verus! {

/// Splitting `a c b` on `c` gives the pieces of `a` and then those of `b`.
proof fn lemma_split_around(a: Seq<char>, b: Seq<char>, c: char)
    ensures
        split(a + seq![c] + b, c) == split(a, c) + split(b, c),
    decreases a.len(),
{
    let s = a + seq![c] + b;
    lemma_split_nonempty(b, c);
    if a.len() == 0 {
        assert(s.drop_first() =~= b);
        assert(split(s, c) =~= split(a, c) + split(b, c));
    } else {
        let a1 = a.drop_first();
        lemma_split_around(a1, b, c);
        lemma_split_nonempty(a1, c);
        assert(s.drop_first() =~= a1 + seq![c] + b);
        assert(s[0] == a[0]);
        assert(split(s, c) =~= split(a, c) + split(b, c));
    }
}

/// Lines that hold no line feed, joined by line feeds, split back into themselves.
proof fn lemma_split_joined(ls: Seq<Seq<char>>)
    requires
        ls.len() > 0,
        forall|i: int| 0 <= i < ls.len() ==> !has_char(#[trigger] ls[i], '\n'),
    ensures
        split(join(ls, seq!['\n']), '\n') == ls,
    decreases ls.len(),
{
    if ls.len() == 1 {
        lemma_split_plain(ls[0], '\n');
        assert(seq![ls[0]] =~= ls);
    } else {
        let init = ls.drop_last();
        assert(forall|i: int| 0 <= i < init.len() ==> !has_char(#[trigger] init[i], '\n')) by {
            assert forall|i: int| 0 <= i < init.len() implies !has_char(#[trigger] init[i], '\n') by {
                assert(init[i] == ls[i]);
            }
        }
        lemma_split_joined(init);
        lemma_split_around(join(init, seq!['\n']), ls.last(), '\n');
        assert(join(init, seq!['\n']) + seq!['\n'] + ls.last() == join(ls, seq!['\n']));
        lemma_split_plain(ls.last(), '\n');
        assert(init + seq![ls.last()] =~= ls);
    }
}

/// Lines that hold no line feed and do not end with a carriage return,
/// joined by line feeds with a final line feed, read back as themselves.
pub proof fn lemma_lines_of_joined(ls: Seq<Seq<char>>)
    requires
        ls.len() > 0,
        forall|i: int|
            0 <= i < ls.len() ==> !has_char(#[trigger] ls[i], '\n') && !(ls[i].len() > 0
                && ls[i].last() == '\r'),
    ensures
        lines(join(ls, seq!['\n']) + seq!['\n']) == ls,
{
    lemma_split_joined(ls);
    lemma_split_around(join(ls, seq!['\n']), Seq::<char>::empty(), '\n');
    assert(join(ls, seq!['\n']) + seq!['\n'] + Seq::<char>::empty() =~= join(ls, seq!['\n']) + seq!['\n']);
    assert(split(Seq::<char>::empty(), '\n') =~= seq![Seq::<char>::empty()]);
    let p = split(join(ls, seq!['\n']) + seq!['\n'], '\n');
    assert(p =~= ls + seq![Seq::<char>::empty()]);
    assert(lines(join(ls, seq!['\n']) + seq!['\n']) =~= ls);
}

} // verus!

verus! {

/// The lines of a master playlist: the two header lines, then the tag line
/// and the playlist path of each rendition in turn.
pub proof fn lemma_master_lines_at(rs: Seq<RenditionInfo>, base: Seq<char>)
    ensures
        hls_master_lines(rs, base).len() == 2 + 2 * rs.len(),
        hls_master_lines(rs, base)[0] == "#EXTM3U"@,
        hls_master_lines(rs, base)[1] == "#EXT-X-VERSION:7"@,
        forall|k: int|
            0 <= k < rs.len() ==> hls_master_lines(rs, base)[2 + 2 * k] == stream_tag(#[trigger] rs[k])
                && hls_master_lines(rs, base)[3 + 2 * k] == rendition_path(rs[k], base),
    decreases rs.len(),
{
    if rs.len() > 0 {
        let init = rs.drop_last();
        lemma_master_lines_at(init, base);
        let l = hls_master_lines(rs, base);
        assert(l == hls_master_lines(init, base) + hls_entry(rs.last(), base));
        assert forall|k: int| 0 <= k < rs.len() implies l[2 + 2 * k] == stream_tag(#[trigger] rs[k])
            && l[3 + 2 * k] == rendition_path(rs[k], base) by {
            if k < init.len() {
                assert(init[k] == rs[k]);
            }
        }
    }
}

/// Text made of two parts holds `c` only where one of them does.
proof fn lemma_lack_concat(a: Seq<char>, b: Seq<char>, c: char)
    requires
        !has_char(a, c),
        !has_char(b, c),
    ensures
        !has_char(a + b, c),
{
    if has_char(a + b, c) {
        let i = choose|i: int| 0 <= i < (a + b).len() && (a + b)[i] == c;
        if i < a.len() {
            assert(a[i] == c);
        } else {
            assert(b[i - a.len()] == c);
        }
    }
}

/// The tag line of a rendition holds no line feed, starts with `#` and ends with `"`.
proof fn lemma_stream_tag(r: RenditionInfo)
    ensures
        !has_char(stream_tag(r), '\n'),
        stream_tag(r).len() > 0,
        stream_tag(r)[0] == '#',
        stream_tag(r).last() == '"',
{
    let l1 = "#EXT-X-STREAM-INF:BANDWIDTH="@;
    let l2 = ",RESOLUTION="@;
    let l3 = "x"@;
    let l4 = ",CODECS=\"avc1.4d401f,mp4a.40.2\""@;
    reveal_strlit("#EXT-X-STREAM-INF:BANDWIDTH=");
    reveal_strlit(",RESOLUTION=");
    reveal_strlit("x");
    reveal_strlit(",CODECS=\"avc1.4d401f,mp4a.40.2\"");
    assert(!has_char(l1, '\n'));
    assert(!has_char(l2, '\n'));
    assert(!has_char(l3, '\n'));
    assert(!has_char(l4, '\n'));
    let d1 = dec(r.bandwidth as nat);
    let d2 = dec(r.width as nat);
    let d3 = dec(r.height as nat);
    crate::text::lemma_dec(r.bandwidth as nat);
    crate::text::lemma_dec(r.width as nat);
    crate::text::lemma_dec(r.height as nat);
    assert(!crate::text::is_digit('\n'));
    crate::text::lemma_digits_lack(d1, '\n');
    crate::text::lemma_digits_lack(d2, '\n');
    crate::text::lemma_digits_lack(d3, '\n');
    lemma_lack_concat(l1, d1, '\n');
    lemma_lack_concat(l1 + d1, l2, '\n');
    lemma_lack_concat(l1 + d1 + l2, d2, '\n');
    lemma_lack_concat(l1 + d1 + l2 + d2, l3, '\n');
    lemma_lack_concat(l1 + d1 + l2 + d2 + l3, d3, '\n');
    lemma_lack_concat(l1 + d1 + l2 + d2 + l3 + d3, l4, '\n');
    assert(stream_tag(r) == l1 + d1 + l2 + d2 + l3 + d3 + l4);
    assert(stream_tag(r)[0] == l1[0]);
    assert(stream_tag(r).last() == l4.last());
}

} // verus!

verus! {

/// Whether a master playlist's paths are plain: the base does not start
/// with whitespace or `#`, no playlist file ends with whitespace, and
/// neither the base nor any rendition's name or playlist file holds a line
/// feed.
pub open spec fn plain_master(rs: Seq<RenditionInfo>, base: Seq<char>) -> bool {
    &&& base.len() > 0 ==> !is_ws(base[0]) && base[0] != '#'
    &&& !has_char(base, '\n')
    &&& forall|k: int|
        0 <= k < rs.len() ==> !has_char((#[trigger] rs[k]).name@, '\n') && !has_char(
            rs[k].playlist_file@,
            '\n',
        ) && (rs[k].playlist_file@.len() > 0 ==> !is_ws(rs[k].playlist_file@.last()))
}

/// A plain rendition path starts with neither whitespace nor `#`, and does
/// not end with whitespace.
proof fn lemma_path_ends(r: RenditionInfo, base: Seq<char>)
    requires
        base.len() > 0 ==> !is_ws(base[0]) && base[0] != '#',
        r.playlist_file@.len() > 0 ==> !is_ws(r.playlist_file@.last()),
    ensures
        rendition_path(r, base).len() > 0,
        !is_ws(rendition_path(r, base)[0]),
        rendition_path(r, base)[0] != '#',
        !is_ws(rendition_path(r, base).last()),
{
    reveal_strlit("/");
    let p = rendition_path(r, base);
    if base.len() > 0 {
        assert(p[0] == base[0]);
    } else {
        assert(p[0] == '/');
    }
    if r.playlist_file@.len() > 0 {
        assert(p.last() == r.playlist_file@.last());
    } else {
        assert(p.last() == '/');
    }
}

/// A master playlist made by `generate_hls_master` and then rewritten for a
/// viewer keeps its shape: it reads back as its 2 + 2n lines; the rewrite is
/// those lines, one by one, joined by line feeds; the two header lines and
/// every rendition's tag line are kept as they are, and every rendition's
/// playlist path becomes the signed URL of that path. Where the rewrite's
/// tokens verify, each rendition's token verifies as the viewer, the film,
/// the platform and that rendition's playlist path.
pub proof fn lemma_master_rewrite(rs: Seq<RenditionInfo>, base: Seq<char>, a: SignArgs)
    requires
        plain_master(rs, base),
    ensures
        lines(hls_master(rs, base)) == hls_master_lines(rs, base),
        hls_master_lines(rs, base).len() == 2 + 2 * rs.len(),
        rewrite_hls(hls_master(rs, base), a) == join(
            Seq::new(
                (2 + 2 * rs.len()) as nat,
                |i: int| hls_line(hls_master_lines(rs, base)[i], a),
            ),
            seq!['\n'],
        ),
        hls_line(hls_master_lines(rs, base)[0], a) == "#EXTM3U"@,
        hls_line(hls_master_lines(rs, base)[1], a) == "#EXT-X-VERSION:7"@,
        forall|k: int|
            0 <= k < rs.len() ==> hls_line(hls_master_lines(rs, base)[2 + 2 * k], a) == stream_tag(
                #[trigger] rs[k],
            ) && hls_line(hls_master_lines(rs, base)[3 + 2 * k], a) == signed_ref(
                rendition_path(rs[k], base),
                a,
            ),
        segments_verify(hls_master(rs, base), a) ==> forall|k: int|
            0 <= k < rs.len() ==> ref_verifies(rendition_path(#[trigger] rs[k], base), a),
{
    let l = hls_master_lines(rs, base);
    lemma_master_lines_at(rs, base);
    reveal_strlit("#EXTM3U");
    reveal_strlit("#EXT-X-VERSION:7");
    reveal_strlit("/");
    assert(!has_char("#EXTM3U"@, '\n'));
    assert(!has_char("#EXT-X-VERSION:7"@, '\n'));
    assert(!has_char("/"@, '\n'));
    assert forall|i: int| 0 <= i < l.len() implies !has_char(#[trigger] l[i], '\n') && !(l[i].len() > 0
        && l[i].last() == '\r') && l[i].len() > 0 && !is_ws(l[i][0]) && !is_ws(l[i].last()) by {
        if i >= 2 {
            let k = (i - 2) / 2;
            assert(0 <= k < rs.len());
            let r = rs[k];
            if i == 2 + 2 * k {
                lemma_stream_tag(r);
            } else {
                assert(i == 3 + 2 * k);
                let p = rendition_path(r, base);
                lemma_lack_concat(base, "/"@, '\n');
                lemma_lack_concat(base + "/"@, r.name@, '\n');
                lemma_lack_concat(base + "/"@ + r.name@, "/"@, '\n');
                lemma_lack_concat(base + "/"@ + r.name@ + "/"@, r.playlist_file@, '\n');
                lemma_path_ends(r, base);
            }
        }
    }
    lemma_lines_of_joined(l);
    assert(lines(hls_master(rs, base)) == l);
    let m = hls_master(rs, base);
    assert(rewrite_hls(m, a) == join(
        Seq::new((2 + 2 * rs.len()) as nat, |i: int| hls_line(l[i], a)),
        seq!['\n'],
    )) by {
        assert(Seq::new(lines(m).len(), |i: int| hls_line(lines(m)[i], a)) =~= Seq::new(
            (2 + 2 * rs.len()) as nat,
            |i: int| hls_line(l[i], a),
        ));
    }
    crate::text::lemma_trim_same(l[0]);
    crate::text::lemma_trim_same(l[1]);
    assert forall|k: int| 0 <= k < rs.len() implies hls_line(l[2 + 2 * k], a) == stream_tag(
        #[trigger] rs[k],
    ) && hls_line(l[3 + 2 * k], a) == signed_ref(rendition_path(rs[k], base), a) by {
        crate::text::lemma_trim_same(l[2 + 2 * k]);
        crate::text::lemma_trim_same(l[3 + 2 * k]);
        lemma_stream_tag(rs[k]);
        lemma_path_ends(rs[k], base);
    }
    if segments_verify(m, a) {
        assert forall|k: int| 0 <= k < rs.len() implies ref_verifies(
            rendition_path(#[trigger] rs[k], base),
            a,
        ) by {
            let i = 3 + 2 * k;
            let p = rendition_path(rs[k], base);
            assert(l[i] == p);
            lemma_path_ends(rs[k], base);
            crate::text::lemma_trim_same(l[i]);
            assert(segment_line(lines(m)[i]));
        }
    }
}

} // verus!
