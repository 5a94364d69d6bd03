//! Film metadata from The Movie Database: the request URLs, the records its
//! API returns, how a movie's details and credits combine into enrichment
//! data, and the cast and crew rows that enrichment stores for a film.
use crate::text::{chars_of, dec_int, i64_digits, owned, parse_i64, parse_i64_chars, push_str,
    push_string, replace_all, split, split_chars, str_is, string_of, texts};
use vstd::prelude::*;

verus! {

/// Whether `c` passes through URL encoding unchanged.
pub open spec fn url_safe(c: char) -> bool {
    ('A' <= c && c <= 'Z') || ('a' <= c && c <= 'z') || ('0' <= c && c <= '9') || c == '-' || c
        == '_' || c == '.' || c == '~'
}

/// An upper-case hexadecimal digit.
pub open spec fn hex_digit(d: nat) -> char {
    if d < 10 {
        crate::text::digit_char(d)
    } else if d == 10 {
        'A'
    } else if d == 11 {
        'B'
    } else if d == 12 {
        'C'
    } else if d == 13 {
        'D'
    } else if d == 14 {
        'E'
    } else {
        'F'
    }
}

/// How one character is encoded: unreserved characters stay, a space
/// becomes `+`, and anything else becomes `%` and two upper-case hex digits
/// of the low byte of its code point.
pub open spec fn encode_char(c: char) -> Seq<char> {
    if url_safe(c) {
        seq![c]
    } else if c == ' ' {
        seq!['+']
    } else {
        let b = (c as u32) % 256;
        seq!['%', hex_digit((b / 16) as nat), hex_digit((b % 16) as nat)]
    }
}

/// The URL encoding of `s`, character by character.
pub open spec fn url_encode(s: Seq<char>) -> Seq<char>
    decreases s.len(),
{
    if s.len() == 0 {
        Seq::empty()
    } else {
        url_encode(s.drop_last()) + encode_char(s.last())
    }
}

fn hex(d: u32) -> (c: char)
    requires
        d < 16,
    ensures
        c == hex_digit(d as nat),
{
    if d == 0 { '0' } else if d == 1 { '1' } else if d == 2 { '2' } else if d == 3 { '3' }
    else if d == 4 { '4' } else if d == 5 { '5' } else if d == 6 { '6' } else if d == 7 { '7' }
    else if d == 8 { '8' } else if d == 9 { '9' } else if d == 10 { 'A' } else if d == 11 { 'B' }
    else if d == 12 { 'C' } else if d == 13 { 'D' } else if d == 14 { 'E' } else { 'F' }
}

/// URL-encodes `s` for a query string.
pub fn encode(s: &str) -> (r: String)
    ensures
        r@ == url_encode(s@),
{
    let cs = chars_of(s);
    let mut out: Vec<char> = Vec::new();
    let mut i: usize = 0;
    while i < cs.len()
        invariant
            i <= cs@.len(),
            cs@ == s@,
            out@ == url_encode(s@.take(i as int)),
        decreases cs.len() - i,
    {
        assert(s@.take(i + 1).drop_last() =~= s@.take(i as int));
        let c = cs[i];
        let ghost before = out@;
        if ('A' <= c && c <= 'Z') || ('a' <= c && c <= 'z') || ('0' <= c && c <= '9') || c == '-'
            || c == '_' || c == '.' || c == '~' {
            out.push(c);
        } else if c == ' ' {
            out.push('+');
        } else {
            let b = (c as u32) % 256;
            out.push('%');
            out.push(hex(b / 16));
            out.push(hex(b % 16));
        }
        assert(out@ =~= before + encode_char(c));
        i = i + 1;
    }
    assert(s@.take(cs@.len() as int) =~= s@);
    string_of(out.as_slice())
}

/// What URL encoding writes is safe in a query string: unreserved
/// characters, `+` and `%`-escapes with upper-case hex digits only; text made
/// of unreserved characters alone is left as it is.
pub proof fn lemma_url_encode_safe(s: Seq<char>)
    ensures
        forall|i: int|
            0 <= i < url_encode(s).len() ==> url_safe(#[trigger] url_encode(s)[i]) || url_encode(s)[i]
                == '+' || url_encode(s)[i] == '%',
        (forall|i: int| 0 <= i < s.len() ==> url_safe(#[trigger] s[i])) ==> url_encode(s) == s,
    decreases s.len(),
{
    if s.len() > 0 {
        lemma_url_encode_safe(s.drop_last());
        let a = url_encode(s.drop_last());
        let c = s.last();
        let e = encode_char(c);
        assert forall|i: int| 0 <= i < e.len() implies url_safe(#[trigger] e[i]) || e[i] == '+' || e[i] == '%' by {
            if !url_safe(c) && c != ' ' {
                let b = (c as u32) % 256;
                assert(b / 16 < 16 && b % 16 < 16);
            }
        }
        assert forall|i: int| 0 <= i < url_encode(s).len() implies url_safe(#[trigger] url_encode(s)[i])
            || url_encode(s)[i] == '+' || url_encode(s)[i] == '%' by {
            if i < a.len() {
                assert(url_encode(s)[i] == a[i]);
            } else {
                assert(url_encode(s)[i] == e[i - a.len()]);
            }
        }
        if forall|i: int| 0 <= i < s.len() ==> url_safe(#[trigger] s[i]) {
            assert(forall|i: int| 0 <= i < s.drop_last().len() ==> url_safe(#[trigger] s.drop_last()[i])) by {
                assert forall|i: int| 0 <= i < s.drop_last().len() implies url_safe(#[trigger] s.drop_last()[i]) by {
                    assert(s.drop_last()[i] == s[i]);
                }
            }
            assert(url_safe(s[s.len() - 1]));
            assert(s.drop_last().push(c) =~= s);
        }
    }
}

/// Whether `c` is an upper-case hexadecimal digit.
pub open spec fn is_hex(c: char) -> bool {
    ('0' <= c && c <= '9') || ('A' <= c && c <= 'F')
}

/// The value of an upper-case hexadecimal digit.
pub open spec fn hex_val(c: char) -> nat {
    if c == '1' { 1 } else if c == '2' { 2 } else if c == '3' { 3 } else if c == '4' { 4 }
    else if c == '5' { 5 } else if c == '6' { 6 } else if c == '7' { 7 } else if c == '8' { 8 }
    else if c == '9' { 9 } else if c == 'A' { 10 } else if c == 'B' { 11 } else if c == 'C' { 12 }
    else if c == 'D' { 13 } else if c == 'E' { 14 } else if c == 'F' { 15 } else { 0 }
}

/// Decoding as `application/x-www-form-urlencoded` does: `+` is a space,
/// `%` and two hex digits stand for the character with that code, and any
/// other character stands for itself.
pub open spec fn form_decode(t: Seq<char>) -> Seq<char>
    decreases t.len(),
{
    if t.len() == 0 {
        Seq::empty()
    } else if t[0] == '+' {
        seq![' '] + form_decode(t.drop_first())
    } else if t[0] == '%' && t.len() >= 3 {
        seq![((16 * hex_val(t[1]) + hex_val(t[2])) as u32) as char] + form_decode(t.skip(3))
    } else {
        seq![t[0]] + form_decode(t.drop_first())
    }
}

/// URL encoding goes character by character: the encoding of `a + b` is
/// that of `a` followed by that of `b`.
pub proof fn lemma_url_encode_concat(a: Seq<char>, b: Seq<char>)
    ensures
        url_encode(a + b) == url_encode(a) + url_encode(b),
    decreases b.len(),
{
    if b.len() == 0 {
        assert(a + b =~= a);
        assert(url_encode(a) + url_encode(b) =~= url_encode(a));
    } else {
        lemma_url_encode_concat(a, b.drop_last());
        assert((a + b).drop_last() =~= a + b.drop_last());
        assert((a + b).last() == b.last());
        assert(url_encode(a + b) =~= url_encode(a) + url_encode(b));
    }
}

/// Every `%` that URL encoding writes is followed by two upper-case hex digits.
pub proof fn lemma_url_encode_escapes(s: Seq<char>)
    ensures
        forall|i: int|
            0 <= i < url_encode(s).len() && #[trigger] url_encode(s)[i] == '%' ==> i + 2 < url_encode(
                s,
            ).len() && is_hex(url_encode(s)[i + 1]) && is_hex(url_encode(s)[i + 2]),
    decreases s.len(),
{
    if s.len() > 0 {
        lemma_url_encode_escapes(s.drop_last());
        let a = url_encode(s.drop_last());
        let c = s.last();
        let e = encode_char(c);
        let t = url_encode(s);
        assert(t == a + e);
        if !url_safe(c) && c != ' ' {
            let b = (c as u32) % 256;
            assert(b / 16 < 16 && b % 16 < 16);
            assert(is_hex(hex_digit((b / 16) as nat)));
            assert(is_hex(hex_digit((b % 16) as nat)));
        }
        assert forall|i: int| 0 <= i < t.len() && #[trigger] t[i] == '%' implies i + 2 < t.len()
            && is_hex(t[i + 1]) && is_hex(t[i + 2]) by {
            if i < a.len() {
                assert(a[i] == '%');
                assert(t[i + 1] == a[i + 1] && t[i + 2] == a[i + 2]);
            } else {
                assert(e[i - a.len()] == '%');
                assert(i == a.len());
            }
        }
    }
}

/// URL encoding can be undone: decoding the encoding of ASCII text as a
/// form field gives the text back.
pub proof fn lemma_url_encode_roundtrip(s: Seq<char>)
    requires
        forall|i: int| 0 <= i < s.len() ==> (#[trigger] s[i] as u32) < 128,
    ensures
        form_decode(url_encode(s)) == s,
    decreases s.len(),
{
    if s.len() > 0 {
        let c = s[0];
        let rest = s.drop_first();
        assert(forall|i: int| 0 <= i < rest.len() ==> (#[trigger] rest[i] as u32) < 128) by {
            assert forall|i: int| 0 <= i < rest.len() implies (#[trigger] rest[i] as u32) < 128 by {
                assert(rest[i] == s[i + 1]);
            }
        }
        lemma_url_encode_roundtrip(rest);
        lemma_url_encode_concat(seq![c], rest);
        assert(seq![c] + rest =~= s);
        assert(seq![c].drop_last() =~= Seq::<char>::empty());
        assert(seq![c].last() == c);
        assert(url_encode(Seq::<char>::empty()) =~= Seq::<char>::empty());
        assert(url_encode(seq![c]) =~= encode_char(c));
        let t = url_encode(rest);
        let u = encode_char(c) + t;
        assert(url_encode(s) == u);
        assert((c as u32) < 128);
        if url_safe(c) {
            assert(u.drop_first() =~= t);
        } else if c == ' ' {
            assert(u.drop_first() =~= t);
        } else {
            let b = (c as u32) % 256;
            assert(b == c as u32);
            assert(b / 16 < 16 && b % 16 < 16);
            assert(hex_val(hex_digit((b / 16) as nat)) == b / 16);
            assert(hex_val(hex_digit((b % 16) as nat)) == b % 16);
            assert(u.skip(3) =~= t);
            assert(16 * (b / 16) + b % 16 == b);
            vstd::utf8::char_u32_cast(c, b);
            assert(((b as u32) as char) == c);
        }
        assert(form_decode(u) =~= s);
    }
}

/// The search request for movies matching `query`, narrowed to a year where one is given.
pub open spec fn search_url_spec(api_key: Seq<char>, query: Seq<char>, year: Option<i64>) -> Seq<char> {
    let base = "https://api.themoviedb.org/3/search/movie?api_key="@ + api_key + "&query="@
        + url_encode(query);
    match year {
        Some(y) => base + "&year="@ + dec_int(y as int),
        None => base,
    }
}

/// The URL of a movie search.
pub fn search_url(api_key: &str, query: &str, year: Option<i64>) -> (r: String)
    ensures
        r@ == search_url_spec(api_key@, query@, year),
{
    let mut v = chars_of("https://api.themoviedb.org/3/search/movie?api_key=");
    push_str(&mut v, api_key);
    push_str(&mut v, "&query=");
    let q = encode(query);
    push_string(&mut v, &q);
    match year {
        Some(y) => {
            push_str(&mut v, "&year=");
            crate::text::append(&mut v, i64_digits(y).as_slice());
        },
        None => {},
    }
    string_of(v.as_slice())
}

/// The URL of a movie's details.
pub fn movie_url(tmdb_id: i64, api_key: &str) -> (r: String)
    ensures
        r@ == "https://api.themoviedb.org/3/movie/"@ + dec_int(tmdb_id as int) + "?api_key="@ + api_key@,
{
    let mut v = chars_of("https://api.themoviedb.org/3/movie/");
    crate::text::append(&mut v, i64_digits(tmdb_id).as_slice());
    push_str(&mut v, "?api_key=");
    push_str(&mut v, api_key);
    string_of(v.as_slice())
}

/// The URL of a movie's cast and crew.
pub fn credits_url(tmdb_id: i64, api_key: &str) -> (r: String)
    ensures
        r@ == "https://api.themoviedb.org/3/movie/"@ + dec_int(tmdb_id as int) + "/credits?api_key="@
            + api_key@,
{
    let mut v = chars_of("https://api.themoviedb.org/3/movie/");
    crate::text::append(&mut v, i64_digits(tmdb_id).as_slice());
    push_str(&mut v, "/credits?api_key=");
    push_str(&mut v, api_key);
    string_of(v.as_slice())
}

/// The URL of a poster at its original size.
pub fn poster_download_url(poster_path: &str) -> (r: String)
    ensures
        r@ == "https://image.tmdb.org/t/p/original"@ + poster_path@,
{
    let mut v = chars_of("https://image.tmdb.org/t/p/original");
    push_str(&mut v, poster_path);
    string_of(v.as_slice())
}

/// The URL that finds a movie by its IMDB identifier.
pub fn find_url(imdb_id: &str, api_key: &str) -> (r: String)
    ensures
        r@ == "https://api.themoviedb.org/3/find/"@ + imdb_id@ + "?api_key="@ + api_key@
            + "&external_source=imdb_id"@,
{
    let mut v = chars_of("https://api.themoviedb.org/3/find/");
    push_str(&mut v, imdb_id);
    push_str(&mut v, "?api_key=");
    push_str(&mut v, api_key);
    push_str(&mut v, "&external_source=imdb_id");
    string_of(v.as_slice())
}

/// A genre.
#[derive(Debug, Clone)]
pub struct TmdbGenre {
    pub id: i64,
    pub name: String,
}

/// A production country.
#[derive(Debug, Clone)]
pub struct TmdbCountry {
    pub iso_3166_1: String,
    pub name: String,
}

/// A spoken language.
#[derive(Debug, Clone)]
pub struct TmdbLanguage {
    pub iso_639_1: String,
    pub english_name: String,
}

/// A movie's details.
#[derive(Debug, Clone)]
pub struct TmdbMovieDetail {
    pub id: i64,
    pub title: String,
    pub overview: Option<String>,
    pub tagline: Option<String>,
    pub release_date: Option<String>,
    pub runtime: Option<i64>,
    pub poster_path: Option<String>,
    pub imdb_id: Option<String>,
    pub genres: Vec<TmdbGenre>,
    pub production_countries: Vec<TmdbCountry>,
    pub spoken_languages: Vec<TmdbLanguage>,
}

/// A member of the cast.
#[derive(Debug, Clone)]
pub struct TmdbCastMember {
    pub id: i64,
    pub name: String,
    pub character: Option<String>,
    pub known_for_department: Option<String>,
    pub profile_path: Option<String>,
    pub order: Option<i64>,
}

/// A member of the crew.
#[derive(Debug, Clone)]
pub struct TmdbCrewMember {
    pub id: i64,
    pub name: String,
    pub department: Option<String>,
    pub job: Option<String>,
    pub profile_path: Option<String>,
}

/// A movie's cast and crew.
#[derive(Debug, Clone)]
pub struct TmdbCredits {
    pub cast: Vec<TmdbCastMember>,
    pub crew: Vec<TmdbCrewMember>,
}

/// The metadata enrichment applies to a film.
#[derive(Debug, Clone)]
pub struct EnrichmentData {
    pub tmdb_id: i64,
    pub imdb_id: Option<String>,
    pub title: String,
    pub synopsis: Option<String>,
    pub tagline: Option<String>,
    pub year: Option<i64>,
    pub runtime_minutes: Option<i64>,
    pub genres: Vec<String>,
    pub country: Option<String>,
    pub language: Option<String>,
    pub poster_url: Option<String>,
    pub cast: Vec<TmdbCastMember>,
    pub crew: Vec<TmdbCrewMember>,
}

/// The year of a release date: the part before the first `-`, read as a number.
pub open spec fn release_year(date: Option<String>) -> Option<i64> {
    match date {
        Some(d) => parse_i64(split(d@, '-')[0]),
        None => None,
    }
}

/// Where a poster of the given path is served at the width enrichment uses.
pub open spec fn poster_url_of(path: Seq<char>) -> Seq<char> {
    "https://image.tmdb.org/t/p/w780"@ + path
}

/// The enrichment data of a movie: identifiers, title, overview as the
/// synopsis, tagline, release year, runtime, genre names, the first country
/// and language, the poster at 780 pixels wide, and the credits as they came.
pub open spec fn enrichment_of(detail: TmdbMovieDetail, credits: TmdbCredits, e: EnrichmentData) -> bool {
    &&& e.tmdb_id == detail.id
    &&& e.imdb_id == detail.imdb_id
    &&& e.title == detail.title
    &&& e.synopsis == detail.overview
    &&& e.tagline == detail.tagline
    &&& e.year == release_year(detail.release_date)
    &&& e.runtime_minutes == detail.runtime
    &&& texts(e.genres@) == detail.genres@.map_values(|g: TmdbGenre| g.name@)
    &&& (e.country is Some <==> detail.production_countries@.len() > 0)
    &&& (e.country matches Some(c) ==> c@ == detail.production_countries@[0].name@)
    &&& (e.language is Some <==> detail.spoken_languages@.len() > 0)
    &&& (e.language matches Some(l) ==> l@ == detail.spoken_languages@[0].english_name@)
    &&& (e.poster_url is Some <==> detail.poster_path is Some)
    &&& (e.poster_url matches Some(u) ==> u@ == poster_url_of(detail.poster_path->0@))
    &&& e.cast@ == credits.cast@
    &&& e.crew@ == credits.crew@
}

fn year_of_date(date: &Option<String>) -> (r: Option<i64>)
    ensures
        r == release_year(*date),
{
    match date {
        Some(d) => {
            let cs = chars_of(d.as_str());
            let parts = split_chars(cs.as_slice(), '-');
            proof {
                crate::text::lemma_split_nonempty(d@, '-');
            }
            assert(parts@[0]@ == split(d@, '-')[0]);
            parse_i64_chars(parts[0].as_slice())
        },
        None => None,
    }
}

/// Combines a movie's details and credits into enrichment data.
pub fn combine_enrichment(detail: TmdbMovieDetail, credits: TmdbCredits) -> (e: EnrichmentData)
    ensures
        enrichment_of(detail, credits, e),
{
    let ghost d0 = detail;
    let year = year_of_date(&detail.release_date);
    let poster_url = match &detail.poster_path {
        Some(p) => {
            let mut v = chars_of("https://image.tmdb.org/t/p/w780");
            push_string(&mut v, p);
            Some(string_of(v.as_slice()))
        },
        None => None,
    };
    let mut genres: Vec<String> = Vec::new();
    let mut i: usize = 0;
    while i < detail.genres.len()
        invariant
            i <= detail.genres@.len(),
            texts(genres@) == detail.genres@.take(i as int).map_values(|g: TmdbGenre| g.name@),
        decreases detail.genres.len() - i,
    {
        crate::text::push_text(&mut genres, detail.genres[i].name.clone());
        i = i + 1;
        assert(detail.genres@.take(i as int).map_values(|g: TmdbGenre| g.name@) =~= detail.genres@.take(
            i - 1,
        ).map_values(|g: TmdbGenre| g.name@).push(detail.genres@[i - 1].name@));
    }
    assert(detail.genres@.take(detail.genres@.len() as int) =~= detail.genres@);
    let country = if detail.production_countries.len() > 0 {
        Some(detail.production_countries[0].name.clone())
    } else {
        None
    };
    let language = if detail.spoken_languages.len() > 0 {
        Some(detail.spoken_languages[0].english_name.clone())
    } else {
        None
    };
    EnrichmentData {
        tmdb_id: detail.id,
        imdb_id: detail.imdb_id,
        title: detail.title,
        synopsis: detail.overview,
        tagline: detail.tagline,
        year,
        runtime_minutes: detail.runtime,
        genres,
        country,
        language,
        poster_url,
        cast: credits.cast,
        crew: credits.crew,
    }
}

/// The poster path inside a poster URL of enrichment data: the URL with the
/// 780-pixel prefix taken out.
pub fn poster_path_of(poster_url: &str) -> (r: String)
    ensures
        r@ == replace_all(poster_url@, "https://image.tmdb.org/t/p/w780"@, Seq::empty()),
{
    let s = chars_of(poster_url);
    let pat = chars_of("https://image.tmdb.org/t/p/w780");
    proof {
        reveal_strlit("https://image.tmdb.org/t/p/w780");
    }
    let empty: Vec<char> = Vec::new();
    let r = crate::text::replace_all_chars(s.as_slice(), pat.as_slice(), empty.as_slice());
    assert(empty@ =~= Seq::<char>::empty());
    string_of(r.as_slice())
}

/// A cast or crew row stored for a film.
#[derive(Debug, Clone)]
pub struct CastRow {
    pub name: String,
    pub character_name: Option<String>,
    pub department: Option<String>,
    pub job: Option<String>,
    pub sort_order: i64,
    pub profile_url: Option<String>,
    pub tmdb_id: i64,
}

/// Where a profile picture of the given path is served at 185 pixels wide.
pub open spec fn profile_url_of(path: Option<String>) -> Option<Seq<char>> {
    match path {
        Some(p) => Some("https://image.tmdb.org/t/p/w185"@ + p@),
        None => None,
    }
}

/// Whether an optional text holds `t`.
pub open spec fn opt_is(o: Option<String>, t: Option<Seq<char>>) -> bool {
    match (o, t) {
        (Some(s), Some(u)) => s@ == u,
        (None, None) => true,
        _ => false,
    }
}

/// The crew jobs enrichment keeps.
pub open spec fn key_job(job: Option<String>) -> bool {
    job matches Some(j) && (j@ == "Director"@ || j@ == "Producer"@ || j@ == "Writer"@ || j@
        == "Director of Photography"@ || j@ == "Editor"@ || j@ == "Original Music Composer"@)
}

/// The row of the `i`-th cast member: acting, in billing order.
pub open spec fn actor_row(m: TmdbCastMember, i: int, r: CastRow) -> bool {
    &&& r.name@ == m.name@
    &&& opt_is(r.character_name, match m.character {
        Some(c) => Some(c@),
        None => None,
    })
    &&& opt_is(r.department, Some("Acting"@))
    &&& r.job is None
    &&& r.sort_order == i
    &&& opt_is(r.profile_url, profile_url_of(m.profile_path))
    &&& r.tmdb_id == m.id
}

/// The row of a crew member: after the cast, with department and job.
pub open spec fn crew_row(m: TmdbCrewMember, r: CastRow) -> bool {
    &&& r.name@ == m.name@
    &&& r.character_name is None
    &&& r.department == m.department
    &&& r.job == m.job
    &&& r.sort_order == 100
    &&& opt_is(r.profile_url, profile_url_of(m.profile_path))
    &&& r.tmdb_id == m.id
}

/// The crew members in key jobs, in order.
pub open spec fn key_crew(crew: Seq<TmdbCrewMember>) -> Seq<TmdbCrewMember>
    decreases crew.len(),
{
    if crew.len() == 0 {
        Seq::empty()
    } else if key_job(crew.last().job) {
        key_crew(crew.drop_last()).push(crew.last())
    } else {
        key_crew(crew.drop_last())
    }
}

/// The number of cast members enrichment stores.
pub open spec fn billed(cast: Seq<TmdbCastMember>) -> int {
    if cast.len() < 20 {
        cast.len() as int
    } else {
        20
    }
}

/// The rows enrichment stores for a film: the first twenty cast members in
/// order, then the crew members in key jobs.
pub open spec fn credit_rows_of(data: EnrichmentData, rows: Seq<CastRow>) -> bool {
    let n = billed(data.cast@);
    let k = key_crew(data.crew@);
    &&& rows.len() == n + k.len()
    &&& forall|i: int| 0 <= i < n ==> actor_row(data.cast@[i], i, #[trigger] rows[i])
    &&& forall|j: int| 0 <= j < k.len() ==> crew_row(k[j], #[trigger] rows[n + j])
}

fn profile_url(path: &Option<String>) -> (r: Option<String>)
    ensures
        opt_is(r, profile_url_of(*path)),
{
    match path {
        Some(p) => {
            let mut v = chars_of("https://image.tmdb.org/t/p/w185");
            push_string(&mut v, p);
            Some(string_of(v.as_slice()))
        },
        None => None,
    }
}

fn is_key_job(job: &Option<String>) -> (b: bool)
    ensures
        b == key_job(*job),
{
    match job {
        Some(j) => {
            let s = j.as_str();
            str_is(s, "Director") || str_is(s, "Producer") || str_is(s, "Writer") || str_is(
                s,
                "Director of Photography",
            ) || str_is(s, "Editor") || str_is(s, "Original Music Composer")
        },
        None => false,
    }
}

/// The cast and crew rows to store for a film enriched with `data`.
pub fn credit_rows(data: &EnrichmentData) -> (rows: Vec<CastRow>)
    ensures
        credit_rows_of(*data, rows@),
{
    let mut rows: Vec<CastRow> = Vec::new();
    let n: usize = if data.cast.len() < 20 { data.cast.len() } else { 20 };
    let mut i: usize = 0;
    while i < n
        invariant
            i <= n,
            n == billed(data.cast@),
            n <= data.cast@.len(),
            rows@.len() == i,
            forall|j: int| 0 <= j < i ==> actor_row(data.cast@[j], j, #[trigger] rows@[j]),
        decreases n - i,
    {
        let m = &data.cast[i];
        let character = match &m.character {
            Some(c) => Some(c.clone()),
            None => None,
        };
        rows.push(CastRow {
            name: m.name.clone(),
            character_name: character,
            department: Some(owned("Acting")),
            job: None,
            sort_order: i as i64,
            profile_url: profile_url(&m.profile_path),
            tmdb_id: m.id,
        });
        i = i + 1;
    }
    let mut k: usize = 0;
    while k < data.crew.len()
        invariant
            k <= data.crew@.len(),
            n == billed(data.cast@),
            rows@.len() == n + key_crew(data.crew@.take(k as int)).len(),
            forall|j: int| 0 <= j < n ==> actor_row(data.cast@[j], j, #[trigger] rows@[j]),
            forall|j: int|
                0 <= j < key_crew(data.crew@.take(k as int)).len() ==> crew_row(
                    key_crew(data.crew@.take(k as int))[j],
                    #[trigger] rows@[n + j],
                ),
        decreases data.crew.len() - k,
    {
        assert(data.crew@.take(k + 1).drop_last() =~= data.crew@.take(k as int));
        let m = &data.crew[k];
        if is_key_job(&m.job) {
            rows.push(CastRow {
                name: m.name.clone(),
                character_name: None,
                department: m.department.clone(),
                job: m.job.clone(),
                sort_order: 100,
                profile_url: profile_url(&m.profile_path),
                tmdb_id: m.id,
            });
        }
        k = k + 1;
    }
    assert(data.crew@.take(data.crew@.len() as int) =~= data.crew@);
    rows
}

/// Whether `job` is one of the crew jobs a film's credits keep: director,
/// producer, writer, director of photography, editor and composer.
pub open spec fn listed_job(job: Option<String>) -> bool {
    job matches Some(j) && (j@ == "Director"@ || j@ == "Producer"@ || j@ == "Writer"@ || j@
        == "Director of Photography"@ || j@ == "Editor"@ || j@ == "Original Music Composer"@)
}

/// Every crew member in a listed job is among the key crew, and every key
/// crew member is a crew member in a listed job.
proof fn lemma_key_crew_members(crew: Seq<TmdbCrewMember>, j: int)
    requires
        0 <= j < crew.len(),
        listed_job(crew[j].job),
    ensures
        exists|k: int| 0 <= k < key_crew(crew).len() && key_crew(crew)[k] == crew[j],
    decreases crew.len(),
{
    let init = crew.drop_last();
    let a = key_crew(crew);
    let b = key_crew(init);
    if key_job(crew.last().job) {
        assert(a == b.push(crew.last()));
    } else {
        assert(a == b);
    }
    if j < init.len() {
        assert(init[j] == crew[j]);
        lemma_key_crew_members(init, j);
        let k = choose|k: int| 0 <= k < b.len() && b[k] == init[j];
        assert(a[k] == b[k]);
    } else {
        assert(a[a.len() - 1] == crew[j]);
    }
}

proof fn lemma_key_crew_listed(crew: Seq<TmdbCrewMember>, k: int)
    requires
        0 <= k < key_crew(crew).len(),
    ensures
        listed_job(key_crew(crew)[k].job),
    decreases crew.len(),
{
    let init = crew.drop_last();
    let a = key_crew(crew);
    let b = key_crew(init);
    if key_job(crew.last().job) {
        assert(a == b.push(crew.last()));
    } else {
        assert(a == b);
    }
    if k < b.len() {
        lemma_key_crew_listed(init, k);
        assert(a[k] == b[k]);
    }
}

/// The rows stored for a film's credits keep exactly the crew in the listed
/// jobs: each crew member whose job is director, producer, writer, director
/// of photography, editor or composer gets a crew row after the cast, and
/// every row after the cast is a crew row in one of those jobs, placed at 100.
pub proof fn lemma_credit_rows_keep_listed_crew(data: EnrichmentData, rows: Seq<CastRow>)
    requires
        credit_rows_of(data, rows),
    ensures
        forall|j: int|
            0 <= j < data.crew@.len() && listed_job(#[trigger] data.crew@[j].job) ==> exists|i: int|
                billed(data.cast@) <= i < rows.len() && crew_row(data.crew@[j], rows[i]),
        forall|i: int|
            billed(data.cast@) <= i < rows.len() ==> listed_job(#[trigger] rows[i].job) && rows[i].sort_order
                == 100,
{
    let n = billed(data.cast@);
    let kc = key_crew(data.crew@);
    assert forall|j: int| 0 <= j < data.crew@.len() && listed_job(#[trigger] data.crew@[j].job) implies exists|i: int|
        n <= i < rows.len() && crew_row(data.crew@[j], rows[i]) by {
        lemma_key_crew_members(data.crew@, j);
        let k = choose|k: int| 0 <= k < kc.len() && kc[k] == data.crew@[j];
        assert(crew_row(kc[k], rows[n + k]));
    }
    assert forall|i: int| n <= i < rows.len() implies listed_job(#[trigger] rows[i].job) && rows[i].sort_order
        == 100 by {
        let k = i - n;
        lemma_key_crew_listed(data.crew@, k);
        assert(crew_row(kc[k], rows[n + k]));
    }
}

/// The text a TMDB search runs with: the one asked for, or the film's title.
pub fn search_query(q: Option<String>, film_title: &String) -> (r: String)
    ensures
        r@ == match q {
            Some(s) => s@,
            None => film_title@,
        },
{
    match q {
        Some(s) => s,
        None => film_title.clone(),
    }
}

/// The refusal of an IMDB identifier that TMDB does not know.
pub fn imdb_not_found(imdb_id: &str) -> (e: crate::error::AppError)
    ensures
        crate::error::is_validation(e, "No movie found for IMDB ID: "@ + imdb_id@),
{
    let mut v = chars_of("No movie found for IMDB ID: ");
    push_str(&mut v, imdb_id);
    crate::error::AppError::Validation(string_of(v.as_slice()))
}

/// The search form of enrichment.
#[derive(Debug, Clone)]
pub struct SearchQuery {
    pub q: Option<String>,
}

/// The form that picks a TMDB result.
#[derive(Debug, Clone, Copy)]
pub struct SelectForm {
    pub tmdb_id: i64,
}

/// The form that enriches from an IMDB identifier.
#[derive(Debug, Clone)]
pub struct ImdbForm {
    pub imdb_id: String,
}

} // verus!
