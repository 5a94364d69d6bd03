//! Films as filmmakers submit them: the creation and edit forms, the URL
//! slug of a title, and the filters of the public catalog.
use crate::bindings::{lowercase, to_lowercase};
use crate::error::{is_validation, validation, AppError};
use crate::forms::{csv_field, csv_items, field_text, has_content, non_blank};
use crate::text::{chars_of, dec_int, i64_digits, owned, parse_i64, parse_i64_chars, push_str,
    string_of, texts, trim, trim_chars};
use vstd::prelude::*;

verus! {

/// The characters a slug keeps: ASCII letters and digits.
pub open spec fn slug_char(c: char) -> bool {
    ('a' <= c && c <= 'z') || ('A' <= c && c <= 'Z') || ('0' <= c && c <= '9')
}

/// Reading `s` left to right: the slug so far, and whether a separator is
/// owed before the next kept character.
pub open spec fn slug_scan(s: Seq<char>) -> (Seq<char>, bool)
    decreases s.len(),
{
    if s.len() == 0 {
        (Seq::empty(), false)
    } else {
        let (out, gap) = slug_scan(s.drop_last());
        let c = s.last();
        if slug_char(c) {
            ((if gap && out.len() > 0 { out.push('-') } else { out }).push(c), false)
        } else {
            (out, true)
        }
    }
}

/// The URL slug of a title: lower-cased, each run of other characters
/// between letters and digits turned into one `-`, none at either end.
pub open spec fn slug_of(title: Seq<char>) -> Seq<char> {
    slug_scan(lowercase(title)).0
}

/// A slug holds letters, digits and single dashes between them only.
pub open spec fn slug_shaped(s: Seq<char>) -> bool {
    &&& forall|i: int| 0 <= i < s.len() ==> slug_char(#[trigger] s[i]) || s[i] == '-'
    &&& s.len() > 0 ==> slug_char(s[0]) && slug_char(s.last())
    &&& forall|i: int| 0 <= i < s.len() - 1 ==> !(#[trigger] s[i] == '-' && s[i + 1] == '-')
}

proof fn lemma_slug_scan_shaped(s: Seq<char>)
    ensures
        slug_shaped(slug_scan(s).0),
    decreases s.len(),
{
    if s.len() > 0 {
        lemma_slug_scan_shaped(s.drop_last());
        let (out, gap) = slug_scan(s.drop_last());
        let c = s.last();
        if slug_char(c) {
            let mid = if gap && out.len() > 0 { out.push('-') } else { out };
            let r = mid.push(c);
            assert(r[r.len() - 1] == c);
            assert forall|i: int| 0 <= i < r.len() implies slug_char(#[trigger] r[i]) || r[i] == '-' by {
                if i < out.len() {
                    assert(r[i] == out[i]);
                }
            }
            assert forall|i: int| 0 <= i < r.len() - 1 implies !(#[trigger] r[i] == '-' && r[i + 1] == '-') by {
                if i + 1 < out.len() {
                    assert(r[i] == out[i] && r[i + 1] == out[i + 1]);
                } else if i + 1 == out.len() {
                    assert(r[i] == out[i]);
                    assert(slug_char(out.last()));
                }
            }
            if out.len() > 0 {
                assert(r[0] == out[0]);
            }
        }
    }
}

/// Every slug is URL-safe: letters, digits and single inner dashes.
pub proof fn lemma_slug_shape(title: Seq<char>)
    ensures
        slug_shaped(slug_of(title)),
{
    lemma_slug_scan_shaped(lowercase(title));
}

fn is_slug_char(c: char) -> (b: bool)
    ensures
        b == slug_char(c),
{
    ('a' <= c && c <= 'z') || ('A' <= c && c <= 'Z') || ('0' <= c && c <= '9')
}

/// The URL slug of `title`.
pub fn slugify(title: &str) -> (r: String)
    ensures
        r@ == slug_of(title@),
{
    let lower = to_lowercase(title);
    let cs = chars_of(lower.as_str());
    let mut out: Vec<char> = Vec::new();
    let mut gap = false;
    let mut i: usize = 0;
    while i < cs.len()
        invariant
            i <= cs@.len(),
            cs@ == lowercase(title@),
            (out@, gap) == slug_scan(cs@.take(i as int)),
        decreases cs.len() - i,
    {
        assert(cs@.take(i + 1).drop_last() =~= cs@.take(i as int));
        let c = cs[i];
        if is_slug_char(c) {
            if gap && out.len() > 0 {
                out.push('-');
            }
            out.push(c);
            gap = false;
        } else {
            gap = true;
        }
        i = i + 1;
    }
    assert(cs@.take(cs@.len() as int) =~= cs@);
    string_of(out.as_slice())
}

/// The URL slug of `title`, for callers outside the film pages.
pub fn slugify_public(title: &str) -> (r: String)
    ensures
        r@ == slug_of(title@),
{
    slugify(title)
}

/// The film creation form.
#[derive(Debug, Clone)]
pub struct FilmForm {
    pub title: String,
    pub synopsis: Option<String>,
    pub year: Option<String>,
    pub genres: Option<String>,
    pub language: Option<String>,
    pub country: Option<String>,
    pub declare_copyright: Option<String>,
    pub declare_talent: Option<String>,
    pub declare_no_prohibited: Option<String>,
}

/// The film edit form.
#[derive(Debug, Clone)]
pub struct FilmUpdateForm {
    pub title: String,
    pub synopsis: Option<String>,
    pub year: Option<String>,
    pub genres: Option<String>,
    pub language: Option<String>,
    pub country: Option<String>,
}

/// The status form of a film.
#[derive(Debug, Clone)]
pub struct StatusForm {
    pub status: String,
}

/// The descriptive fields of a film as the forms give them.
#[derive(Debug, Clone)]
pub struct FilmDetails {
    pub title: String,
    pub synopsis: Option<String>,
    pub year: Option<i64>,
    pub genres: Vec<String>,
    pub language: Option<String>,
    pub country: Option<String>,
}

/// A film about to be created, as a draft.
#[derive(Debug, Clone)]
pub struct FilmDraft {
    pub details: FilmDetails,
    pub slug: String,
    pub status: String,
}

/// The year field read as a number; absent, empty or unreadable gives none.
pub open spec fn year_of(o: Option<String>) -> Option<i64> {
    match o {
        Some(s) => parse_i64(s@),
        None => None,
    }
}

/// The details a form gives: the title trimmed, blank text fields left out,
/// the year read as a number, the genres listed.
pub open spec fn details_of(
    title: Seq<char>,
    synopsis: Option<String>,
    year: Option<String>,
    genres: Option<String>,
    language: Option<String>,
    country: Option<String>,
    d: FilmDetails,
) -> bool {
    &&& d.title@ == trim(title)
    &&& (d.synopsis is Some <==> has_content(synopsis))
    &&& (d.synopsis matches Some(s) ==> s@ == field_text(synopsis))
    &&& d.year == year_of(year)
    &&& texts(d.genres@) == csv_items(field_text(genres))
    &&& (d.language is Some <==> has_content(language))
    &&& (d.language matches Some(s) ==> s@ == field_text(language))
    &&& (d.country is Some <==> has_content(country))
    &&& (d.country matches Some(s) ==> s@ == field_text(country))
}

fn read_year(o: &Option<String>) -> (r: Option<i64>)
    ensures
        r == year_of(*o),
{
    match o {
        Some(s) => {
            let c = chars_of(s.as_str());
            if c.len() == 0 {
                None
            } else {
                parse_i64_chars(c.as_slice())
            }
        },
        None => None,
    }
}

fn read_details(
    title: &String,
    synopsis: &Option<String>,
    year: &Option<String>,
    genres: &Option<String>,
    language: &Option<String>,
    country: &Option<String>,
) -> (d: FilmDetails)
    ensures
        details_of(title@, *synopsis, *year, *genres, *language, *country, d),
{
    FilmDetails {
        title: string_of(trim_chars(chars_of(title.as_str()).as_slice()).as_slice()),
        synopsis: non_blank(synopsis),
        year: read_year(year),
        genres: csv_field(genres),
        language: non_blank(language),
        country: non_blank(country),
    }
}

/// Why a film creation form is refused, if it is: every content declaration
/// must be confirmed, then the title must not be blank.
pub open spec fn film_form_error(form: FilmForm) -> Option<Seq<char>> {
    if form.declare_copyright is None || form.declare_talent is None
        || form.declare_no_prohibited is None {
        Some("You must confirm all content declarations."@)
    } else if trim(form.title@).len() == 0 {
        Some("Title is required."@)
    } else {
        None
    }
}

/// Reads a film creation form into a draft with its slug, or the message
/// the form is refused with.
pub fn prepare_film(form: &FilmForm) -> (r: Result<FilmDraft, String>)
    ensures
        match film_form_error(*form) {
            Some(m) => r matches Err(e) && e@ == m,
            None => r matches Ok(f) && details_of(form.title@, form.synopsis, form.year, form.genres,
                form.language, form.country, f.details) && f.slug@ == slug_of(trim(form.title@))
                && f.status@ == "draft"@,
        },
{
    if form.declare_copyright.is_none() || form.declare_talent.is_none()
        || form.declare_no_prohibited.is_none() {
        return Err(owned("You must confirm all content declarations."));
    }
    let details = read_details(&form.title, &form.synopsis, &form.year, &form.genres,
        &form.language, &form.country);
    if chars_of(details.title.as_str()).len() == 0 {
        return Err(owned("Title is required."));
    }
    let slug = slugify(details.title.as_str());
    Ok(FilmDraft { details, slug, status: owned("draft") })
}

/// The draft, unless a film with the same slug exists already.
pub fn accept_draft(draft: FilmDraft, slug_taken: bool) -> (r: Result<FilmDraft, String>)
    ensures
        slug_taken ==> (r matches Err(e) && e@ == "A film with a similar title already exists."@),
        !slug_taken ==> r == Ok::<FilmDraft, String>(draft),
{
    if slug_taken {
        Err(owned("A film with a similar title already exists."))
    } else {
        Ok(draft)
    }
}

/// Reads a film edit form; a blank title is refused.
pub fn prepare_film_update(form: &FilmUpdateForm) -> (r: Result<FilmDetails, AppError>)
    ensures
        trim(form.title@).len() == 0 ==> (r matches Err(e) && is_validation(e, "Title cannot be empty."@)),
        trim(form.title@).len() > 0 ==> (r matches Ok(d) && details_of(form.title@, form.synopsis,
            form.year, form.genres, form.language, form.country, d)),
{
    let d = read_details(&form.title, &form.synopsis, &form.year, &form.genres, &form.language,
        &form.country);
    if chars_of(d.title.as_str()).len() == 0 {
        return Err(validation("Title cannot be empty."));
    }
    Ok(d)
}

/// The catalog's search parameters.
#[derive(Debug, Clone)]
pub struct CatalogQuery {
    pub q: Option<String>,
    pub genre: Option<String>,
    pub year: Option<String>,
    pub language: Option<String>,
}

/// The conditions and parameters of a catalog search. Only published films
/// with an active license are listed; the search text, genre, year and
/// language narrow the list where they are given.
pub open spec fn catalog_spec(q: CatalogQuery) -> (Seq<Seq<char>>, Seq<(Seq<char>, Seq<char>)>) {
    let c0: Seq<Seq<char>> = seq!["status = 'published'"@];
    let b0: Seq<(Seq<char>, Seq<char>)> = Seq::empty();
    let (c1, b1) = if has_content(q.q) {
        (
            c0.push(
                "(string::lowercase(title) CONTAINS string::lowercase($search_q) OR string::lowercase(synopsis) CONTAINS string::lowercase($search_q))"@,
            ),
            b0.push(("search_q"@, trim(field_text(q.q)))),
        )
    } else {
        (c0, b0)
    };
    let (c2, b2) = if has_content(q.genre) {
        (c1.push("$genre IN genres"@), b1.push(("genre"@, trim(field_text(q.genre)))))
    } else {
        (c1, b1)
    };
    let (c3, b3) = if has_content(q.year) && parse_i64(field_text(q.year)) is Some {
        (
            c2.push("year = $year_filter"@),
            b2.push(("year_filter"@, dec_int(parse_i64(field_text(q.year))->0 as int))),
        )
    } else {
        (c2, b2)
    };
    let (c4, b4) = if has_content(q.language) {
        (
            c3.push("string::lowercase(language) = string::lowercase($lang_filter)"@),
            b3.push(("lang_filter"@, trim(field_text(q.language)))),
        )
    } else {
        (c3, b3)
    };
    (c4.push("count(->licensed_via->license[WHERE active = true]) > 0"@), b4)
}

/// The query text of a catalog search with the given conditions.
pub open spec fn catalog_query_text(conditions: Seq<Seq<char>>) -> Seq<char> {
    "SELECT * FROM film WHERE "@ + crate::text::join(conditions, " AND "@)
        + " ORDER BY created_at DESC LIMIT 50"@
}

/// A parameter of a catalog search: its name and its value.
#[derive(Debug, Clone)]
pub struct QueryParam {
    pub name: String,
    pub value: String,
}

/// The parameters as plain text pairs.
pub open spec fn param_views(v: Seq<QueryParam>) -> Seq<(Seq<char>, Seq<char>)> {
    v.map_values(|p: QueryParam| (p.name@, p.value@))
}

fn push_param(v: &mut Vec<QueryParam>, name: &str, value: String)
    ensures
        param_views(final(v)@) == param_views(old(v)@).push((name@, value@)),
{
    let ghost t = value@;
    v.push(QueryParam { name: owned(name), value });
    assert(param_views(v@) =~= param_views(old(v)@).push((name@, t)));
}

fn trimmed_text(o: &Option<String>) -> (r: String)
    ensures
        r@ == trim(field_text(*o)),
{
    match o {
        Some(s) => string_of(trim_chars(chars_of(s.as_str()).as_slice()).as_slice()),
        None => {
            proof {
                reveal_strlit("");
            }
            assert(trim(Seq::<char>::empty()) =~= Seq::<char>::empty());
            owned("")
        },
    }
}

/// The conditions and parameters of a catalog search.
pub fn catalog_filters(q: &CatalogQuery) -> (r: (Vec<String>, Vec<QueryParam>))
    ensures
        (texts(r.0@), param_views(r.1@)) == catalog_spec(*q),
{
    let mut c: Vec<String> = Vec::new();
    let mut b: Vec<QueryParam> = Vec::new();
    crate::text::push_owned(&mut c, "status = 'published'");
    assert(texts(c@) =~= seq!["status = 'published'"@]);
    assert(param_views(b@) =~= Seq::<(Seq<char>, Seq<char>)>::empty());
    if non_blank(&q.q).is_some() {
        crate::text::push_owned(
            &mut c,
            "(string::lowercase(title) CONTAINS string::lowercase($search_q) OR string::lowercase(synopsis) CONTAINS string::lowercase($search_q))",
        );
        push_param(&mut b, "search_q", trimmed_text(&q.q));
    }
    if non_blank(&q.genre).is_some() {
        crate::text::push_owned(&mut c, "$genre IN genres");
        push_param(&mut b, "genre", trimmed_text(&q.genre));
    }
    if non_blank(&q.year).is_some() {
        match read_year(&q.year) {
            Some(y) => {
                crate::text::push_owned(&mut c, "year = $year_filter");
                push_param(&mut b, "year_filter", string_of(i64_digits(y).as_slice()));
            },
            None => {},
        }
    }
    if non_blank(&q.language).is_some() {
        crate::text::push_owned(&mut c, "string::lowercase(language) = string::lowercase($lang_filter)");
        push_param(&mut b, "lang_filter", trimmed_text(&q.language));
    }
    crate::text::push_owned(&mut c, "count(->licensed_via->license[WHERE active = true]) > 0");
    (c, b)
}

/// The query text of a catalog search with `conditions`.
pub fn catalog_query(conditions: &Vec<String>) -> (r: String)
    ensures
        r@ == catalog_query_text(texts(conditions@)),
{
    let mut parts: Vec<Vec<char>> = Vec::new();
    let mut i: usize = 0;
    while i < conditions.len()
        invariant
            i <= conditions@.len(),
            parts@.len() == i,
            crate::text::views(parts@) == texts(conditions@).take(i as int),
        decreases conditions.len() - i,
    {
        let c = chars_of(conditions[i].as_str());
        assert(c@ == texts(conditions@)[i as int]);
        let ghost before = parts@;
        parts.push(c);
        i = i + 1;
        assert forall|j: int| 0 <= j < i implies #[trigger] crate::text::views(parts@)[j] == texts(conditions@).take(i as int)[j] by {
            if j < i - 1 {
                assert(parts@[j] == before[j]);
                assert(crate::text::views(before)[j] == texts(conditions@).take(i - 1)[j]);
            }
        }
        assert(crate::text::views(parts@) =~= texts(conditions@).take(i as int));
    }
    assert(texts(conditions@).take(conditions@.len() as int) =~= texts(conditions@));
    let mut v = chars_of("SELECT * FROM film WHERE ");
    let joined = crate::text::join_chars(&parts, chars_of(" AND ").as_slice());
    crate::text::append(&mut v, joined.as_slice());
    push_str(&mut v, " ORDER BY created_at DESC LIMIT 50");
    string_of(v.as_slice())
}

} // verus!
