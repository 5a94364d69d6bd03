use pavilion::error::AppError;
use pavilion::films::{
    accept_draft, catalog_filters, catalog_query, prepare_film, prepare_film_update, slugify,
    slugify_public, CatalogQuery, FilmForm, FilmUpdateForm,
};

fn film_form(title: &str) -> FilmForm {
    FilmForm {
        title: title.to_string(),
        synopsis: Some("  A story ".to_string()),
        year: Some("2024".to_string()),
        genres: Some("Drama, Comedy , ,Noir".to_string()),
        language: Some("  ".to_string()),
        country: None,
        declare_copyright: Some("on".to_string()),
        declare_talent: Some("on".to_string()),
        declare_no_prohibited: Some("on".to_string()),
    }
}

#[test]
fn slugs_are_url_safe() {
    assert_eq!(slugify("The Last Picture Show"), "the-last-picture-show");
    assert_eq!(slugify("  Hello,   World!! "), "hello-world");
    assert_eq!(slugify("2001: A Space Odyssey"), "2001-a-space-odyssey");
    assert_eq!(slugify("***"), "");
    assert_eq!(slugify_public("Mon Film"), "mon-film");
}

#[test]
fn film_creation_form() {
    let draft = prepare_film(&film_form("  My Film ")).unwrap();
    assert_eq!(draft.details.title, "My Film");
    assert_eq!(draft.slug, "my-film");
    assert_eq!(draft.status, "draft");
    assert_eq!(draft.details.synopsis.as_deref(), Some("  A story "));
    assert_eq!(draft.details.year, Some(2024));
    assert_eq!(draft.details.genres, vec!["Drama", "Comedy", "Noir"]);
    assert_eq!(draft.details.language, None);
    assert_eq!(draft.details.country, None);
}

#[test]
fn film_creation_refusals() {
    let mut f = film_form("Title");
    f.declare_talent = None;
    assert_eq!(prepare_film(&f).unwrap_err(), "You must confirm all content declarations.");
    assert_eq!(prepare_film(&film_form("   ")).unwrap_err(), "Title is required.");
    let draft = prepare_film(&film_form("Dup")).unwrap();
    assert_eq!(
        accept_draft(draft.clone(), true).unwrap_err(),
        "A film with a similar title already exists."
    );
    assert_eq!(accept_draft(draft, false).unwrap().slug, "dup");
}

#[test]
fn film_edit_form() {
    let form = FilmUpdateForm {
        title: " New ".to_string(),
        synopsis: None,
        year: Some("soon".to_string()),
        genres: None,
        language: Some("French".to_string()),
        country: Some("FR".to_string()),
    };
    let d = prepare_film_update(&form).unwrap();
    assert_eq!(d.title, "New");
    assert_eq!(d.year, None);
    assert!(d.genres.is_empty());
    assert_eq!(d.language.as_deref(), Some("French"));
    let blank = FilmUpdateForm { title: " ".to_string(), ..form };
    match prepare_film_update(&blank) {
        Err(AppError::Validation(m)) => assert_eq!(m, "Title cannot be empty."),
        other => panic!("unexpected {other:?}"),
    }
}

#[test]
fn catalog_search_filters() {
    let all = CatalogQuery { q: None, genre: None, year: None, language: None };
    let (c, b) = catalog_filters(&all);
    assert_eq!(
        c,
        vec!["status = 'published'", "count(->licensed_via->license[WHERE active = true]) > 0"]
    );
    assert!(b.is_empty());
    assert_eq!(
        catalog_query(&c),
        "SELECT * FROM film WHERE status = 'published' AND count(->licensed_via->license[WHERE active = true]) > 0 ORDER BY created_at DESC LIMIT 50"
    );
    let q = CatalogQuery {
        q: Some(" noir ".to_string()),
        genre: Some("Drama".to_string()),
        year: Some("1999".to_string()),
        language: Some(" fr ".to_string()),
    };
    let (c, b) = catalog_filters(&q);
    assert_eq!(c.len(), 6);
    assert_eq!(c[2], "$genre IN genres");
    assert_eq!(c[3], "year = $year_filter");
    let pairs: Vec<(&str, &str)> = b.iter().map(|p| (p.name.as_str(), p.value.as_str())).collect();
    assert_eq!(
        pairs,
        vec![("search_q", "noir"), ("genre", "Drama"), ("year_filter", "1999"), ("lang_filter", "fr")]
    );
    let bad_year = CatalogQuery { q: None, genre: None, year: Some("later".to_string()), language: None };
    assert_eq!(catalog_filters(&bad_year).0.len(), 2);
}
