use pavilion::tmdb::{
    combine_enrichment, credit_rows, credits_url, encode, find_url, imdb_not_found, movie_url,
    poster_download_url, poster_path_of, search_query, search_url, TmdbCastMember, TmdbCountry,
    TmdbCredits, TmdbCrewMember, TmdbGenre, TmdbLanguage, TmdbMovieDetail,
};
use pavilion::error::AppError;

fn cast(i: i64) -> TmdbCastMember {
    TmdbCastMember {
        id: i,
        name: format!("Actor {i}"),
        character: Some(format!("Role {i}")),
        known_for_department: None,
        profile_path: if i == 0 { Some("/a.jpg".to_string()) } else { None },
        order: Some(i),
    }
}

fn crew(name: &str, job: &str) -> TmdbCrewMember {
    TmdbCrewMember {
        id: 900,
        name: name.to_string(),
        department: Some("Crew".to_string()),
        job: Some(job.to_string()),
        profile_path: None,
    }
}

fn detail() -> TmdbMovieDetail {
    TmdbMovieDetail {
        id: 603,
        title: "The Matrix".to_string(),
        overview: Some("A hacker learns".to_string()),
        tagline: None,
        release_date: Some("1999-03-30".to_string()),
        runtime: Some(136),
        poster_path: Some("/matrix.jpg".to_string()),
        imdb_id: Some("tt0133093".to_string()),
        genres: vec![TmdbGenre { id: 28, name: "Action".to_string() }, TmdbGenre { id: 878, name: "Science Fiction".to_string() }],
        production_countries: vec![TmdbCountry { iso_3166_1: "US".to_string(), name: "United States of America".to_string() }],
        spoken_languages: vec![TmdbLanguage { iso_639_1: "en".to_string(), english_name: "English".to_string() }],
    }
}

#[test]
fn url_encoding() {
    assert_eq!(encode("Blade Runner 2049"), "Blade+Runner+2049");
    assert_eq!(encode("a-b_c.d~e"), "a-b_c.d~e");
    assert_eq!(encode("Amélie & co"), "Am%E9lie+%26+co");
    assert_eq!(encode("日"), "%E5");
}

#[test]
fn request_urls() {
    assert_eq!(
        search_url("KEY", "the matrix", Some(1999)),
        "https://api.themoviedb.org/3/search/movie?api_key=KEY&query=the+matrix&year=1999"
    );
    assert_eq!(
        search_url("KEY", "x", None),
        "https://api.themoviedb.org/3/search/movie?api_key=KEY&query=x"
    );
    assert_eq!(movie_url(603, "K"), "https://api.themoviedb.org/3/movie/603?api_key=K");
    assert_eq!(credits_url(603, "K"), "https://api.themoviedb.org/3/movie/603/credits?api_key=K");
    assert_eq!(poster_download_url("/p.jpg"), "https://image.tmdb.org/t/p/original/p.jpg");
    assert_eq!(
        find_url("tt1", "K"),
        "https://api.themoviedb.org/3/find/tt1?api_key=K&external_source=imdb_id"
    );
}

#[test]
fn details_and_credits_combine() {
    let credits = TmdbCredits { cast: vec![cast(0), cast(1)], crew: vec![crew("Lana", "Director")] };
    let e = combine_enrichment(detail(), credits);
    assert_eq!(e.tmdb_id, 603);
    assert_eq!(e.imdb_id.as_deref(), Some("tt0133093"));
    assert_eq!(e.year, Some(1999));
    assert_eq!(e.runtime_minutes, Some(136));
    assert_eq!(e.synopsis.as_deref(), Some("A hacker learns"));
    assert_eq!(e.genres, vec!["Action", "Science Fiction"]);
    assert_eq!(e.country.as_deref(), Some("United States of America"));
    assert_eq!(e.language.as_deref(), Some("English"));
    assert_eq!(e.poster_url.as_deref(), Some("https://image.tmdb.org/t/p/w780/matrix.jpg"));
    assert_eq!(e.cast.len(), 2);
    assert_eq!(poster_path_of(e.poster_url.as_deref().unwrap()), "/matrix.jpg");
    let mut bare = detail();
    bare.release_date = Some("soon".to_string());
    bare.poster_path = None;
    bare.production_countries.clear();
    let e = combine_enrichment(bare, TmdbCredits { cast: vec![], crew: vec![] });
    assert_eq!(e.year, None);
    assert_eq!(e.poster_url, None);
    assert_eq!(e.country, None);
}

#[test]
fn stored_credit_rows() {
    let many: Vec<TmdbCastMember> = (0..25).map(cast).collect();
    let credits = TmdbCredits {
        cast: many,
        crew: vec![crew("Lana", "Director"), crew("Grip", "Key Grip"), crew("Don", "Original Music Composer")],
    };
    let rows = credit_rows(&combine_enrichment(detail(), credits));
    assert_eq!(rows.len(), 22);
    assert_eq!(rows[0].name, "Actor 0");
    assert_eq!(rows[0].department.as_deref(), Some("Acting"));
    assert_eq!(rows[0].profile_url.as_deref(), Some("https://image.tmdb.org/t/p/w185/a.jpg"));
    assert_eq!(rows[19].sort_order, 19);
    assert_eq!(rows[20].name, "Lana");
    assert_eq!(rows[20].sort_order, 100);
    assert_eq!(rows[20].job.as_deref(), Some("Director"));
    assert_eq!(rows[21].name, "Don");
}

#[test]
fn search_and_lookup_helpers() {
    assert_eq!(search_query(None, &"Title".to_string()), "Title");
    assert_eq!(search_query(Some("q".to_string()), &"Title".to_string()), "q");
    match imdb_not_found("tt9") {
        AppError::Validation(m) => assert_eq!(m, "No movie found for IMDB ID: tt9"),
        other => panic!("unexpected {other:?}"),
    }
}

fn form_decode(t: &str) -> String {
    let b = t.as_bytes();
    let mut out = String::new();
    let mut i = 0;
    while i < b.len() {
        if b[i] == b'+' {
            out.push(' ');
            i += 1;
        } else if b[i] == b'%' && i + 2 < b.len() {
            let v = u8::from_str_radix(&t[i + 1..i + 3], 16).unwrap();
            out.push(v as char);
            i += 3;
        } else {
            out.push(b[i] as char);
            i += 1;
        }
    }
    out
}

#[test]
fn url_encoding_escapes_and_round_trips_ascii() {
    let s = "Amélie? no: Amelie & co/2001 100%~_.-";
    let ascii: String = s.chars().filter(|c| c.is_ascii()).collect();
    let e = encode(&ascii);
    assert_eq!(encode("a b/?"), "a+b%2F%3F");
    for (i, c) in e.char_indices() {
        if c == '%' {
            let h = &e[i + 1..i + 3];
            assert!(h.chars().all(|d| d.is_ascii_digit() || ('A'..='F').contains(&d)));
        }
    }
    assert_eq!(form_decode(&e), ascii);
}
