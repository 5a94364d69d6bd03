use pavilion::accounts::{
    accept_registration, check_login, consent_choices, counter_reason, normalize_email,
    prepare_claim, prepare_profile_update, validate_registration, ConsentForm, CounterForm,
    DmcaForm, ProfileUpdateForm, RegisterForm,
};
use pavilion::auth::{hash_password, verify_password};
use pavilion::error::AppError;

fn register(password: &str, confirm: &str) -> RegisterForm {
    RegisterForm {
        email: "  Ada@Example.COM ".to_string(),
        name: " Ada ".to_string(),
        password: password.to_string(),
        password_confirm: confirm.to_string(),
        accept_terms: Some("on".to_string()),
        accept_no_porn: Some("on".to_string()),
        accept_copyright: Some("on".to_string()),
        accept_talent: Some("on".to_string()),
        consent_marketing: None,
        consent_analytics: Some("on".to_string()),
    }
}

#[test]
fn registration_is_checked_and_normalized() {
    let r = validate_registration(&register("secret123", "secret123")).unwrap();
    assert_eq!(r.email, "ada@example.com");
    assert_eq!(r.name, "Ada");
    assert_eq!(r.roles, vec!["filmmaker"]);
    assert!(!r.consent_marketing);
    assert!(r.consent_analytics);
    assert_eq!(
        accept_registration(r, true).unwrap_err(),
        "An account with this email already exists."
    );
}

#[test]
fn registration_refusals() {
    let mut f = register("secret123", "secret123");
    f.accept_copyright = None;
    assert_eq!(
        validate_registration(&f).unwrap_err(),
        "You must accept all terms and content policy checkboxes to register."
    );
    let mut n = register("secret123", "secret123");
    n.name = "   ".to_string();
    assert_eq!(validate_registration(&n).unwrap_err(), "Name is required.");
    assert_eq!(
        validate_registration(&register("short", "short")).unwrap_err(),
        "Password must be at least 8 characters."
    );
    assert!(validate_registration(&register("éééé", "éééé")).is_ok());
    assert_eq!(
        validate_registration(&register("secret123", "secret124")).unwrap_err(),
        "Passwords do not match."
    );
}

#[test]
fn email_normalization() {
    assert_eq!(normalize_email("  Bob@Mail.ORG\n"), "bob@mail.org");
}

#[test]
fn passwords_hash_and_verify() {
    let hash = hash_password("correct horse").unwrap();
    assert!(hash.starts_with("$argon2id$"));
    assert_ne!(hash, "correct horse");
    assert_eq!(verify_password("correct horse", &hash).unwrap(), true);
    assert_eq!(verify_password("wrong horse", &hash).unwrap(), false);
    assert!(verify_password("x", "not a phc string").is_err());
}

#[test]
fn login_outcomes() {
    let hash = hash_password("pw-123456").unwrap();
    assert_eq!(check_login("pw-123456", Some(&hash)).unwrap(), true);
    assert_eq!(check_login("nope", Some(&hash)).unwrap(), false);
    assert_eq!(check_login("pw-123456", None).unwrap(), false);
    match check_login("pw", Some("garbage")) {
        Err(AppError::Internal(m)) => assert!(m.starts_with("Password verify error: ")),
        other => panic!("unexpected {other:?}"),
    }
}

#[test]
fn profile_and_consent() {
    let c = prepare_profile_update(&ProfileUpdateForm { name: " Zoe ".to_string(), bio: Some(" ".to_string()) }).unwrap();
    assert_eq!(c.name, "Zoe");
    assert_eq!(c.bio, None);
    match prepare_profile_update(&ProfileUpdateForm { name: "".to_string(), bio: None }) {
        Err(AppError::Validation(m)) => assert_eq!(m, "Name cannot be empty."),
        other => panic!("unexpected {other:?}"),
    }
    let choices = consent_choices(&ConsentForm { consent_marketing: Some("on".to_string()), consent_analytics: None });
    assert_eq!(choices, (true, false));
}

fn claim() -> DmcaForm {
    DmcaForm {
        claimant_name: " Rights Holder ".to_string(),
        claimant_email: " Legal@Studio.COM ".to_string(),
        claimant_company: Some(" ".to_string()),
        film_id: "film-9".to_string(),
        description: " My film ".to_string(),
        evidence_url: Some("https://example.com/proof".to_string()),
        good_faith: Some("on".to_string()),
        perjury: Some("on".to_string()),
    }
}

#[test]
fn copyright_claims() {
    let c = prepare_claim(&claim()).unwrap();
    assert_eq!(c.claimant_name, "Rights Holder");
    assert_eq!(c.claimant_email, "legal@studio.com");
    assert_eq!(c.claimant_company, None);
    assert_eq!(c.description, "My film");
    assert_eq!(c.evidence_url.as_deref(), Some("https://example.com/proof"));
    assert!(c.good_faith_statement && c.perjury_declaration);
    let mut f = claim();
    f.claimant_email = " ".to_string();
    assert_eq!(prepare_claim(&f).unwrap_err(), "Name and email are required.");
    let mut d = claim();
    d.description = "".to_string();
    assert_eq!(prepare_claim(&d).unwrap_err(), "Description of the copyrighted work is required.");
    let mut p = claim();
    p.perjury = None;
    assert_eq!(
        prepare_claim(&p).unwrap_err(),
        "You must confirm the good faith statement and perjury declaration."
    );
    assert_eq!(counter_reason(&CounterForm { reason: " fair use ".to_string() }), "fair use");
}

#[test]
fn profile_changes_become_a_person_update() {
    let c = prepare_profile_update(&ProfileUpdateForm { name: "Kim".to_string(), bio: Some("Director".to_string()) }).unwrap();
    let u = c.to_update();
    assert_eq!(u.name.as_deref(), Some("Kim"));
    assert_eq!(u.bio.as_deref(), Some("Director"));
    assert_eq!(u.avatar_url, None);
}

#[test]
fn empty_password_hashes_and_verifies() {
    let hash = hash_password("").unwrap();
    assert_eq!(verify_password("", &hash).unwrap(), true);
    assert_eq!(verify_password(" ", &hash).unwrap(), false);
}
