use pavilion::auth::{
    claims_at, claims_for, issue_claims, logout_cookie, require_admin, token_cookie, token_from_headers,
    Claims, TOKEN_EXPIRY_SECS,
};
use pavilion::error::AppError;

fn claims(roles: &[&str]) -> Claims {
    Claims {
        sub: "p1".to_string(),
        name: "Pat".to_string(),
        roles: roles.iter().map(|r| r.to_string()).collect(),
        exp: 10,
        iat: 0,
    }
}

#[test]
fn roles_and_keys() {
    let c = claims(&["filmmaker", "curator"]);
    assert!(c.has_role("curator"));
    assert!(!c.has_role("admin"));
    assert_eq!(c.person_key_str(), "p1");
    assert!(require_admin(&claims(&["admin"])).is_ok());
    assert!(matches!(require_admin(&c), Err(AppError::Forbidden)));
}

#[test]
fn tokens_last_a_day() {
    let roles = vec!["filmmaker".to_string()];
    let c = claims_at("key", "Name", &roles, 1_000);
    assert_eq!(c.sub, "key");
    assert_eq!(c.iat, 1_000);
    assert_eq!(c.exp, 1_000 + 86_400);
    assert_eq!(TOKEN_EXPIRY_SECS, 86_400);
    let now = issue_claims("k", "N", &roles).unwrap();
    assert_eq!(now.exp - now.iat, 86_400);
}

#[test]
fn bearer_header_wins_over_cookie() {
    assert_eq!(
        token_from_headers(Some("Bearer  abc.def "), Some("pavilion_token=zzz")).as_deref(),
        Some("abc.def")
    );
    assert_eq!(
        token_from_headers(Some("Basic xyz"), Some("theme=dark; pavilion_token= tok ; x=1")).as_deref(),
        Some("tok")
    );
    assert_eq!(token_from_headers(None, Some("theme=dark")), None);
    assert_eq!(token_from_headers(None, None), None);
}

#[test]
fn session_cookies() {
    let set = token_cookie("abc");
    assert_eq!(set, "pavilion_token=abc; Path=/; Max-Age=86400; HttpOnly; SameSite=Lax");
    assert_eq!(logout_cookie(), "pavilion_token=; Path=/; Max-Age=0; HttpOnly; SameSite=Lax");
    let sent_back = set.split(';').next().unwrap().to_string();
    assert_eq!(token_from_headers(None, Some(&sent_back)).as_deref(), Some("abc"));
}

#[test]
fn claims_for_a_clock_reading() {
    let roles = vec!["curator".to_string()];
    let c = claims_for("k1", "Ann", &roles, 1_000).unwrap();
    assert_eq!((c.sub.as_str(), c.name.as_str(), c.iat, c.exp), ("k1", "Ann", 1_000, 87_400));
    assert_eq!(c.roles, roles);
    assert!(claims_for("k1", "Ann", &roles, u64::MAX - 86_399).is_none());
    assert!(claims_for("k1", "Ann", &roles, u64::MAX - 86_400).is_some());
}
