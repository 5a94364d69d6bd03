use pavilion::token::{SegmentToken, TokenError};

#[test]
fn sign_and_verify() {
    let token = SegmentToken::new("user1", "video1", "site1", "360p/seg_001.m4s", 300);
    let signed = token.sign("test-secret");
    let verified = SegmentToken::verify(&signed, "test-secret").unwrap();
    assert_eq!(verified.subject, "user1");
    assert_eq!(verified.resource, "video1");
    assert_eq!(verified.scope, "site1");
    assert_eq!(verified.segment_path, "360p/seg_001.m4s");
}

#[test]
fn wrong_secret_fails() {
    let token = SegmentToken::new("u", "v", "s", "seg.m4s", 300);
    let signed = token.sign("secret-a");
    assert!(SegmentToken::verify(&signed, "secret-b").is_err());
}

#[test]
fn tampered_token_fails() {
    let token = SegmentToken::new("u", "v", "s", "seg.m4s", 300);
    let signed = token.sign("test-secret");
    assert!(SegmentToken::verify(&format!("{signed}x"), "test-secret").is_err());
}

#[test]
fn subject_match() {
    let token = SegmentToken::new("user1", "v", "s", "seg.m4s", 300);
    assert!(token.matches_subject("user1"));
    assert!(!token.matches_subject("user2"));
}

#[test]
fn expired_token_is_refused() {
    let token = SegmentToken::new("u", "v", "s", "seg.m4s", 300);
    let signed = token.sign("k");
    let later = token.expires_at + 1;
    assert_eq!(SegmentToken::verify_at(&signed, "k", later).unwrap_err(), TokenError::Expired);
    assert!(SegmentToken::verify_at(&signed, "k", token.expires_at).is_ok());
}

#[test]
fn garbage_token_is_invalid_format() {
    assert_eq!(SegmentToken::verify_at("!!!", "k", 0).unwrap_err(), TokenError::InvalidFormat);
}
