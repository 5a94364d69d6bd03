use pavilion::delivery::{
    dash_manifest_key, hls_manifest_key, manifest_url, placeholder_hls, security_headers,
    segment_access, serve_dash_manifest, serve_hls_manifest, watch_completed, HeartbeatForm,
};
use pavilion::error::AppError;
use base64::Engine;
use pavilion::token::{check_time, issue_time, SegmentToken, TokenError};

#[test]
fn manifest_locations() {
    assert_eq!(manifest_url("indie", "my-film"), "/watch/indie/my-film/manifest.m3u8");
    assert_eq!(hls_manifest_key("f1"), "videos/f1/master.m3u8");
    assert_eq!(dash_manifest_key("f1"), "videos/f1/manifest.mpd");
}

#[test]
fn placeholder_playlist_until_transcoded() {
    let p = placeholder_hls("f1");
    assert!(p.starts_with("#EXTM3U\n#EXT-X-VERSION:7\n"));
    assert!(p.contains("f1/720p/720p.m3u8\n"));
    assert_eq!(p.lines().count(), 8);
}

#[test]
fn served_manifests_sign_every_segment() {
    let served = serve_hls_manifest(Some("#EXTM3U\nseg_001.m4s\n".to_string()), "p1", "f1", "pl1", "secret");
    let lines: Vec<&str> = served.lines().collect();
    assert_eq!(lines[0], "#EXTM3U");
    let token = lines[1].strip_prefix("/segments/").unwrap();
    let t = SegmentToken::verify(token, "secret").unwrap();
    assert_eq!((t.subject.as_str(), t.resource.as_str(), t.scope.as_str()), ("p1", "f1", "pl1"));
    assert_eq!(t.segment_path, "seg_001.m4s");
    let fallback = serve_hls_manifest(None, "p1", "f1", "pl1", "secret");
    assert_eq!(fallback.matches("/segments/").count(), 3);
    assert_eq!(serve_dash_manifest(None, "p1", "f1", "pl1", "secret"), "<MPD></MPD>");
}

#[test]
fn segment_requests_are_checked() {
    let token = SegmentToken::new("p1", "f1", "pl1", "videos/f1/360p/seg.m4s", 300).sign("k");
    assert_eq!(segment_access(&token, "k", Some("p1")).unwrap().segment_path, "videos/f1/360p/seg.m4s");
    assert!(segment_access(&token, "k", None).is_ok());
    assert!(matches!(segment_access(&token, "k", Some("p2")), Err(AppError::Unauthorized)));
    assert!(matches!(segment_access(&token, "other", Some("p1")), Err(AppError::Unauthorized)));
}

#[test]
fn viewings_complete_at_ninety_percent() {
    assert!(watch_completed(&HeartbeatForm { position: 90, duration: Some(100) }));
    assert!(!watch_completed(&HeartbeatForm { position: 89, duration: Some(100) }));
    assert!(watch_completed(&HeartbeatForm { position: 8, duration: Some(9) }));
    assert!(!watch_completed(&HeartbeatForm { position: 50, duration: Some(0) }));
    assert!(!watch_completed(&HeartbeatForm { position: 50, duration: None }));
}

#[test]
fn every_response_gets_security_headers() {
    let h = security_headers();
    let names: Vec<&str> = h.iter().map(|(n, _)| n.as_str()).collect();
    assert_eq!(
        names,
        vec!["x-content-type-options", "x-frame-options", "x-xss-protection", "referrer-policy", "content-security-policy"]
    );
    assert_eq!(h[1].1, "DENY");
    assert!(h[4].1.starts_with("default-src 'self'; "));
}

#[test]
fn token_with_separator_in_a_field_is_refused_as_malformed() {
    let t = SegmentToken {
        subject: "a|b".to_string(),
        resource: "film".to_string(),
        scope: "web".to_string(),
        segment_path: "seg/1.m4s".to_string(),
        expires_at: u64::MAX,
    };
    let s = t.sign("k");
    assert!(s.chars().all(|c| c.is_ascii_alphanumeric() || c == '-' || c == '_'));
    let raw = base64::engine::general_purpose::URL_SAFE_NO_PAD.decode(&s).unwrap();
    let raw = String::from_utf8(raw).unwrap();
    let (p, sig) = raw.rsplit_once('.').unwrap();
    assert_eq!(p, format!("a|b|film|web|seg/1.m4s|{}", u64::MAX));
    assert_eq!(sig, pavilion::token::compute_signature(p, "k"));
    assert_eq!(SegmentToken::verify(&s, "k").unwrap_err(), TokenError::InvalidFormat);
}

#[test]
fn clock_readings_before_the_epoch() {

    assert_eq!(issue_time(Some(42)), 42);
    assert_eq!(issue_time(None), 0);
    assert_eq!(check_time(Some(42)), 42);
    assert_eq!(check_time(None), u64::MAX);
}
