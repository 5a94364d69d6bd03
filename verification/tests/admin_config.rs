use pavilion::admin::{count_query, erasure_query, export_disposition, role_list, RoleForm};
use pavilion::config::{
    bind_addr, optional_setting, parse_flag, parse_port, payments_enabled, StorageConfig,
    TokenConfig, TranscodeConfig,
};
use pavilion::error::{AppError, MediaError};
use pavilion::token::TokenError;

#[test]
fn counts_only_allowed_tables() {
    assert_eq!(count_query("film", None).as_deref(), Some("SELECT count() AS count FROM film"));
    assert_eq!(
        count_query("dmca_claim", Some("status IN ['filed', 'under_review']")).as_deref(),
        Some("SELECT count() AS count FROM dmca_claim WHERE status IN ['filed', 'under_review']")
    );
    assert_eq!(count_query("person; DELETE person", None), None);
    assert_eq!(count_query("secrets", None), None);
}

#[test]
fn erasure_and_exports() {
    let q = erasure_query();
    assert!(q.starts_with("DELETE FROM agreed_to WHERE in = $pid;"));
    assert!(q.ends_with("DELETE $pid;"));
    assert_eq!(q.matches("DELETE").count(), 12);
    assert_eq!(export_disposition("p7"), "attachment; filename=\"gdpr-export-p7.json\"");
    assert_eq!(role_list(&RoleForm { roles: " admin, curator,, ".to_string() }), vec!["admin", "curator"]);
}

#[test]
fn media_defaults() {
    let s = StorageConfig::default();
    assert_eq!(s.endpoint, "http://localhost:9002");
    assert_eq!(s.bucket, "pavilion");
    assert!(s.path_style);
    let t = TranscodeConfig::default();
    assert_eq!((t.ffmpeg_path.as_str(), t.work_dir.as_str(), t.max_concurrent), ("ffmpeg", "/tmp/pavilion-media", 2));
    let k = TokenConfig::default();
    assert_eq!((k.ttl_secs, k.segment_url_prefix.as_str()), (300, "/segments/"));
}

#[test]
fn settings_from_text() {
    assert_eq!(parse_port("3000"), Ok(3000));
    assert_eq!(parse_port("70000").unwrap_err(), "PORT must be a valid number");
    assert!(parse_port("http").is_err());
    assert!(parse_flag("true", false));
    assert!(!parse_flag("false", true));
    assert!(parse_flag("yes", true));
    assert_eq!(optional_setting(Some(String::new())), None);
    assert_eq!(optional_setting(Some("sk".to_string())).as_deref(), Some("sk"));
    assert_eq!(bind_addr("0.0.0.0", 3000), "0.0.0.0:3000");
    assert!(payments_enabled(&Some("sk".to_string())));
    assert!(!payments_enabled(&None));
}

#[test]
fn error_messages_and_statuses() {
    assert_eq!(TokenError::Expired.message(), "Token expired");
    assert_eq!(TokenError::InvalidSignature.message(), "Invalid signature");
    assert_eq!(MediaError::from(TokenError::InvalidFormat).message(), "Token error: Invalid token format");
    assert_eq!(MediaError::Storage("disk".to_string()).message(), "Storage error: disk");
    assert_eq!(AppError::Validation("x".to_string()).status_code(), 422);
    assert_eq!(AppError::LicenseViolation("x".to_string()).status_code(), 403);
    assert_eq!(AppError::Unauthorized.status_code(), 401);
    assert_eq!(AppError::Database("boom".to_string()).response_body(), "Internal Server Error");
    assert!(AppError::Internal("boom".to_string()).is_logged());
    assert!(!AppError::NotFound.is_logged());
    assert_eq!(AppError::Validation("bad".to_string()).message(), "Validation error: bad");
}
