use pavilion::error::AppError;
use pavilion::platforms::{
    accept_platform, form_to_theme, prepare_platform, prepare_platform_update,
    require_active_platform, PlatformForm, PlatformTheme,
};

fn form(name: &str) -> PlatformForm {
    PlatformForm {
        name: name.to_string(),
        description: Some(" ".to_string()),
        monetization_model: Some("svod".to_string()),
        primary_color: Some("#ff0000".to_string()),
        secondary_color: Some(String::new()),
        accent_color: None,
        font_heading: Some("Inter".to_string()),
        font_body: None,
        border_radius: Some("8px".to_string()),
        dark_mode: Some("on".to_string()),
    }
}

#[test]
fn theme_css_overrides() {
    let t = form_to_theme(&form("X"));
    assert_eq!(t.secondary_color, None);
    assert_eq!(t.dark_mode, Some(true));
    assert_eq!(
        t.to_css_overrides(),
        ":root { --color-primary: #ff0000; --font-heading: Inter; --radius-md: 8px; \
         --color-background: #0f172a; --color-surface: #1e293b; --color-text: #f1f5f9; \
         --color-text-muted: #94a3b8; --color-border: #334155; }"
    );
    assert_eq!(PlatformTheme::default().to_css_overrides(), "");
    let light = PlatformTheme { accent_color: Some("teal".to_string()), dark_mode: Some(false), ..PlatformTheme::default() };
    assert_eq!(light.to_css_overrides(), ":root { --color-accent: teal; }");
}

#[test]
fn platform_forms() {
    let p = prepare_platform(&form(" Indie Night ")).unwrap();
    assert_eq!(p.name, "Indie Night");
    assert_eq!(p.slug, "indie-night");
    assert_eq!(p.description, None);
    assert_eq!(p.monetization_model.as_deref(), Some("svod"));
    assert_eq!(p.status, "setup");
    assert_eq!(prepare_platform(&form("  ")).unwrap_err(), "Name is required.");
    assert_eq!(accept_platform(p, true).unwrap_err(), "A platform with this name already exists.");
    match prepare_platform_update(&form("")) {
        Err(AppError::Validation(m)) => assert_eq!(m, "Name cannot be empty."),
        other => panic!("unexpected {other:?}"),
    }
    assert_eq!(prepare_platform_update(&form(" New ")).unwrap().name, "New");
    assert!(require_active_platform("active").is_ok());
    assert!(matches!(require_active_platform("setup"), Err(AppError::NotFound)));
}
