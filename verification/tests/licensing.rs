use pavilion::licensing::{
    has_license_in_force, is_available, LicenseWindow, form_to_create_license, license_type_label, pricing_summary, validate_license, FormAmounts,
    LicenseForm, LicenseTerms, Percentage, PricingSummary,
};

fn terms(license_type: &str) -> LicenseTerms {
    LicenseTerms {
        license_type: license_type.to_string(),
        territories: vec![],
        approval_required: false,
        active: true,
        rental_price_cents: None,
        rental_duration_hours: None,
        purchase_price_cents: None,
        flat_fee_monthly_cents: None,
        revenue_share_pct: None,
        event_flat_fee_cents: None,
        ticket_split_pct: None,
        max_attendees: None,
        institution_types: None,
        pricing_tier: None,
        cc_license_type: None,
    }
}

fn form(license_type: &str) -> LicenseForm {
    LicenseForm {
        license_type: license_type.to_string(),
        territories: None,
        window_start: None,
        window_end: None,
        approval_required: None,
        rental_price: None,
        rental_duration_hours: None,
        purchase_price: None,
        flat_fee_monthly: None,
        revenue_share_pct: None,
        event_flat_fee: None,
        ticket_split_pct: None,
        max_attendees: None,
        institution_types: None,
        pricing_tier: None,
        cc_license_type: None,
    }
}

fn no_amounts() -> FormAmounts {
    FormAmounts {
        rental_price_cents: None,
        purchase_price_cents: None,
        flat_fee_monthly_cents: None,
        revenue_share_pct: None,
        event_flat_fee_cents: None,
        ticket_split_pct: None,
    }
}

#[test]
fn labels_of_license_types() {
    assert_eq!(license_type_label("tvod"), "Transactional (TVOD)");
    assert_eq!(license_type_label("svod"), "Subscription (SVOD)");
    assert_eq!(license_type_label("avod"), "Ad-Supported (AVOD)");
    assert_eq!(license_type_label("hybrid"), "Hybrid / Split-Rights");
    assert_eq!(license_type_label("event"), "Event / Screening");
    assert_eq!(license_type_label("educational"), "Educational / Institutional");
    assert_eq!(license_type_label("cc"), "Creative Commons");
    assert_eq!(license_type_label("custom"), "custom");
}

#[test]
fn tvod_needs_a_price_and_a_rental_duration() {
    assert_eq!(
        validate_license(&terms("tvod")).unwrap_err(),
        "TVOD requires at least a rental or purchase price."
    );
    let mut l = terms("tvod");
    l.rental_price_cents = Some(399);
    assert_eq!(validate_license(&l).unwrap_err(), "TVOD rental requires a duration in hours.");
    l.rental_duration_hours = Some(48);
    assert!(validate_license(&l).is_ok());
    let mut buy = terms("tvod");
    buy.purchase_price_cents = Some(999);
    assert!(validate_license(&buy).is_ok());
}

#[test]
fn each_type_checks_its_fields() {
    assert_eq!(
        validate_license(&terms("svod")).unwrap_err(),
        "SVOD requires either a flat monthly fee or revenue share percentage."
    );
    assert_eq!(validate_license(&terms("avod")).unwrap_err(), "AVOD requires a revenue share percentage.");
    assert_eq!(
        validate_license(&terms("event")).unwrap_err(),
        "Event licensing requires a flat fee or ticket split percentage."
    );
    assert_eq!(
        validate_license(&terms("cc")).unwrap_err(),
        "Creative Commons requires a license type (e.g. BY, BY-SA, BY-NC)."
    );
    assert!(validate_license(&terms("educational")).is_ok());
    assert!(validate_license(&terms("hybrid")).is_ok());
    assert_eq!(validate_license(&terms("ppv")).unwrap_err(), "Unknown license type: ppv");
}

#[test]
fn percentages_must_lie_in_range() {
    let mut l = terms("avod");
    l.revenue_share_pct = Some(Percentage { in_range: false });
    assert_eq!(validate_license(&l).unwrap_err(), "Revenue share must be between 0 and 100.");
    l.revenue_share_pct = Some(Percentage { in_range: true });
    assert!(validate_license(&l).is_ok());
    let mut e = terms("event");
    e.ticket_split_pct = Some(Percentage { in_range: false });
    assert_eq!(validate_license(&e).unwrap_err(), "Ticket split must be between 0 and 100.");
}

#[test]
fn pricing_summaries() {
    let mut l = terms("tvod");
    l.rental_price_cents = Some(399);
    l.purchase_price_cents = Some(999);
    match pricing_summary(&l) {
        PricingSummary::Tvod { rent, buy } => {
            assert_eq!(rent, Some((399, 48)));
            assert_eq!(buy, Some(999));
        }
        other => panic!("unexpected {other:?}"),
    }
    match pricing_summary(&terms("tvod")) {
        PricingSummary::Text(t) => assert_eq!(t, "TVOD (pricing TBD)"),
        other => panic!("unexpected {other:?}"),
    }
    let mut s = terms("svod");
    s.flat_fee_monthly_cents = Some(5000);
    s.revenue_share_pct = Some(Percentage { in_range: true });
    assert!(matches!(pricing_summary(&s), PricingSummary::FlatMonthly(5000)));
    s.flat_fee_monthly_cents = None;
    assert!(matches!(pricing_summary(&s), PricingSummary::RevenueShare));
    let mut a = terms("avod");
    a.revenue_share_pct = Some(Percentage { in_range: true });
    assert!(matches!(pricing_summary(&a), PricingSummary::AdRevenueShare));
    let mut e = terms("event");
    e.ticket_split_pct = Some(Percentage { in_range: true });
    assert!(matches!(pricing_summary(&e), PricingSummary::TicketSplit));
    let mut edu = terms("educational");
    edu.pricing_tier = Some("large".to_string());
    match pricing_summary(&edu) {
        PricingSummary::Text(t) => assert_eq!(t, "large"),
        other => panic!("unexpected {other:?}"),
    }
    match pricing_summary(&terms("cc")) {
        PricingSummary::Text(t) => assert_eq!(t, "Creative Commons"),
        other => panic!("unexpected {other:?}"),
    }
    match pricing_summary(&terms("ppv")) {
        PricingSummary::Text(t) => assert_eq!(t, "Unknown"),
        other => panic!("unexpected {other:?}"),
    }
}

#[test]
fn license_form_is_read() {
    let mut f = form("educational");
    f.territories = Some(" us, gb ,,de ".to_string());
    f.approval_required = Some("on".to_string());
    f.rental_duration_hours = Some("72".to_string());
    f.max_attendees = Some("".to_string());
    f.institution_types = Some("university, library,".to_string());
    f.pricing_tier = Some(String::new());
    f.cc_license_type = Some("BY".to_string());
    let mut amounts = no_amounts();
    amounts.rental_price_cents = Some(399);
    let l = form_to_create_license(&f, amounts);
    assert_eq!(l.license_type, "educational");
    assert_eq!(l.territories, vec!["US", "GB", "DE"]);
    assert!(l.approval_required);
    assert!(l.active);
    assert_eq!(l.rental_price_cents, Some(399));
    assert_eq!(l.rental_duration_hours, Some(72));
    assert_eq!(l.max_attendees, None);
    assert_eq!(l.institution_types, Some(vec!["university".to_string(), "library".to_string()]));
    assert_eq!(l.pricing_tier, None);
    assert_eq!(l.cc_license_type.as_deref(), Some("BY"));
    let bare = form_to_create_license(&form("tvod"), no_amounts());
    assert!(bare.territories.is_empty());
    assert!(!bare.approval_required);
    assert_eq!(bare.institution_types, None);
}

#[test]
fn rights_resolution_windows_and_territories() {
    let l = LicenseWindow {
        active: true,
        territories: vec!["US".to_string(), "CA".to_string()],
        window_start: Some(100),
        window_end: Some(200),
    };
    assert!(is_available(&l, "CA", 150));
    assert!(is_available(&l, "US", 100));
    assert!(is_available(&l, "US", 200));
    assert!(!is_available(&l, "FR", 150));
    assert!(!is_available(&l, "US", 99));
    assert!(!is_available(&l, "US", 201));
    let everywhere = LicenseWindow { territories: vec![], window_start: None, window_end: None, ..l.clone() };
    assert!(is_available(&everywhere, "FR", i64::MAX));
    let off = LicenseWindow { active: false, ..everywhere.clone() };
    assert!(!is_available(&off, "FR", 0));
    assert!(has_license_in_force(&[off.clone(), l.clone()], 150));
    assert!(!has_license_in_force(&[off, l], 300));
    assert!(!has_license_in_force(&[], 0));
}
