use pavilion::error::AppError;
use pavilion::rights::{
    active_license_types, entitlement_needed, step, Denial, LicenseSummary, RightsAction,
    RightsEvent, RightsStage,
};

fn lic(t: &str, active: bool) -> LicenseSummary {
    LicenseSummary { license_type: t.to_string(), active }
}

fn run(events: Vec<RightsEvent>) -> (RightsStage, RightsAction) {
    let mut stage = RightsStage::Start;
    let mut last = RightsAction::Allow;
    for e in events {
        let (s, a) = step(stage, &e);
        stage = s;
        last = a;
    }
    (stage, last)
}

#[test]
fn free_license_grants_access_without_entitlement() {
    let (stage, action) = run(vec![
        RightsEvent::Begin,
        RightsEvent::Platform(true),
        RightsEvent::Film(true),
        RightsEvent::Carried(true),
        RightsEvent::AnyLicense(true),
        RightsEvent::ActiveClaim(false),
        RightsEvent::Licenses(vec![lic("tvod", true), lic("avod", true)]),
    ]);
    assert_eq!(stage, RightsStage::Granted);
    assert!(matches!(action, RightsAction::Allow));
}

#[test]
fn paid_licenses_need_an_entitlement() {
    let prefix = vec![
        RightsEvent::Begin,
        RightsEvent::Platform(true),
        RightsEvent::Film(true),
        RightsEvent::Carried(true),
        RightsEvent::AnyLicense(true),
        RightsEvent::ActiveClaim(false),
        RightsEvent::Licenses(vec![lic("cc", false), lic("svod", true), lic("tvod", true)]),
    ];
    let (stage, action) = run(prefix.clone());
    assert_eq!(stage, RightsStage::AwaitEntitlement);
    match action {
        RightsAction::CheckEntitlement(t) => assert_eq!(t, "svod"),
        other => panic!("unexpected {other:?}"),
    }
    let mut paid = prefix.clone();
    paid.push(RightsEvent::Entitlement(true));
    assert_eq!(run(paid).0, RightsStage::Granted);
    let mut unpaid = prefix;
    unpaid.push(RightsEvent::Entitlement(false));
    let (stage, action) = run(unpaid);
    assert_eq!(stage, RightsStage::Refused);
    match action {
        RightsAction::Deny(d) => {
            assert_eq!(d, Denial::PaymentRequired);
            assert_eq!(d.audit_reason().as_deref(), Some("No entitlement (payment required)"));
            match d.to_error() {
                AppError::LicenseViolation(m) => assert_eq!(m, "Payment required to access this content."),
                other => panic!("unexpected {other:?}"),
            }
        }
        other => panic!("unexpected {other:?}"),
    }
}

#[test]
fn each_refusal_of_the_chain() {
    let (s, a) = run(vec![RightsEvent::Begin, RightsEvent::Platform(false)]);
    assert_eq!(s, RightsStage::Refused);
    assert!(matches!(a, RightsAction::Deny(Denial::NotFound)));
    assert!(matches!(Denial::NotFound.to_error(), AppError::NotFound));
    assert_eq!(Denial::NotFound.audit_reason(), None);
    let (_, a) = run(vec![RightsEvent::Begin, RightsEvent::Platform(true), RightsEvent::Film(false)]);
    assert!(matches!(a, RightsAction::Deny(Denial::NotFound)));
    let (_, a) = run(vec![
        RightsEvent::Begin,
        RightsEvent::Platform(true),
        RightsEvent::Film(true),
        RightsEvent::Carried(false),
    ]);
    assert!(matches!(a, RightsAction::Deny(Denial::NotCarried)));
    assert_eq!(Denial::NotCarried.audit_reason().as_deref(), Some("Platform does not carry this film"));
    let (_, a) = run(vec![
        RightsEvent::Begin,
        RightsEvent::Platform(true),
        RightsEvent::Film(true),
        RightsEvent::Carried(true),
        RightsEvent::AnyLicense(false),
    ]);
    assert!(matches!(a, RightsAction::Deny(Denial::NoLicense)));
    let (_, a) = run(vec![
        RightsEvent::Begin,
        RightsEvent::Platform(true),
        RightsEvent::Film(true),
        RightsEvent::Carried(true),
        RightsEvent::AnyLicense(true),
        RightsEvent::ActiveClaim(true),
    ]);
    assert!(matches!(a, RightsAction::Deny(Denial::Claimed)));
    assert_eq!(Denial::Claimed.audit_reason().as_deref(), Some("Active DMCA claim"));
}

#[test]
fn entitlement_decision() {
    assert_eq!(active_license_types(&[lic("tvod", false), lic("svod", true)]), vec!["svod"]);
    assert_eq!(entitlement_needed(&[]), None);
    assert_eq!(entitlement_needed(&[lic("tvod", false)]), None);
    assert_eq!(entitlement_needed(&[lic("tvod", true), lic("free", true)]), None);
    assert_eq!(entitlement_needed(&[lic("tvod", true), lic("hybrid", true)]).as_deref(), Some("tvod"));
}
