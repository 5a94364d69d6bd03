use pavilion::error::AppError;
use pavilion::payments::{
    checkout_grant, checkout_plan, connect_urls, get_provider, subscription_change, webhook_kind,
    CheckoutForm, CheckoutMetadata, Grant, WebhookKind,
};

fn form(kind: &str, hours: Option<i64>, amount: Option<i64>) -> CheckoutForm {
    CheckoutForm { film_id: "f42".to_string(), checkout_type: kind.to_string(), amount_cents: amount, rental_hours: hours }
}

fn metadata_of(plan: &pavilion::payments::CheckoutPlan) -> CheckoutMetadata {
    let get = |k: &str| plan.metadata.iter().find(|(n, _)| n == k).map(|(_, v)| v.clone());
    CheckoutMetadata {
        person_id: get("person_id").unwrap_or_default(),
        film_id: get("film_id").unwrap_or_default(),
        platform_id: get("platform_id").unwrap_or_default(),
        checkout_type: get("checkout_type").unwrap_or_default(),
        rental_hours: get("rental_hours"),
    }
}

#[test]
fn checkout_session_contents() {
    let p = checkout_plan(&form("rental", Some(72), None), "p1", "pl9", "indie", "https://pav.example");
    assert_eq!(p.amount_cents, 999);
    assert_eq!(p.currency, "usd");
    assert_eq!(p.quantity, 1);
    assert_eq!(p.item_name, "Film f42 \u{2014} rental");
    assert_eq!(p.item_description, "rental");
    assert_eq!(
        p.success_url,
        "https://pav.example/p/indie/checkout/success?session_id={CHECKOUT_SESSION_ID}"
    );
    assert_eq!(p.cancel_url, "https://pav.example/p/indie/f42");
    let keys: Vec<(&str, &str)> = p.metadata.iter().map(|(k, v)| (k.as_str(), v.as_str())).collect();
    assert_eq!(
        keys,
        vec![
            ("person_id", "p1"),
            ("film_id", "f42"),
            ("platform_id", "pl9"),
            ("checkout_type", "rental"),
            ("rental_hours", "72"),
        ]
    );
    let q = checkout_plan(&form("purchase", None, Some(1499)), "p1", "pl9", "indie", "b");
    assert_eq!(q.amount_cents, 1499);
    assert_eq!(q.metadata.len(), 4);
}

#[test]
fn completed_checkouts_grant_what_was_bought() {
    for (kind, hours, expected) in [
        ("subscription", None, Grant::Subscription),
        ("rental", Some(24), Grant::Rental { hours: 24 }),
        ("rental", None, Grant::Rental { hours: 48 }),
        ("purchase", None, Grant::Purchase),
        ("gift", None, Grant::Nothing),
    ] {
        let plan = checkout_plan(&form(kind, hours, None), "p1", "pl9", "s", "b");
        assert_eq!(checkout_grant(&metadata_of(&plan)), expected);
    }
    let missing = CheckoutMetadata {
        person_id: String::new(),
        film_id: "f".to_string(),
        platform_id: "pl".to_string(),
        checkout_type: "purchase".to_string(),
        rental_hours: None,
    };
    assert_eq!(checkout_grant(&missing), Grant::MissingMetadata);
    let garbled = CheckoutMetadata { person_id: "p".to_string(), checkout_type: "rental".to_string(), rental_hours: Some("a day".to_string()), ..missing };
    assert_eq!(checkout_grant(&garbled), Grant::Rental { hours: 48 });
}

#[test]
fn webhook_events() {
    assert_eq!(webhook_kind("checkout.session.completed"), WebhookKind::CheckoutCompleted);
    assert_eq!(webhook_kind("customer.subscription.updated"), WebhookKind::SubscriptionChanged);
    assert_eq!(webhook_kind("customer.subscription.deleted"), WebhookKind::SubscriptionChanged);
    assert_eq!(webhook_kind("invoice.paid"), WebhookKind::Ignored);
}

#[test]
fn subscription_changes() {
    assert_eq!(subscription_change(Some("active")), ("active".to_string(), false));
    assert_eq!(subscription_change(Some("unpaid")), ("unpaid".to_string(), true));
    assert_eq!(subscription_change(None), ("canceled".to_string(), true));
}

#[test]
fn provider_configuration() {
    match get_provider(&None, &Some("w".to_string())) {
        Err(AppError::Validation(m)) => assert_eq!(m, "Payments not configured."),
        other => panic!("unexpected {other:?}"),
    }
    let keys = get_provider(&Some("sk".to_string()), &None).unwrap();
    assert_eq!((keys.secret_key.as_str(), keys.webhook_secret.as_str()), ("sk", ""));
    let (back, refresh) = connect_urls("https://b", "pl1");
    assert_eq!(back, "https://b/platforms/pl1/payments/callback");
    assert_eq!(refresh, "https://b/platforms/pl1/payments");
}
