use pavilion::billing::{
    current_tier_name, deduct_credits, default_tiers, estimate_monthly_cost, exceeds_tier,
    recommended_tier, PricingTier, StorageUsage,
};

const GIB: i64 = 1024 * 1024 * 1024;

fn tiers() -> Vec<PricingTier> {
    default_tiers()
        .into_iter()
        .enumerate()
        .map(|(i, t)| PricingTier {
            id: format!("t{i}"),
            name: t.name,
            max_storage_bytes: t.max_storage_bytes,
            max_films: t.max_films,
            price_cents_monthly: t.price_cents_monthly,
            active: true,
        })
        .collect()
}

fn usage(total_bytes: i64, film_count: i64) -> StorageUsage {
    StorageUsage {
        id: "u".to_string(),
        person: "p".to_string(),
        total_bytes,
        master_bytes: 0,
        rendition_bytes: 0,
        asset_count: 0,
        film_count,
    }
}

#[test]
fn shipped_tiers() {
    let t = default_tiers();
    let rows: Vec<(&str, i64, i64, i64)> = t
        .iter()
        .map(|t| (t.name.as_str(), t.max_storage_bytes, t.max_films, t.price_cents_monthly))
        .collect();
    assert_eq!(
        rows,
        vec![
            ("Free", 10 * GIB, 1, 0),
            ("Starter", 50 * GIB, 5, 999),
            ("Pro", 250 * GIB, 25, 2999),
            ("Studio", 1024 * GIB, 100, 9999),
        ]
    );
}

#[test]
fn recommended_tier_is_the_first_that_fits() {
    let t = tiers();
    assert_eq!(recommended_tier(&usage(GIB, 1), &t).unwrap().name, "Free");
    assert_eq!(recommended_tier(&usage(20 * GIB, 1), &t).unwrap().name, "Starter");
    assert_eq!(recommended_tier(&usage(GIB, 6), &t).unwrap().name, "Pro");
    assert!(recommended_tier(&usage(2000 * GIB, 1), &t).is_none());
    assert_eq!(current_tier_name(&usage(2000 * GIB, 1), &t), "Custom");
    assert_eq!(current_tier_name(&usage(0, 0), &t), "Free");
}

#[test]
fn estimates_and_limits() {
    let t = tiers();
    assert_eq!(estimate_monthly_cost(&usage(60 * GIB, 2), &t), 2999);
    assert_eq!(estimate_monthly_cost(&usage(5000 * GIB, 2), &t), 9999);
    assert_eq!(estimate_monthly_cost(&usage(5000 * GIB, 2), &[]), 0);
    assert!(exceeds_tier(&usage(11 * GIB, 1), &t[0]));
    assert!(exceeds_tier(&usage(GIB, 2), &t[0]));
    assert!(!exceeds_tier(&usage(10 * GIB, 1), &t[0]));
}

#[test]
fn uploads_and_deletions_are_metered() {
    let mut u = usage(100, 0);
    u.record_upload(50, true);
    assert_eq!((u.total_bytes, u.master_bytes, u.rendition_bytes, u.asset_count), (150, 50, 0, 1));
    u.record_upload(20, false);
    assert_eq!((u.total_bytes, u.master_bytes, u.rendition_bytes, u.asset_count), (170, 50, 20, 2));
    u.record_deletion(20, false);
    u.record_deletion(50, true);
    assert_eq!(u, usage(100, 0));
    u.increment_film_count();
    assert_eq!(u.film_count, 1);
}

#[test]
fn credits_are_never_overdrawn() {
    assert_eq!(deduct_credits(1000, 250), Some(750));
    assert_eq!(deduct_credits(250, 250), Some(0));
    assert_eq!(deduct_credits(100, 250), None);
    assert_eq!(deduct_credits(100, -50), Some(150));
}
