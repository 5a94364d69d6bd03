//! Storage billing: the pricing tiers, the tier a filmmaker's usage fits,
//! the monthly estimate, how uploads and deletions change the metered usage,
//! and prepaid credits.
use crate::text::owned;
use vstd::prelude::*;

verus! {

/// A pricing tier as shipped with the platform.
#[derive(Debug, Clone)]
pub struct TierDef {
    pub name: String,
    pub max_storage_bytes: i64,
    pub max_films: i64,
    pub price_cents_monthly: i64,
}

/// The shipped tiers, by name, storage limit, film limit and monthly price in cents.
pub open spec fn default_tiers_spec() -> Seq<(Seq<char>, i64, i64, i64)> {
    seq![
        ("Free"@, 10_737_418_240i64, 1i64, 0i64),
        ("Starter"@, 53_687_091_200i64, 5i64, 999i64),
        ("Pro"@, 268_435_456_000i64, 25i64, 2999i64),
        ("Studio"@, 1_099_511_627_776i64, 100i64, 9999i64),
    ]
}

fn tier(name: &str, max_storage_bytes: i64, max_films: i64, price_cents_monthly: i64) -> (t: TierDef)
    ensures
        t.name@ == name@,
        t.max_storage_bytes == max_storage_bytes,
        t.max_films == max_films,
        t.price_cents_monthly == price_cents_monthly,
{
    TierDef { name: owned(name), max_storage_bytes, max_films, price_cents_monthly }
}

/// The shipped tiers: Free (10 GiB, one film), Starter (50 GiB, five films,
/// $9.99), Pro (250 GiB, 25 films, $29.99) and Studio (1 TiB, 100 films, $99.99).
pub fn default_tiers() -> (r: Vec<TierDef>)
    ensures
        r@.len() == default_tiers_spec().len(),
        forall|i: int|
            0 <= i < r@.len() ==> ((#[trigger] r@[i]).name@, r@[i].max_storage_bytes, r@[i].max_films,
                r@[i].price_cents_monthly) == default_tiers_spec()[i],
{
    let mut r: Vec<TierDef> = Vec::new();
    r.push(tier("Free", 10 * 1024 * 1024 * 1024, 1, 0));
    r.push(tier("Starter", 50 * 1024 * 1024 * 1024, 5, 999));
    r.push(tier("Pro", 250 * 1024 * 1024 * 1024, 25, 2999));
    r.push(tier("Studio", 1024 * 1024 * 1024 * 1024, 100, 9999));
    r
}

/// A pricing tier as stored.
#[derive(Debug, Clone, PartialEq, Eq)]
pub struct PricingTier {
    pub id: String,
    pub name: String,
    pub max_storage_bytes: i64,
    pub max_films: i64,
    pub price_cents_monthly: i64,
    pub active: bool,
}

/// A filmmaker's metered storage.
#[derive(Debug, Clone, PartialEq, Eq)]
pub struct StorageUsage {
    pub id: String,
    pub person: String,
    pub total_bytes: i64,
    pub master_bytes: i64,
    pub rendition_bytes: i64,
    pub asset_count: i64,
    pub film_count: i64,
}

/// Whether `usage` stays within the limits of tier `t`.
pub open spec fn fits(usage: StorageUsage, t: PricingTier) -> bool {
    usage.total_bytes <= t.max_storage_bytes && usage.film_count <= t.max_films
}

/// The position of the first tier that `usage` fits, if any.
pub open spec fn first_fit(usage: StorageUsage, tiers: Seq<PricingTier>) -> Option<int>
    decreases tiers.len(),
{
    if tiers.len() == 0 {
        None
    } else if fits(usage, tiers[0]) {
        Some(0)
    } else {
        match first_fit(usage, tiers.drop_first()) {
            Some(i) => Some(i + 1),
            None => None,
        }
    }
}

fn copy_tier(t: &PricingTier) -> (r: PricingTier)
    ensures
        r == *t,
{
    PricingTier {
        id: t.id.clone(),
        name: t.name.clone(),
        max_storage_bytes: t.max_storage_bytes,
        max_films: t.max_films,
        price_cents_monthly: t.price_cents_monthly,
        active: t.active,
    }
}

proof fn lemma_first_fit_step(usage: StorageUsage, tiers: Seq<PricingTier>, i: int)
    requires
        0 <= i < tiers.len(),
        forall|j: int| 0 <= j < i ==> !fits(usage, #[trigger] tiers[j]),
    ensures
        first_fit(usage, tiers) == (if fits(usage, tiers[i]) {
            Some(i)
        } else {
            match first_fit(usage, tiers.skip(i + 1)) {
                Some(k) => Some(k + i + 1),
                None => None,
            }
        }),
    decreases i,
{
    if i > 0 {
        assert forall|j: int| 0 <= j < i - 1 implies !fits(usage, #[trigger] tiers.drop_first()[j]) by {
            assert(tiers.drop_first()[j] == tiers[j + 1]);
        }
        lemma_first_fit_step(usage, tiers.drop_first(), i - 1);
        assert(tiers.drop_first().skip(i) =~= tiers.skip(i + 1));
        assert(!fits(usage, tiers[0]));
    } else {
        assert(tiers.skip(1) =~= tiers.drop_first());
    }
}

/// The cheapest-first tier list's first tier that `usage` fits.
pub fn recommended_tier(usage: &StorageUsage, tiers: &[PricingTier]) -> (r: Option<PricingTier>)
    ensures
        match first_fit(*usage, tiers@) {
            Some(i) => r == Some(tiers@[i]),
            None => r is None,
        },
{
    let mut i: usize = 0;
    while i < tiers.len()
        invariant
            i <= tiers@.len(),
            forall|j: int| 0 <= j < i ==> !fits(*usage, #[trigger] tiers@[j]),
        decreases tiers.len() - i,
    {
        let t = &tiers[i];
        proof {
            lemma_first_fit_step(*usage, tiers@, i as int);
        }
        if usage.total_bytes <= t.max_storage_bytes && usage.film_count <= t.max_films {
            return Some(copy_tier(t));
        }
        i = i + 1;
    }
    proof {
        lemma_no_fit(*usage, tiers@);
    }
    None
}

proof fn lemma_no_fit(usage: StorageUsage, tiers: Seq<PricingTier>)
    requires
        forall|j: int| 0 <= j < tiers.len() ==> !fits(usage, #[trigger] tiers[j]),
    ensures
        first_fit(usage, tiers) is None,
    decreases tiers.len(),
{
    if tiers.len() > 0 {
        assert(!fits(usage, tiers[0]));
        assert forall|j: int| 0 <= j < tiers.len() - 1 implies !fits(usage, #[trigger] tiers.drop_first()[j]) by {
            assert(tiers.drop_first()[j] == tiers[j + 1]);
        }
        lemma_no_fit(usage, tiers.drop_first());
    }
}

/// Whether `usage` goes beyond tier `t`'s storage or film limit.
pub fn exceeds_tier(usage: &StorageUsage, tier: &PricingTier) -> (b: bool)
    ensures
        b == !fits(*usage, *tier),
{
    usage.total_bytes > tier.max_storage_bytes || usage.film_count > tier.max_films
}

/// The recommended tier is the first that the usage does not exceed: it
/// fits, and every tier listed before it is exceeded.
pub proof fn lemma_recommended_is_first_fit(usage: StorageUsage, tiers: Seq<PricingTier>)
    ensures
        first_fit(usage, tiers) matches Some(i) ==> 0 <= i < tiers.len() && fits(usage, tiers[i])
            && forall|j: int| 0 <= j < i ==> !fits(usage, #[trigger] tiers[j]),
        first_fit(usage, tiers) is None ==> forall|j: int|
            0 <= j < tiers.len() ==> !fits(usage, #[trigger] tiers[j]),
    decreases tiers.len(),
{
    if tiers.len() > 0 {
        lemma_recommended_is_first_fit(usage, tiers.drop_first());
        assert forall|j: int| 1 <= j < tiers.len() implies tiers[j] == #[trigger] tiers.drop_first()[j - 1] by {}
        if !fits(usage, tiers[0]) {
            if let Some(k) = first_fit(usage, tiers.drop_first()) {
                assert forall|j: int| 0 <= j < k + 1 implies !fits(usage, #[trigger] tiers[j]) by {
                    if j > 0 {
                        assert(tiers[j] == tiers.drop_first()[j - 1]);
                    }
                }
            } else {
                assert forall|j: int| 0 <= j < tiers.len() implies !fits(usage, #[trigger] tiers[j]) by {
                    if j > 0 {
                        assert(tiers[j] == tiers.drop_first()[j - 1]);
                    }
                }
            }
        }
    }
}

/// The monthly estimate in cents: the price of the recommended tier, or of
/// the last tier where none fits, or nothing where there are no tiers.
pub open spec fn estimate_spec(usage: StorageUsage, tiers: Seq<PricingTier>) -> i64 {
    match first_fit(usage, tiers) {
        Some(i) => tiers[i].price_cents_monthly,
        None => if tiers.len() > 0 {
            tiers.last().price_cents_monthly
        } else {
            0
        },
    }
}

/// The estimated monthly cost of `usage`, in cents.
pub fn estimate_monthly_cost(usage: &StorageUsage, tiers: &[PricingTier]) -> (r: i64)
    ensures
        r == estimate_spec(*usage, tiers@),
{
    match recommended_tier(usage, tiers) {
        Some(t) => t.price_cents_monthly,
        None => if tiers.len() > 0 {
            tiers[tiers.len() - 1].price_cents_monthly
        } else {
            0
        },
    }
}

/// The name of the tier `usage` falls in, or `Custom` where it fits none.
pub fn current_tier_name(usage: &StorageUsage, tiers: &[PricingTier]) -> (r: String)
    ensures
        match first_fit(*usage, tiers@) {
            Some(i) => r@ == tiers@[i].name@,
            None => r@ == "Custom"@,
        },
{
    match recommended_tier(usage, tiers) {
        Some(t) => t.name,
        None => owned("Custom"),
    }
}

/// The usage after storing an asset of `size` bytes, a master or a rendition.
pub open spec fn after_upload(u: StorageUsage, size: i64, is_master: bool) -> StorageUsage {
    StorageUsage {
        total_bytes: (u.total_bytes + size) as i64,
        master_bytes: if is_master { (u.master_bytes + size) as i64 } else { u.master_bytes },
        rendition_bytes: if is_master { u.rendition_bytes } else { (u.rendition_bytes + size) as i64 },
        asset_count: (u.asset_count + 1) as i64,
        ..u
    }
}

/// The usage after removing an asset of `size` bytes, a master or a rendition.
pub open spec fn after_deletion(u: StorageUsage, size: i64, is_master: bool) -> StorageUsage {
    StorageUsage {
        total_bytes: (u.total_bytes - size) as i64,
        master_bytes: if is_master { (u.master_bytes - size) as i64 } else { u.master_bytes },
        rendition_bytes: if is_master { u.rendition_bytes } else { (u.rendition_bytes - size) as i64 },
        asset_count: (u.asset_count - 1) as i64,
        ..u
    }
}

/// Whether the counters that an upload of `size` bytes changes stay within 64 bits.
pub open spec fn upload_fits(u: StorageUsage, size: i64, is_master: bool) -> bool {
    &&& i64::MIN <= u.total_bytes + size <= i64::MAX
    &&& is_master ==> i64::MIN <= u.master_bytes + size <= i64::MAX
    &&& !is_master ==> i64::MIN <= u.rendition_bytes + size <= i64::MAX
    &&& u.asset_count < i64::MAX
}

/// Whether the counters that removing `size` bytes changes stay within 64 bits.
pub open spec fn deletion_fits(u: StorageUsage, size: i64, is_master: bool) -> bool {
    &&& i64::MIN <= u.total_bytes - size <= i64::MAX
    &&& is_master ==> i64::MIN <= u.master_bytes - size <= i64::MAX
    &&& !is_master ==> i64::MIN <= u.rendition_bytes - size <= i64::MAX
    &&& u.asset_count > i64::MIN
}

impl StorageUsage {
    /// Records an uploaded asset: its bytes count toward the total and toward
    /// masters or renditions, and the asset count grows by one.
    pub fn record_upload(&mut self, size_bytes: i64, is_master: bool)
        requires
            upload_fits(*old(self), size_bytes, is_master),
        ensures
            *final(self) == after_upload(*old(self), size_bytes, is_master),
    {
        self.total_bytes = self.total_bytes + size_bytes;
        if is_master {
            self.master_bytes = self.master_bytes + size_bytes;
        } else {
            self.rendition_bytes = self.rendition_bytes + size_bytes;
        }
        self.asset_count = self.asset_count + 1;
    }

    /// Records a deleted asset, taking back what its upload added.
    pub fn record_deletion(&mut self, size_bytes: i64, is_master: bool)
        requires
            deletion_fits(*old(self), size_bytes, is_master),
        ensures
            *final(self) == after_deletion(*old(self), size_bytes, is_master),
    {
        self.total_bytes = self.total_bytes - size_bytes;
        if is_master {
            self.master_bytes = self.master_bytes - size_bytes;
        } else {
            self.rendition_bytes = self.rendition_bytes - size_bytes;
        }
        self.asset_count = self.asset_count - 1;
    }

    /// Records a new film.
    pub fn increment_film_count(&mut self)
        requires
            old(self).film_count < i64::MAX,
        ensures
            *final(self) == (StorageUsage { film_count: (old(self).film_count + 1) as i64, ..*old(self) }),
    {
        self.film_count = self.film_count + 1;
    }
}

/// Deleting an asset undoes its upload: the usage is as it was before.
pub proof fn lemma_deletion_undoes_upload(u: StorageUsage, size: i64, is_master: bool)
    requires
        upload_fits(u, size, is_master),
    ensures
        deletion_fits(after_upload(u, size, is_master), size, is_master),
        after_deletion(after_upload(u, size, is_master), size, is_master) == u,
{
}

/// The balance after a deduction of `amount` cents, or `None` where the
/// balance does not cover it.
pub fn deduct_credits(balance: i64, amount: i64) -> (r: Option<i64>)
    requires
        balance >= amount ==> balance - amount <= i64::MAX,
    ensures
        balance < amount ==> r is None,
        balance >= amount ==> r == Some((balance - amount) as i64),
{
    if balance < amount {
        None
    } else {
        Some(balance - amount)
    }
}

/// A deduction never overdraws: where it goes through, what is left is not negative.
pub proof fn lemma_deduction_never_overdraws(balance: i64, amount: i64)
    requires
        balance >= amount,
    ensures
        balance - amount >= 0,
{
}

} // verus!
