//! Viewer payments through the payment provider: what a checkout asks for,
//! which webhook events matter, what a completed checkout grants, and how a
//! subscription change is recorded.
use crate::error::{is_validation, validation, AppError};
use crate::forms::field_text;
use crate::text::{chars_of, dec_int, i64_digits, owned, parse_i64, parse_i64_chars, push_str,
    push_string, str_is, string_of};
use vstd::prelude::*;

verus! {

/// The checkout form.
#[derive(Debug, Clone)]
pub struct CheckoutForm {
    pub film_id: String,
    /// `rental`, `purchase` or `subscription`.
    pub checkout_type: String,
    pub amount_cents: Option<i64>,
    pub rental_hours: Option<i64>,
}

/// A checkout session to open with the provider, on the platform's connected account.
#[derive(Debug, Clone)]
pub struct CheckoutPlan {
    pub metadata: Vec<(String, String)>,
    pub item_name: String,
    pub item_description: String,
    pub amount_cents: i64,
    pub currency: String,
    pub quantity: i64,
    pub success_url: String,
    pub cancel_url: String,
}

/// The pairs as plain text.
pub open spec fn pair_views(v: Seq<(String, String)>) -> Seq<(Seq<char>, Seq<char>)> {
    v.map_values(|p: (String, String)| (p.0@, p.1@))
}

/// The metadata a checkout carries to its webhook: who pays, for which film
/// on which platform, how, and for how many hours where that is given.
pub open spec fn checkout_metadata(
    form: CheckoutForm,
    person_key: Seq<char>,
    platform_key: Seq<char>,
) -> Seq<(Seq<char>, Seq<char>)> {
    let base = seq![
        ("person_id"@, person_key),
        ("film_id"@, form.film_id@),
        ("platform_id"@, platform_key),
        ("checkout_type"@, form.checkout_type@),
    ];
    match form.rental_hours {
        Some(h) => base.push(("rental_hours"@, dec_int(h as int))),
        None => base,
    }
}

/// The checkout a viewer's form asks for: one line item named after the
/// film and the kind of checkout, at the amount given or $9.99, in US
/// dollars; back to the platform's success page or the film's page.
pub open spec fn checkout_of(
    form: CheckoutForm,
    person_key: Seq<char>,
    platform_key: Seq<char>,
    platform_slug: Seq<char>,
    base_url: Seq<char>,
    p: CheckoutPlan,
) -> bool {
    &&& pair_views(p.metadata@) == checkout_metadata(form, person_key, platform_key)
    &&& p.item_name@ == "Film "@ + form.film_id@ + " \u{2014} "@ + form.checkout_type@
    &&& p.item_description@ == form.checkout_type@
    &&& p.amount_cents == match form.amount_cents {
        Some(a) => a,
        None => 999,
    }
    &&& p.currency@ == "usd"@
    &&& p.quantity == 1
    &&& p.success_url@ == base_url + "/p/"@ + platform_slug
        + "/checkout/success?session_id={CHECKOUT_SESSION_ID}"@
    &&& p.cancel_url@ == base_url + "/p/"@ + platform_slug + "/"@ + form.film_id@
}

fn push_pair(v: &mut Vec<(String, String)>, name: &str, value: String)
    ensures
        pair_views(final(v)@) == pair_views(old(v)@).push((name@, value@)),
{
    let ghost t = value@;
    v.push((owned(name), value));
    assert(pair_views(v@) =~= pair_views(old(v)@).push((name@, t)));
}

/// The checkout session that `form` asks for.
pub fn checkout_plan(
    form: &CheckoutForm,
    person_key: &str,
    platform_key: &str,
    platform_slug: &str,
    base_url: &str,
) -> (p: CheckoutPlan)
    ensures
        checkout_of(*form, person_key@, platform_key@, platform_slug@, base_url@, p),
{
    let mut metadata: Vec<(String, String)> = Vec::new();
    push_pair(&mut metadata, "person_id", owned(person_key));
    push_pair(&mut metadata, "film_id", form.film_id.clone());
    push_pair(&mut metadata, "platform_id", owned(platform_key));
    push_pair(&mut metadata, "checkout_type", form.checkout_type.clone());
    match form.rental_hours {
        Some(h) => push_pair(&mut metadata, "rental_hours", string_of(i64_digits(h).as_slice())),
        None => {},
    }
    assert(pair_views(metadata@) =~= checkout_metadata(*form, person_key@, platform_key@));
    let mut name = chars_of("Film ");
    push_string(&mut name, &form.film_id);
    push_str(&mut name, " \u{2014} ");
    push_string(&mut name, &form.checkout_type);
    let mut success = chars_of(base_url);
    push_str(&mut success, "/p/");
    push_str(&mut success, platform_slug);
    push_str(&mut success, "/checkout/success?session_id={CHECKOUT_SESSION_ID}");
    let mut cancel = chars_of(base_url);
    push_str(&mut cancel, "/p/");
    push_str(&mut cancel, platform_slug);
    push_str(&mut cancel, "/");
    push_string(&mut cancel, &form.film_id);
    CheckoutPlan {
        metadata,
        item_name: string_of(name.as_slice()),
        item_description: form.checkout_type.clone(),
        amount_cents: match form.amount_cents {
            Some(a) => a,
            None => 999,
        },
        currency: owned("usd"),
        quantity: 1,
        success_url: string_of(success.as_slice()),
        cancel_url: string_of(cancel.as_slice()),
    }
}

/// The webhook events the platform acts on.
#[derive(Debug, Clone, Copy, PartialEq, Eq, Structural)]
pub enum WebhookKind {
    CheckoutCompleted,
    SubscriptionChanged,
    Ignored,
}

/// What a webhook event type calls for.
pub open spec fn webhook_spec(event_type: Seq<char>) -> WebhookKind {
    if event_type == "checkout.session.completed"@ {
        WebhookKind::CheckoutCompleted
    } else if event_type == "customer.subscription.updated"@ || event_type
        == "customer.subscription.deleted"@ {
        WebhookKind::SubscriptionChanged
    } else {
        WebhookKind::Ignored
    }
}

/// What the webhook event of type `event_type` calls for.
pub fn webhook_kind(event_type: &str) -> (k: WebhookKind)
    ensures
        k == webhook_spec(event_type@),
{
    if str_is(event_type, "checkout.session.completed") {
        WebhookKind::CheckoutCompleted
    } else if str_is(event_type, "customer.subscription.updated") || str_is(
        event_type,
        "customer.subscription.deleted",
    ) {
        WebhookKind::SubscriptionChanged
    } else {
        WebhookKind::Ignored
    }
}

/// The metadata a completed checkout comes back with; absent text fields read as empty.
#[derive(Debug, Clone)]
pub struct CheckoutMetadata {
    pub person_id: String,
    pub film_id: String,
    pub platform_id: String,
    pub checkout_type: String,
    pub rental_hours: Option<String>,
}

/// What a completed checkout grants.
#[derive(Debug, Clone, Copy, PartialEq, Eq, Structural)]
pub enum Grant {
    /// The metadata lacks the person or the platform; nothing is recorded.
    MissingMetadata,
    /// An active subscription to the platform, with its entitlements.
    Subscription,
    /// A rental of the film for this many hours.
    Rental { hours: i64 },
    /// A purchase of the film, without expiry.
    Purchase,
    /// A checkout type the platform does not know; nothing is recorded.
    Nothing,
}

/// What a completed checkout with metadata `m` grants: rentals last the
/// hours recorded at checkout, or 48 where none can be read.
pub open spec fn grant_spec(m: CheckoutMetadata) -> Grant {
    grant_from(
        m.person_id@,
        m.platform_id@,
        m.checkout_type@,
        match m.rental_hours {
            Some(h) => Some(h@),
            None => None,
        },
    )
}

/// What a completed checkout grants, from the person, platform, checkout
/// type and rental hours its metadata records.
pub open spec fn grant_from(
    person: Seq<char>,
    platform: Seq<char>,
    checkout_type: Seq<char>,
    rental_hours: Option<Seq<char>>,
) -> Grant {
    if person.len() == 0 || platform.len() == 0 {
        Grant::MissingMetadata
    } else if checkout_type == "subscription"@ {
        Grant::Subscription
    } else if checkout_type == "rental"@ {
        Grant::Rental {
            hours: match rental_hours {
                Some(h) => match parse_i64(h) {
                    Some(v) => v,
                    None => 48,
                },
                None => 48,
            },
        }
    } else if checkout_type == "purchase"@ {
        Grant::Purchase
    } else {
        Grant::Nothing
    }
}

/// The value recorded under `key`, the first where it occurs.
pub open spec fn lookup(md: Seq<(Seq<char>, Seq<char>)>, key: Seq<char>) -> Option<Seq<char>>
    decreases md.len(),
{
    if md.len() == 0 {
        None
    } else if md[0].0 == key {
        Some(md[0].1)
    } else {
        lookup(md.drop_first(), key)
    }
}

/// The text recorded under `key`, empty where there is none.
pub open spec fn lookup_text(md: Seq<(Seq<char>, Seq<char>)>, key: Seq<char>) -> Seq<char> {
    match lookup(md, key) {
        Some(v) => v,
        None => Seq::empty(),
    }
}

/// What a checkout of the given kind should grant once paid.
pub open spec fn intended_grant(form: CheckoutForm) -> Grant {
    if form.checkout_type@ == "subscription"@ {
        Grant::Subscription
    } else if form.checkout_type@ == "rental"@ {
        Grant::Rental {
            hours: match form.rental_hours {
                Some(h) => h,
                None => 48,
            },
        }
    } else if form.checkout_type@ == "purchase"@ {
        Grant::Purchase
    } else {
        Grant::Nothing
    }
}

/// A checkout grants what the viewer paid for: the metadata a checkout
/// records, read back when the provider reports it completed, grants the
/// subscription, the rental for the hours chosen (48 where none were), or
/// the purchase that the viewer's form asked for.
pub proof fn lemma_checkout_grant_round_trip(
    form: CheckoutForm,
    person_key: Seq<char>,
    platform_key: Seq<char>,
)
    requires
        person_key.len() > 0,
        platform_key.len() > 0,
    ensures
        ({
            let md = checkout_metadata(form, person_key, platform_key);
            grant_from(
                lookup_text(md, "person_id"@),
                lookup_text(md, "platform_id"@),
                lookup_text(md, "checkout_type"@),
                lookup(md, "rental_hours"@),
            ) == intended_grant(form)
        }),
{
    reveal_strlit("person_id");
    reveal_strlit("film_id");
    reveal_strlit("platform_id");
    reveal_strlit("checkout_type");
    reveal_strlit("rental_hours");
    let md = checkout_metadata(form, person_key, platform_key);
    assert("person_id"@[0] != "film_id"@[0]);
    assert("person_id"@[1] != "platform_id"@[1]);
    assert("platform_id"@[0] != "film_id"@[0]);
    assert("checkout_type"@[0] != "person_id"@[0]);
    assert("checkout_type"@[0] != "film_id"@[0]);
    assert("checkout_type"@[0] != "platform_id"@[0]);
    assert("rental_hours"@[0] != "person_id"@[0]);
    assert("rental_hours"@[0] != "film_id"@[0]);
    assert("rental_hours"@[0] != "platform_id"@[0]);
    assert("rental_hours"@[0] != "checkout_type"@[0]);
    assert(md[0].0 == "person_id"@);
    assert(md.drop_first()[0].0 == "film_id"@);
    assert(md.drop_first().drop_first()[0].0 == "platform_id"@);
    assert(md.drop_first().drop_first().drop_first()[0].0 == "checkout_type"@);
    reveal_with_fuel(lookup, 6);
    let m1 = md.drop_first();
    let m2 = m1.drop_first();
    let m3 = m2.drop_first();
    let rest = m3.drop_first();
    assert(lookup(md, "platform_id"@) == lookup(m1, "platform_id"@));
    assert(lookup(m1, "platform_id"@) == lookup(m2, "platform_id"@));
    assert(lookup(md, "checkout_type"@) == lookup(m1, "checkout_type"@));
    assert(lookup(m1, "checkout_type"@) == lookup(m2, "checkout_type"@));
    assert(lookup(m2, "checkout_type"@) == lookup(m3, "checkout_type"@));
    assert(lookup(md, "rental_hours"@) == lookup(m1, "rental_hours"@));
    assert(lookup(m1, "rental_hours"@) == lookup(m2, "rental_hours"@));
    assert(lookup(m2, "rental_hours"@) == lookup(m3, "rental_hours"@));
    assert(lookup(m3, "rental_hours"@) == lookup(rest, "rental_hours"@));
    assert(lookup_text(md, "person_id"@) == person_key);
    assert(lookup_text(md, "platform_id"@) == platform_key);
    assert(lookup_text(md, "checkout_type"@) == form.checkout_type@);
    match form.rental_hours {
        Some(h) => {
            crate::text::lemma_parse_dec_int(h);
            assert(rest[0].0 == "rental_hours"@);
            assert(lookup(md, "rental_hours"@) == Some(dec_int(h as int)));
        },
        None => {
            assert(rest.len() == 0);
            assert(lookup(md, "rental_hours"@) is None);
        },
    }
}

/// What the completed checkout with metadata `m` grants.
pub fn checkout_grant(m: &CheckoutMetadata) -> (g: Grant)
    ensures
        g == grant_spec(*m),
{
    if chars_of(m.person_id.as_str()).len() == 0 || chars_of(m.platform_id.as_str()).len() == 0 {
        Grant::MissingMetadata
    } else if str_is(m.checkout_type.as_str(), "subscription") {
        Grant::Subscription
    } else if str_is(m.checkout_type.as_str(), "rental") {
        let hours = match &m.rental_hours {
            Some(h) => match parse_i64_chars(chars_of(h.as_str()).as_slice()) {
                Some(v) => v,
                None => 48,
            },
            None => 48,
        };
        Grant::Rental { hours }
    } else if str_is(m.checkout_type.as_str(), "purchase") {
        Grant::Purchase
    } else {
        Grant::Nothing
    }
}

/// The status a subscription change records, `canceled` where the event
/// gives none, and whether the subscriber's entitlements are revoked: they
/// are where the subscription is canceled or unpaid.
pub open spec fn subscription_change_spec(status: Option<Seq<char>>) -> (Seq<char>, bool) {
    let s = match status {
        Some(s) => s,
        None => "canceled"@,
    };
    (s, s == "canceled"@ || s == "unpaid"@)
}

/// The status to record for a subscription change, and whether to revoke.
pub fn subscription_change(status: Option<&str>) -> (r: (String, bool))
    ensures
        (r.0@, r.1) == subscription_change_spec(
            match status {
                Some(s) => Some(s@),
                None => None,
            },
        ),
{
    let s = match status {
        Some(s) => owned(s),
        None => owned("canceled"),
    };
    let revoke = str_is(s.as_str(), "canceled") || str_is(s.as_str(), "unpaid");
    (s, revoke)
}

/// A subscription change records the status the event gives, `canceled`
/// where it gives none, and revokes the subscriber's entitlements exactly
/// when that recorded status is `canceled` or `unpaid`, whichever way it came.
pub proof fn lemma_subscription_revocation(status: Option<Seq<char>>)
    ensures
        subscription_change_spec(status).0 == (match status {
            Some(s) => s,
            None => "canceled"@,
        }),
        subscription_change_spec(status).1 <==> (subscription_change_spec(status).0 == "canceled"@
            || subscription_change_spec(status).0 == "unpaid"@),
        status == Some("canceled"@) ==> subscription_change_spec(status).1,
        status == Some("unpaid"@) ==> subscription_change_spec(status).1,
        status is None ==> subscription_change_spec(status).1,
{
}

/// The keys a payment provider is built with.
#[derive(Debug, Clone)]
pub struct ProviderKeys {
    pub secret_key: String,
    pub webhook_secret: String,
}

/// The provider's keys: payments need the secret key, and the webhook
/// secret is empty where it is not configured.
pub fn get_provider(secret_key: &Option<String>, webhook_secret: &Option<String>) -> (r: Result<
    ProviderKeys,
    AppError,
>)
    ensures
        secret_key is None ==> (r matches Err(e) && is_validation(e, "Payments not configured."@)),
        secret_key matches Some(k) ==> (r matches Ok(p) && p.secret_key@ == k@ && p.webhook_secret@
            == field_text(*webhook_secret)),
{
    match secret_key {
        None => Err(validation("Payments not configured.")),
        Some(k) => {
            let w = match webhook_secret {
                Some(w) => w.clone(),
                None => {
                    proof {
                        reveal_strlit("");
                    }
                    assert(""@ =~= Seq::<char>::empty());
                    owned("")
                },
            };
            Ok(ProviderKeys { secret_key: k.clone(), webhook_secret: w })
        },
    }
}

/// Where the provider sends a curator back after onboarding, and where it
/// restarts an onboarding that expired.
pub fn connect_urls(base_url: &str, platform_id: &str) -> (r: (String, String))
    ensures
        r.0@ == base_url@ + "/platforms/"@ + platform_id@ + "/payments/callback"@,
        r.1@ == base_url@ + "/platforms/"@ + platform_id@ + "/payments"@,
{
    let mut a = chars_of(base_url);
    push_str(&mut a, "/platforms/");
    push_str(&mut a, platform_id);
    let mut b = a.clone();
    push_str(&mut a, "/payments/callback");
    push_str(&mut b, "/payments");
    (string_of(a.as_slice()), string_of(b.as_slice()))
}

} // verus!
