//! Distribution licenses: the labels of the license types, the fields each
//! type requires, the pricing summary shown for a license, and reading the
//! license form.
use crate::bindings::{to_uppercase, uppercase};
use crate::forms::{csv_items, csv_list, field_number, field_text, non_empty};
use crate::text::{chars_of, owned, push_string, split, split_chars, str_is, string_of, texts, trim, trim_chars};
use vstd::prelude::*;

verus! {

/// A percentage as the license rules read it: whether it lies within 0 to 100
/// inclusive (a value that is not a number does not).
#[derive(Debug, Clone, Copy, PartialEq, Eq, Structural)]
pub struct Percentage {
    pub in_range: bool,
}

/// The terms of a license: its type, where and how it applies, and the
/// pricing fields that the different license types use.
#[derive(Debug, Clone)]
pub struct LicenseTerms {
    pub license_type: String,
    pub territories: Vec<String>,
    pub approval_required: bool,
    pub active: bool,
    pub rental_price_cents: Option<i64>,
    pub rental_duration_hours: Option<i64>,
    pub purchase_price_cents: Option<i64>,
    pub flat_fee_monthly_cents: Option<i64>,
    pub revenue_share_pct: Option<Percentage>,
    pub event_flat_fee_cents: Option<i64>,
    pub ticket_split_pct: Option<Percentage>,
    pub max_attendees: Option<i64>,
    pub institution_types: Option<Vec<String>>,
    pub pricing_tier: Option<String>,
    pub cc_license_type: Option<String>,
}

/// Whether `t` is one of the license types the platform knows.
pub open spec fn known_type(t: Seq<char>) -> bool {
    ||| t == "tvod"@
    ||| t == "svod"@
    ||| t == "avod"@
    ||| t == "hybrid"@
    ||| t == "event"@
    ||| t == "educational"@
    ||| t == "cc"@
}

/// The human-readable name of a license type; an unknown type reads as itself.
pub open spec fn type_label(t: Seq<char>) -> Seq<char> {
    if t == "tvod"@ {
        "Transactional (TVOD)"@
    } else if t == "svod"@ {
        "Subscription (SVOD)"@
    } else if t == "avod"@ {
        "Ad-Supported (AVOD)"@
    } else if t == "hybrid"@ {
        "Hybrid / Split-Rights"@
    } else if t == "event"@ {
        "Event / Screening"@
    } else if t == "educational"@ {
        "Educational / Institutional"@
    } else if t == "cc"@ {
        "Creative Commons"@
    } else {
        t
    }
}

/// The human-readable name of license type `t`.
pub fn license_type_label(t: &str) -> (r: String)
    ensures
        r@ == type_label(t@),
{
    if str_is(t, "tvod") {
        owned("Transactional (TVOD)")
    } else if str_is(t, "svod") {
        owned("Subscription (SVOD)")
    } else if str_is(t, "avod") {
        owned("Ad-Supported (AVOD)")
    } else if str_is(t, "hybrid") {
        owned("Hybrid / Split-Rights")
    } else if str_is(t, "event") {
        owned("Event / Screening")
    } else if str_is(t, "educational") {
        owned("Educational / Institutional")
    } else if str_is(t, "cc") {
        owned("Creative Commons")
    } else {
        owned(t)
    }
}

/// Whether an optional percentage is present and out of range.
pub open spec fn out_of_range(p: Option<Percentage>) -> bool {
    p matches Some(v) && !v.in_range
}

/// The rule of `l`'s license type that `l` breaks, if any; every type but
/// the seven known ones is itself an error.
pub open spec fn type_error(l: LicenseTerms) -> Option<Seq<char>> {
    let t = l.license_type@;
    if t == "tvod"@ {
        if l.rental_price_cents is None && l.purchase_price_cents is None {
            Some("TVOD requires at least a rental or purchase price."@)
        } else if l.rental_price_cents is Some && l.rental_duration_hours is None {
            Some("TVOD rental requires a duration in hours."@)
        } else {
            None
        }
    } else if t == "svod"@ {
        if l.flat_fee_monthly_cents is None && l.revenue_share_pct is None {
            Some("SVOD requires either a flat monthly fee or revenue share percentage."@)
        } else {
            None
        }
    } else if t == "avod"@ {
        if l.revenue_share_pct is None {
            Some("AVOD requires a revenue share percentage."@)
        } else {
            None
        }
    } else if t == "event"@ {
        if l.event_flat_fee_cents is None && l.ticket_split_pct is None {
            Some("Event licensing requires a flat fee or ticket split percentage."@)
        } else {
            None
        }
    } else if t == "educational"@ {
        None
    } else if t == "cc"@ {
        if l.cc_license_type is None {
            Some("Creative Commons requires a license type (e.g. BY, BY-SA, BY-NC)."@)
        } else {
            None
        }
    } else if t == "hybrid"@ {
        None
    } else {
        Some("Unknown license type: "@ + t)
    }
}

/// The first rule that `l` breaks, if any: the rules of its type first, then
/// the range of the revenue share, then that of the ticket split.
pub open spec fn license_error(l: LicenseTerms) -> Option<Seq<char>> {
    match type_error(l) {
        Some(e) => Some(e),
        None => if out_of_range(l.revenue_share_pct) {
            Some("Revenue share must be between 0 and 100."@)
        } else if out_of_range(l.ticket_split_pct) {
            Some("Ticket split must be between 0 and 100."@)
        } else {
            None
        },
    }
}

fn is_out_of_range(p: Option<Percentage>) -> (b: bool)
    ensures
        b == out_of_range(p),
{
    match p {
        Some(v) => !v.in_range,
        None => false,
    }
}

fn err_text(s: &str) -> (r: Result<(), String>)
    ensures
        r matches Err(m) && m@ == s@,
{
    Err(owned(s))
}

/// Checks that `l` has the fields its license type requires and that its
/// percentages lie within 0 to 100; the error names the first rule broken.
pub fn validate_license(l: &LicenseTerms) -> (r: Result<(), String>)
    ensures
        r is Ok <==> license_error(*l) is None,
        r matches Err(m) ==> license_error(*l) == Some(m@),
{
    let t = l.license_type.as_str();
    if str_is(t, "tvod") {
        if l.rental_price_cents.is_none() && l.purchase_price_cents.is_none() {
            return err_text("TVOD requires at least a rental or purchase price.");
        }
        if l.rental_price_cents.is_some() && l.rental_duration_hours.is_none() {
            return err_text("TVOD rental requires a duration in hours.");
        }
    } else if str_is(t, "svod") {
        if l.flat_fee_monthly_cents.is_none() && l.revenue_share_pct.is_none() {
            return err_text("SVOD requires either a flat monthly fee or revenue share percentage.");
        }
    } else if str_is(t, "avod") {
        if l.revenue_share_pct.is_none() {
            return err_text("AVOD requires a revenue share percentage.");
        }
    } else if str_is(t, "event") {
        if l.event_flat_fee_cents.is_none() && l.ticket_split_pct.is_none() {
            return err_text("Event licensing requires a flat fee or ticket split percentage.");
        }
    } else if str_is(t, "educational") {
    } else if str_is(t, "cc") {
        if l.cc_license_type.is_none() {
            return err_text("Creative Commons requires a license type (e.g. BY, BY-SA, BY-NC).");
        }
    } else if str_is(t, "hybrid") {
    } else {
        let mut m = chars_of("Unknown license type: ");
        push_string(&mut m, &l.license_type);
        return Err(string_of(m.as_slice()));
    }
    if is_out_of_range(l.revenue_share_pct) {
        return err_text("Revenue share must be between 0 and 100.");
    }
    if is_out_of_range(l.ticket_split_pct) {
        return err_text("Ticket split must be between 0 and 100.");
    }
    Ok(())
}

/// A license that passes validation carries the terms its type needs: a TVOD
/// license has a price, and a rental price comes with a duration; an SVOD
/// license a flat fee or a share; an AVOD license a share; an event license a
/// fee or a ticket split; a Creative Commons license its variant; and its type
/// is one the platform knows.
pub proof fn lemma_valid_license_has_terms(l: LicenseTerms)
    requires
        license_error(l) is None,
    ensures
        known_type(l.license_type@),
        l.license_type@ == "tvod"@ ==> (l.rental_price_cents is Some || l.purchase_price_cents is Some),
        l.license_type@ == "tvod"@ && l.rental_price_cents is Some ==> l.rental_duration_hours is Some,
        l.license_type@ == "svod"@ ==> (l.flat_fee_monthly_cents is Some || l.revenue_share_pct is Some),
        l.license_type@ == "avod"@ ==> l.revenue_share_pct is Some,
        l.license_type@ == "event"@ ==> (l.event_flat_fee_cents is Some || l.ticket_split_pct is Some),
        l.license_type@ == "cc"@ ==> l.cc_license_type is Some,
        !out_of_range(l.revenue_share_pct) && !out_of_range(l.ticket_split_pct),
{
    reveal_strlit("tvod");
    reveal_strlit("svod");
    reveal_strlit("avod");
    reveal_strlit("event");
    reveal_strlit("cc");
    let t = l.license_type@;
    if t == "svod"@ {
        assert(t[0] == 's');
        assert(t != "tvod"@) by { assert("tvod"@[0] == 't'); }
    }
    if t == "avod"@ {
        assert(t[0] == 'a');
        assert(t != "tvod"@) by { assert("tvod"@[0] == 't'); }
        assert(t != "svod"@) by { assert("svod"@[0] == 's'); }
    }
    if t == "event"@ {
        assert(t[0] == 'e');
        assert(t != "tvod"@) by { assert("tvod"@[0] == 't'); }
        assert(t != "svod"@) by { assert("svod"@[0] == 's'); }
        assert(t != "avod"@) by { assert("avod"@[0] == 'a'); }
    }
    if t == "cc"@ {
        assert(t[0] == 'c');
        assert(t != "tvod"@) by { assert("tvod"@[0] == 't'); }
        assert(t != "svod"@) by { assert("svod"@[0] == 's'); }
        assert(t != "avod"@) by { assert("avod"@[0] == 'a'); }
        assert(t != "event"@) by { assert("event"@[0] == 'e'); }
        assert(t != "educational"@) by { reveal_strlit("educational"); assert("educational"@[0] == 'e'); }
    }
}

/// What the pricing summary of a license shows. Amounts are in cents; the
/// percentage variants stand for the license's own percentage, which the
/// caller writes with no decimals.
#[derive(Debug, Clone)]
pub enum PricingSummary {
    /// `Rent: $x / Nh` for a rental (price, hours) and `Buy: $y` for a purchase, joined by ` | `.
    Tvod { rent: Option<(i64, i64)>, buy: Option<i64> },
    /// `Flat fee: $x/mo`.
    FlatMonthly(i64),
    /// `N% revenue share`.
    RevenueShare,
    /// `N% ad revenue share`.
    AdRevenueShare,
    /// `Flat fee: $x`.
    EventFlatFee(i64),
    /// `N% ticket split`.
    TicketSplit,
    /// Text shown as it is.
    Text(String),
}

/// Plain-value view of a pricing summary.
pub enum PricingView {
    Tvod { rent: Option<(i64, i64)>, buy: Option<i64> },
    FlatMonthly(i64),
    RevenueShare,
    AdRevenueShare,
    EventFlatFee(i64),
    TicketSplit,
    Text(Seq<char>),
}

impl View for PricingSummary {
    type V = PricingView;

    open spec fn view(&self) -> PricingView {
        match self {
            PricingSummary::Tvod { rent, buy } => PricingView::Tvod { rent: *rent, buy: *buy },
            PricingSummary::FlatMonthly(c) => PricingView::FlatMonthly(*c),
            PricingSummary::RevenueShare => PricingView::RevenueShare,
            PricingSummary::AdRevenueShare => PricingView::AdRevenueShare,
            PricingSummary::EventFlatFee(c) => PricingView::EventFlatFee(*c),
            PricingSummary::TicketSplit => PricingView::TicketSplit,
            PricingSummary::Text(s) => PricingView::Text(s@),
        }
    }
}

/// The text of an optional field, or `default` where it is absent.
pub open spec fn text_or(o: Option<String>, default: Seq<char>) -> Seq<char> {
    match o {
        Some(s) => s@,
        None => default,
    }
}

/// The pricing summary of a license, by its type: TVOD shows the rental (48
/// hours where no duration is set) and the purchase price; SVOD a flat fee
/// before a share; AVOD its share; an event a flat fee before a ticket split;
/// educational its pricing tier; Creative Commons its variant; each with a
/// fallback text where the fields are missing.
pub open spec fn pricing_spec(l: LicenseTerms) -> PricingView {
    let t = l.license_type@;
    if t == "tvod"@ {
        if l.rental_price_cents is None && l.purchase_price_cents is None {
            PricingView::Text("TVOD (pricing TBD)"@)
        } else {
            PricingView::Tvod {
                rent: match l.rental_price_cents {
                    Some(c) => Some(
                        (
                            c,
                            match l.rental_duration_hours {
                                Some(h) => h,
                                None => 48,
                            },
                        ),
                    ),
                    None => None,
                },
                buy: l.purchase_price_cents,
            }
        }
    } else if t == "svod"@ {
        match l.flat_fee_monthly_cents {
            Some(c) => PricingView::FlatMonthly(c),
            None => if l.revenue_share_pct is Some {
                PricingView::RevenueShare
            } else {
                PricingView::Text("SVOD (terms TBD)"@)
            },
        }
    } else if t == "avod"@ {
        if l.revenue_share_pct is Some {
            PricingView::AdRevenueShare
        } else {
            PricingView::Text("AVOD (terms TBD)"@)
        }
    } else if t == "event"@ {
        match l.event_flat_fee_cents {
            Some(c) => PricingView::EventFlatFee(c),
            None => if l.ticket_split_pct is Some {
                PricingView::TicketSplit
            } else {
                PricingView::Text("Event (terms TBD)"@)
            },
        }
    } else if t == "educational"@ {
        PricingView::Text(text_or(l.pricing_tier, "Educational (terms TBD)"@))
    } else if t == "cc"@ {
        PricingView::Text(text_or(l.cc_license_type, "Creative Commons"@))
    } else if t == "hybrid"@ {
        PricingView::Text("Hybrid / Split-Rights"@)
    } else {
        PricingView::Text("Unknown"@)
    }
}

fn text_or_default(o: &Option<String>, default: &str) -> (r: String)
    ensures
        r@ == text_or(*o, default@),
{
    match o {
        Some(s) => s.clone(),
        None => owned(default),
    }
}

/// A TVOD license with a rental price is summarised as a rental at that
/// price for the license's rental duration, 48 hours only where none is set,
/// together with the license's purchase price.
pub proof fn lemma_tvod_rental_terms(l: LicenseTerms)
    requires
        l.license_type@ == "tvod"@,
        l.rental_price_cents is Some,
    ensures
        pricing_spec(l) matches PricingView::Tvod { rent: Some((c, h)), buy } && c
            == l.rental_price_cents->0 && buy == l.purchase_price_cents && (l.rental_duration_hours
            matches Some(d) ==> h == d) && (l.rental_duration_hours is None ==> h == 48),
{
}

/// The pricing summary of license `l`.
pub fn pricing_summary(l: &LicenseTerms) -> (r: PricingSummary)
    ensures
        r@ == pricing_spec(*l),
{
    let t = l.license_type.as_str();
    if str_is(t, "tvod") {
        if l.rental_price_cents.is_none() && l.purchase_price_cents.is_none() {
            PricingSummary::Text(owned("TVOD (pricing TBD)"))
        } else {
            let rent = match l.rental_price_cents {
                Some(c) => Some(
                    (
                        c,
                        match l.rental_duration_hours {
                            Some(h) => h,
                            None => 48,
                        },
                    ),
                ),
                None => None,
            };
            PricingSummary::Tvod { rent, buy: l.purchase_price_cents }
        }
    } else if str_is(t, "svod") {
        match l.flat_fee_monthly_cents {
            Some(c) => PricingSummary::FlatMonthly(c),
            None => if l.revenue_share_pct.is_some() {
                PricingSummary::RevenueShare
            } else {
                PricingSummary::Text(owned("SVOD (terms TBD)"))
            },
        }
    } else if str_is(t, "avod") {
        if l.revenue_share_pct.is_some() {
            PricingSummary::AdRevenueShare
        } else {
            PricingSummary::Text(owned("AVOD (terms TBD)"))
        }
    } else if str_is(t, "event") {
        match l.event_flat_fee_cents {
            Some(c) => PricingSummary::EventFlatFee(c),
            None => if l.ticket_split_pct.is_some() {
                PricingSummary::TicketSplit
            } else {
                PricingSummary::Text(owned("Event (terms TBD)"))
            },
        }
    } else if str_is(t, "educational") {
        PricingSummary::Text(text_or_default(&l.pricing_tier, "Educational (terms TBD)"))
    } else if str_is(t, "cc") {
        PricingSummary::Text(text_or_default(&l.cc_license_type, "Creative Commons"))
    } else if str_is(t, "hybrid") {
        PricingSummary::Text(owned("Hybrid / Split-Rights"))
    } else {
        PricingSummary::Text(owned("Unknown"))
    }
}

/// The license form as submitted; every field is text.
#[derive(Debug, Clone)]
pub struct LicenseForm {
    pub license_type: String,
    pub territories: Option<String>,
    pub window_start: Option<String>,
    pub window_end: Option<String>,
    pub approval_required: Option<String>,
    pub rental_price: Option<String>,
    pub rental_duration_hours: Option<String>,
    pub purchase_price: Option<String>,
    pub flat_fee_monthly: Option<String>,
    pub revenue_share_pct: Option<String>,
    pub event_flat_fee: Option<String>,
    pub ticket_split_pct: Option<String>,
    pub max_attendees: Option<String>,
    pub institution_types: Option<String>,
    pub pricing_tier: Option<String>,
    pub cc_license_type: Option<String>,
}

/// The decimal amounts of a license form, read by the caller: prices in
/// cents and percentages as their range check sees them.
#[derive(Debug, Clone, Copy)]
pub struct FormAmounts {
    pub rental_price_cents: Option<i64>,
    pub purchase_price_cents: Option<i64>,
    pub flat_fee_monthly_cents: Option<i64>,
    pub revenue_share_pct: Option<Percentage>,
    pub event_flat_fee_cents: Option<i64>,
    pub ticket_split_pct: Option<Percentage>,
}

/// The upper-cased trimmed pieces of `parts` that are not empty, in order.
pub open spec fn upper_items(parts: Seq<Seq<char>>) -> Seq<Seq<char>>
    decreases parts.len(),
{
    if parts.len() == 0 {
        Seq::empty()
    } else {
        let rest = upper_items(parts.drop_last());
        let t = uppercase(trim(parts.last()));
        if t.len() > 0 {
            rest.push(t)
        } else {
            rest
        }
    }
}

/// The territory codes of a comma-separated list: trimmed, upper-cased, empty ones dropped.
pub open spec fn territory_codes(s: Seq<char>) -> Seq<Seq<char>> {
    upper_items(split(s, ','))
}

/// The territory codes listed in `s`.
pub fn territory_list(s: &str) -> (r: Vec<String>)
    ensures
        texts(r@) == territory_codes(s@),
{
    let cs = chars_of(s);
    let parts = split_chars(cs.as_slice(), ',');
    let ghost ps = split(s@, ',');
    let mut r: Vec<String> = Vec::new();
    let mut i: usize = 0;
    while i < parts.len()
        invariant
            i <= parts@.len(),
            crate::text::views(parts@) == ps,
            ps == split(s@, ','),
            texts(r@) == upper_items(ps.take(i as int)),
        decreases parts.len() - i,
    {
        assert(ps.take(i + 1).drop_last() =~= ps.take(i as int));
        assert(ps[i as int] == parts@[i as int]@);
        let t = string_of(trim_chars(parts[i].as_slice()).as_slice());
        let u = to_uppercase(t.as_str());
        if chars_of(u.as_str()).len() > 0 {
            crate::text::push_text(&mut r, u);
        }
        i = i + 1;
    }
    assert(ps.take(parts@.len() as int) =~= ps);
    r
}

/// The terms a license form describes: territories upper-cased, institution
/// types listed where the field is not empty, numbers read where given,
/// approval required where the box was ticked, and the license active.
pub open spec fn form_terms(form: LicenseForm, amounts: FormAmounts, l: LicenseTerms) -> bool {
    &&& l.license_type@ == form.license_type@
    &&& texts(l.territories@) == territory_codes(field_text(form.territories))
    &&& l.approval_required == form.approval_required is Some
    &&& l.active
    &&& l.rental_price_cents == amounts.rental_price_cents
    &&& l.rental_duration_hours == field_number(form.rental_duration_hours)
    &&& l.purchase_price_cents == amounts.purchase_price_cents
    &&& l.flat_fee_monthly_cents == amounts.flat_fee_monthly_cents
    &&& l.revenue_share_pct == amounts.revenue_share_pct
    &&& l.event_flat_fee_cents == amounts.event_flat_fee_cents
    &&& l.ticket_split_pct == amounts.ticket_split_pct
    &&& l.max_attendees == field_number(form.max_attendees)
    &&& (l.institution_types is Some <==> (form.institution_types matches Some(s) && s@.len() > 0))
    &&& (l.institution_types matches Some(v) ==> texts(v@) == csv_items(
        field_text(form.institution_types),
    ))
    &&& (l.pricing_tier is Some <==> (form.pricing_tier matches Some(s) && s@.len() > 0))
    &&& (l.pricing_tier matches Some(s) ==> s@ == field_text(form.pricing_tier))
    &&& (l.cc_license_type is Some <==> (form.cc_license_type matches Some(s) && s@.len() > 0))
    &&& (l.cc_license_type matches Some(s) ==> s@ == field_text(form.cc_license_type))
}

/// Reads a license form into license terms; `amounts` carries the form's
/// decimal fields, already read.
pub fn form_to_create_license(form: &LicenseForm, amounts: FormAmounts) -> (l: LicenseTerms)
    ensures
        form_terms(*form, amounts, l),
{
    let territories = match &form.territories {
        Some(s) => territory_list(s.as_str()),
        None => {
            proof {
                reveal_strlit("");
            }
            assert(""@ =~= Seq::<char>::empty());
            territory_list("")
        },
    };
    let institution_types = match non_empty(&form.institution_types) {
        Some(s) => Some(csv_list(s.as_str())),
        None => None,
    };
    LicenseTerms {
        license_type: form.license_type.clone(),
        territories,
        approval_required: form.approval_required.is_some(),
        active: true,
        rental_price_cents: amounts.rental_price_cents,
        rental_duration_hours: crate::forms::parse_i64(&form.rental_duration_hours),
        purchase_price_cents: amounts.purchase_price_cents,
        flat_fee_monthly_cents: amounts.flat_fee_monthly_cents,
        revenue_share_pct: amounts.revenue_share_pct,
        event_flat_fee_cents: amounts.event_flat_fee_cents,
        ticket_split_pct: amounts.ticket_split_pct,
        max_attendees: crate::forms::parse_i64(&form.max_attendees),
        institution_types,
        pricing_tier: non_empty(&form.pricing_tier),
        cc_license_type: non_empty(&form.cc_license_type),
    }
}

/// What rights resolution reads of a license: whether it is active, where it
/// applies (nowhere listed means everywhere), and its availability window in
/// seconds since the UNIX epoch, both ends inclusive and either open.
#[derive(Debug, Clone)]
pub struct LicenseWindow {
    pub active: bool,
    pub territories: Vec<String>,
    pub window_start: Option<i64>,
    pub window_end: Option<i64>,
}

/// Whether the license's window holds `now`.
pub open spec fn in_window(l: LicenseWindow, now: i64) -> bool {
    &&& (l.window_start matches Some(s) ==> s <= now)
    &&& (l.window_end matches Some(e) ==> now <= e)
}

/// Whether the license applies in `territory`.
pub open spec fn covers(l: LicenseWindow, territory: Seq<char>) -> bool {
    l.territories@.len() == 0 || exists|i: int|
        0 <= i < l.territories@.len() && (#[trigger] l.territories@[i])@ == territory
}

/// Whether a license makes its film available in `territory` at `now`: it
/// is active, applies there, and its window holds the time.
pub open spec fn available_spec(l: LicenseWindow, territory: Seq<char>, now: i64) -> bool {
    l.active && covers(l, territory) && in_window(l, now)
}

fn window_holds(l: &LicenseWindow, now: i64) -> (b: bool)
    ensures
        b == in_window(*l, now),
{
    let after_start = match l.window_start {
        Some(s) => s <= now,
        None => true,
    };
    let before_end = match l.window_end {
        Some(e) => now <= e,
        None => true,
    };
    after_start && before_end
}

/// Whether license `l` makes its film available in `territory` at `now`.
pub fn is_available(l: &LicenseWindow, territory: &str, now: i64) -> (b: bool)
    ensures
        b == available_spec(*l, territory@, now),
{
    if !l.active || !window_holds(l, now) {
        return false;
    }
    if l.territories.len() == 0 {
        return true;
    }
    let mut i: usize = 0;
    while i < l.territories.len()
        invariant
            i <= l.territories@.len(),
            l.active,
            in_window(*l, now),
            forall|j: int| 0 <= j < i ==> (#[trigger] l.territories@[j])@ != territory@,
        decreases l.territories.len() - i,
    {
        if str_is(l.territories[i].as_str(), territory) {
            assert((l.territories@[i as int])@ == territory@);
            return true;
        }
        i = i + 1;
    }
    false
}

/// Whether any of `ls` is active and in its window at `now`, wherever it applies.
pub open spec fn any_in_force(ls: Seq<LicenseWindow>, now: i64) -> bool {
    exists|i: int| 0 <= i < ls.len() && (#[trigger] ls[i]).active && in_window(ls[i], now)
}

/// Whether a film has a license in force at `now`, in any territory.
pub fn has_license_in_force(ls: &[LicenseWindow], now: i64) -> (b: bool)
    ensures
        b == any_in_force(ls@, now),
{
    let mut i: usize = 0;
    while i < ls.len()
        invariant
            i <= ls@.len(),
            forall|j: int| 0 <= j < i ==> !((#[trigger] ls@[j]).active && in_window(ls@[j], now)),
        decreases ls.len() - i,
    {
        if ls[i].active && window_holds(&ls[i], now) {
            return true;
        }
        i = i + 1;
    }
    false
}

/// A license available somewhere is in force: availability in one territory
/// implies the film has a license in force.
pub proof fn lemma_available_is_in_force(ls: Seq<LicenseWindow>, i: int, territory: Seq<char>, now: i64)
    requires
        0 <= i < ls.len(),
        available_spec(ls[i], territory, now),
    ensures
        any_in_force(ls, now),
{
    assert(ls[i].active && in_window(ls[i], now));
}

/// A license that lists no territories applies everywhere.
pub proof fn lemma_unrestricted_license(l: LicenseWindow, t1: Seq<char>, t2: Seq<char>, now: i64)
    requires
        l.territories@.len() == 0,
    ensures
        available_spec(l, t1, now) == available_spec(l, t2, now),
{
}

} // verus!
