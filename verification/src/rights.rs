//! The rights enforcement chain that every player, manifest and segment
//! request passes: the platform must be active, the film published and
//! carried by the platform, under an active license, free of active DMCA
//! claims, and, where every active license is a paid one, the viewer must
//! hold an entitlement.
//!
//! The chain alternates database lookups with decisions, so it is written as
//! a state machine: the caller performs the lookup that an action asks for
//! and feeds the answer back as the next event.
use crate::error::AppError;
use crate::text::{owned, str_is};
use vstd::prelude::*;

verus! {

/// A license as the entitlement decision sees it: its type and whether it is active.
#[derive(Debug, Clone)]
pub struct LicenseSummary {
    pub license_type: String,
    pub active: bool,
}

/// Where the enforcement chain stands.
#[derive(Debug, Clone, Copy, PartialEq, Eq, Structural)]
pub enum RightsStage {
    Start,
    AwaitPlatform,
    AwaitFilm,
    AwaitCarriage,
    AwaitLicense,
    AwaitClaim,
    AwaitLicenses,
    AwaitEntitlement,
    Granted,
    Refused,
}

/// The answer to the lookup the chain asked for.
#[derive(Debug, Clone)]
pub enum RightsEvent {
    /// The request arrives.
    Begin,
    /// Whether an active platform has the requested slug.
    Platform(bool),
    /// Whether a published film has the requested slug.
    Film(bool),
    /// Whether the platform carries the film.
    Carried(bool),
    /// Whether the film has an active, in-window license.
    AnyLicense(bool),
    /// Whether the film is subject to an active DMCA claim.
    ActiveClaim(bool),
    /// All licenses of the film.
    Licenses(Vec<LicenseSummary>),
    /// Whether the viewer holds an entitlement.
    Entitlement(bool),
}

/// Why a request is refused.
#[derive(Debug, Clone, Copy, PartialEq, Eq, Structural)]
pub enum Denial {
    NotFound,
    NotCarried,
    NoLicense,
    Claimed,
    PaymentRequired,
}

/// What the caller must do next.
#[derive(Debug, Clone)]
pub enum RightsAction {
    FindActivePlatform,
    FindPublishedFilm,
    CheckCarried,
    CheckAnyLicense,
    CheckActiveClaim,
    ListLicenses,
    /// Look up the viewer's entitlement for a license of this type.
    CheckEntitlement(String),
    /// Refuse the request; every refusal but `NotFound` is written to the access audit log.
    Deny(Denial),
    /// Serve the request.
    Allow,
}

/// Whether a license type is free to watch.
pub open spec fn is_free_type(t: Seq<char>) -> bool {
    t == "avod"@ || t == "cc"@ || t == "free"@
}

/// The types of the active licenses, in order.
pub open spec fn active_types(ls: Seq<LicenseSummary>) -> Seq<Seq<char>>
    decreases ls.len(),
{
    if ls.len() == 0 {
        Seq::empty()
    } else if ls.last().active {
        active_types(ls.drop_last()).push(ls.last().license_type@)
    } else {
        active_types(ls.drop_last())
    }
}

/// Whether watching needs an entitlement: there are active licenses and all of them are paid ones.
pub open spec fn needs_entitlement(ls: Seq<LicenseSummary>) -> bool {
    &&& active_types(ls).len() > 0
    &&& forall|i: int| 0 <= i < active_types(ls).len() ==> !is_free_type(#[trigger] active_types(ls)[i])
}

/// The license type the entitlement lookup is made for: the first active one, or `tvod`.
pub open spec fn entitlement_type(ls: Seq<LicenseSummary>) -> Seq<char> {
    if active_types(ls).len() > 0 {
        active_types(ls)[0]
    } else {
        "tvod"@
    }
}

/// What the caller is asked to do, as the contracts speak of it.
pub enum ActionView {
    FindActivePlatform,
    FindPublishedFilm,
    CheckCarried,
    CheckAnyLicense,
    CheckActiveClaim,
    ListLicenses,
    CheckEntitlement(Seq<char>),
    Deny(Denial),
    Allow,
}

pub open spec fn action_view(a: RightsAction) -> ActionView {
    match a {
        RightsAction::FindActivePlatform => ActionView::FindActivePlatform,
        RightsAction::FindPublishedFilm => ActionView::FindPublishedFilm,
        RightsAction::CheckCarried => ActionView::CheckCarried,
        RightsAction::CheckAnyLicense => ActionView::CheckAnyLicense,
        RightsAction::CheckActiveClaim => ActionView::CheckActiveClaim,
        RightsAction::ListLicenses => ActionView::ListLicenses,
        RightsAction::CheckEntitlement(t) => ActionView::CheckEntitlement(t@),
        RightsAction::Deny(d) => ActionView::Deny(d),
        RightsAction::Allow => ActionView::Allow,
    }
}

/// Whether `event` answers what the chain asked for at `stage`.
pub open spec fn accepts(stage: RightsStage, event: RightsEvent) -> bool {
    match (stage, event) {
        (RightsStage::Start, RightsEvent::Begin) => true,
        (RightsStage::AwaitPlatform, RightsEvent::Platform(_)) => true,
        (RightsStage::AwaitFilm, RightsEvent::Film(_)) => true,
        (RightsStage::AwaitCarriage, RightsEvent::Carried(_)) => true,
        (RightsStage::AwaitLicense, RightsEvent::AnyLicense(_)) => true,
        (RightsStage::AwaitClaim, RightsEvent::ActiveClaim(_)) => true,
        (RightsStage::AwaitLicenses, RightsEvent::Licenses(_)) => true,
        (RightsStage::AwaitEntitlement, RightsEvent::Entitlement(_)) => true,
        _ => false,
    }
}

/// The stage after `event`. A finished chain stays where it is; an answer
/// to a question that was not asked refuses the request.
pub open spec fn next_stage(stage: RightsStage, event: RightsEvent) -> RightsStage {
    if stage == RightsStage::Granted || stage == RightsStage::Refused {
        stage
    } else if !accepts(stage, event) {
        RightsStage::Refused
    } else {
        match event {
            RightsEvent::Begin => RightsStage::AwaitPlatform,
            RightsEvent::Platform(found) => if found { RightsStage::AwaitFilm } else { RightsStage::Refused },
            RightsEvent::Film(found) => if found { RightsStage::AwaitCarriage } else { RightsStage::Refused },
            RightsEvent::Carried(yes) => if yes { RightsStage::AwaitLicense } else { RightsStage::Refused },
            RightsEvent::AnyLicense(yes) => if yes { RightsStage::AwaitClaim } else { RightsStage::Refused },
            RightsEvent::ActiveClaim(claimed) => if claimed { RightsStage::Refused } else { RightsStage::AwaitLicenses },
            RightsEvent::Licenses(ls) => if needs_entitlement(ls@) {
                RightsStage::AwaitEntitlement
            } else {
                RightsStage::Granted
            },
            RightsEvent::Entitlement(held) => if held { RightsStage::Granted } else { RightsStage::Refused },
        }
    }
}

/// The action that goes with an accepted `event` at `stage`.
pub open spec fn next_action(stage: RightsStage, event: RightsEvent) -> ActionView {
    match event {
        RightsEvent::Begin => ActionView::FindActivePlatform,
        RightsEvent::Platform(found) => if found { ActionView::FindPublishedFilm } else { ActionView::Deny(Denial::NotFound) },
        RightsEvent::Film(found) => if found { ActionView::CheckCarried } else { ActionView::Deny(Denial::NotFound) },
        RightsEvent::Carried(yes) => if yes { ActionView::CheckAnyLicense } else { ActionView::Deny(Denial::NotCarried) },
        RightsEvent::AnyLicense(yes) => if yes { ActionView::CheckActiveClaim } else { ActionView::Deny(Denial::NoLicense) },
        RightsEvent::ActiveClaim(claimed) => if claimed { ActionView::Deny(Denial::Claimed) } else { ActionView::ListLicenses },
        RightsEvent::Licenses(ls) => if needs_entitlement(ls@) {
            ActionView::CheckEntitlement(entitlement_type(ls@))
        } else {
            ActionView::Allow
        },
        RightsEvent::Entitlement(held) => if held { ActionView::Allow } else { ActionView::Deny(Denial::PaymentRequired) },
    }
}

/// The stage after a sequence of events from the start.
pub open spec fn run(events: Seq<RightsEvent>) -> RightsStage
    decreases events.len(),
{
    if events.len() == 0 {
        RightsStage::Start
    } else {
        next_stage(run(events.drop_last()), events.last())
    }
}

} // verus!

verus! {

/// The types of the active licenses, in order.
pub fn active_license_types(ls: &[LicenseSummary]) -> (r: Vec<String>)
    ensures
        r@.len() == active_types(ls@).len(),
        forall|i: int| 0 <= i < r@.len() ==> #[trigger] r@[i]@ == active_types(ls@)[i],
{
    let mut r: Vec<String> = Vec::new();
    let mut k: usize = 0;
    while k < ls.len()
        invariant
            k <= ls@.len(),
            r@.len() == active_types(ls@.take(k as int)).len(),
            forall|i: int| 0 <= i < r@.len() ==> #[trigger] r@[i]@ == active_types(ls@.take(k as int))[i],
        decreases ls.len() - k,
    {
        assert(ls@.take(k + 1).drop_last() =~= ls@.take(k as int));
        if ls[k].active {
            r.push(owned(ls[k].license_type.as_str()));
        }
        k = k + 1;
    }
    assert(ls@.take(ls@.len() as int) =~= ls@);
    r
}

fn is_free_license_type(t: &String) -> (b: bool)
    ensures
        b == is_free_type(t@),
{
    str_is(t.as_str(), "avod") || str_is(t.as_str(), "cc") || str_is(t.as_str(), "free")
}

/// Whether the viewer needs an entitlement, and for which license type.
pub fn entitlement_needed(ls: &[LicenseSummary]) -> (r: Option<String>)
    ensures
        r is Some <==> needs_entitlement(ls@),
        r matches Some(t) ==> t@ == entitlement_type(ls@),
{
    let types = active_license_types(ls);
    let ghost ts = active_types(ls@);
    if types.len() == 0 {
        return None;
    }
    let mut k: usize = 0;
    while k < types.len()
        invariant
            ts == active_types(ls@),
            types@.len() == ts.len(),
            forall|i: int| 0 <= i < types@.len() ==> #[trigger] types@[i]@ == ts[i],
            k <= ts.len(),
            forall|i: int| 0 <= i < k ==> !is_free_type(#[trigger] ts[i]),
        decreases types.len() - k,
    {
        if is_free_license_type(&types[k]) {
            assert(!needs_entitlement(ls@)) by {
                assert(0 <= k < active_types(ls@).len());
                assert(is_free_type(active_types(ls@)[k as int]));
            }
            return None;
        }
        k = k + 1;
    }
    Some(owned(types[0].as_str()))
}

/// Whether `event` answers what the chain asked for at `stage`.
pub fn accepts_event(stage: RightsStage, event: &RightsEvent) -> (b: bool)
    ensures
        b == accepts(stage, *event),
{
    match (stage, event) {
        (RightsStage::Start, RightsEvent::Begin) => true,
        (RightsStage::AwaitPlatform, RightsEvent::Platform(_)) => true,
        (RightsStage::AwaitFilm, RightsEvent::Film(_)) => true,
        (RightsStage::AwaitCarriage, RightsEvent::Carried(_)) => true,
        (RightsStage::AwaitLicense, RightsEvent::AnyLicense(_)) => true,
        (RightsStage::AwaitClaim, RightsEvent::ActiveClaim(_)) => true,
        (RightsStage::AwaitLicenses, RightsEvent::Licenses(_)) => true,
        (RightsStage::AwaitEntitlement, RightsEvent::Entitlement(_)) => true,
        _ => false,
    }
}

/// Advances the enforcement chain by the answer to its last question.
pub fn step(stage: RightsStage, event: &RightsEvent) -> (r: (RightsStage, RightsAction))
    requires
        accepts(stage, *event),
    ensures
        r.0 == next_stage(stage, *event),
        action_view(r.1) == next_action(stage, *event),
{
    match event {
        RightsEvent::Begin => (RightsStage::AwaitPlatform, RightsAction::FindActivePlatform),
        RightsEvent::Platform(found) => if *found {
            (RightsStage::AwaitFilm, RightsAction::FindPublishedFilm)
        } else {
            (RightsStage::Refused, RightsAction::Deny(Denial::NotFound))
        },
        RightsEvent::Film(found) => if *found {
            (RightsStage::AwaitCarriage, RightsAction::CheckCarried)
        } else {
            (RightsStage::Refused, RightsAction::Deny(Denial::NotFound))
        },
        RightsEvent::Carried(yes) => if *yes {
            (RightsStage::AwaitLicense, RightsAction::CheckAnyLicense)
        } else {
            (RightsStage::Refused, RightsAction::Deny(Denial::NotCarried))
        },
        RightsEvent::AnyLicense(yes) => if *yes {
            (RightsStage::AwaitClaim, RightsAction::CheckActiveClaim)
        } else {
            (RightsStage::Refused, RightsAction::Deny(Denial::NoLicense))
        },
        RightsEvent::ActiveClaim(claimed) => if *claimed {
            (RightsStage::Refused, RightsAction::Deny(Denial::Claimed))
        } else {
            (RightsStage::AwaitLicenses, RightsAction::ListLicenses)
        },
        RightsEvent::Licenses(ls) => match entitlement_needed(ls.as_slice()) {
            Some(t) => (RightsStage::AwaitEntitlement, RightsAction::CheckEntitlement(t)),
            None => (RightsStage::Granted, RightsAction::Allow),
        },
        RightsEvent::Entitlement(held) => if *held {
            (RightsStage::Granted, RightsAction::Allow)
        } else {
            (RightsStage::Refused, RightsAction::Deny(Denial::PaymentRequired))
        },
    }
}

impl Denial {
    /// The reason written to the access audit log; a missing platform or film is not logged.
    pub open spec fn audit_spec(self) -> Option<Seq<char>> {
        match self {
            Denial::NotFound => None,
            Denial::NotCarried => Some("Platform does not carry this film"@),
            Denial::NoLicense => Some("No active license"@),
            Denial::Claimed => Some("Active DMCA claim"@),
            Denial::PaymentRequired => Some("No entitlement (payment required)"@),
        }
    }

    pub fn audit_reason(&self) -> (r: Option<String>)
        ensures
            match r {
                None => self.audit_spec() is None,
                Some(s) => self.audit_spec() == Some(s@),
            },
    {
        match self {
            Denial::NotFound => None,
            Denial::NotCarried => Some(owned("Platform does not carry this film")),
            Denial::NoLicense => Some(owned("No active license")),
            Denial::Claimed => Some(owned("Active DMCA claim")),
            Denial::PaymentRequired => Some(owned("No entitlement (payment required)")),
        }
    }

    /// The message a licensing refusal carries.
    pub open spec fn message_spec(self) -> Seq<char> {
        match self {
            Denial::NotFound => Seq::empty(),
            Denial::NotCarried => "This film is not available on this platform."@,
            Denial::NoLicense => "No active license for this film."@,
            Denial::Claimed => "This film is currently subject to a copyright claim."@,
            Denial::PaymentRequired => "Payment required to access this content."@,
        }
    }

    /// The error the request is answered with: not found for a missing
    /// platform or film, a license violation with its message otherwise.
    pub fn to_error(&self) -> (r: AppError)
        ensures
            *self == Denial::NotFound ==> r == AppError::NotFound,
            *self != Denial::NotFound ==> (r matches AppError::LicenseViolation(m) && m@ == self.message_spec()),
    {
        match self {
            Denial::NotFound => AppError::NotFound,
            Denial::NotCarried => AppError::LicenseViolation(owned("This film is not available on this platform.")),
            Denial::NoLicense => AppError::LicenseViolation(owned("No active license for this film.")),
            Denial::Claimed => AppError::LicenseViolation(owned("This film is currently subject to a copyright claim.")),
            Denial::PaymentRequired => AppError::LicenseViolation(owned("Payment required to access this content.")),
        }
    }
}

/// What the events up to a stage must have been.
pub open spec fn history(stage: RightsStage, e: Seq<RightsEvent>) -> bool {
    let p0 = e.len() >= 1 && e[0] == RightsEvent::Begin;
    let p1 = p0 && e.len() >= 2 && e[1] == RightsEvent::Platform(true);
    let p2 = p1 && e.len() >= 3 && e[2] == RightsEvent::Film(true);
    let p3 = p2 && e.len() >= 4 && e[3] == RightsEvent::Carried(true);
    let p4 = p3 && e.len() >= 5 && e[4] == RightsEvent::AnyLicense(true);
    let p5 = p4 && e.len() >= 6 && e[5] == RightsEvent::ActiveClaim(false);
    let p6 = p5 && e.len() >= 7 && e[6] is Licenses;
    match stage {
        RightsStage::Start => e.len() == 0,
        RightsStage::AwaitPlatform => e.len() == 1 && p0,
        RightsStage::AwaitFilm => e.len() == 2 && p1,
        RightsStage::AwaitCarriage => e.len() == 3 && p2,
        RightsStage::AwaitLicense => e.len() == 4 && p3,
        RightsStage::AwaitClaim => e.len() == 5 && p4,
        RightsStage::AwaitLicenses => e.len() == 6 && p5,
        RightsStage::AwaitEntitlement => e.len() == 7 && p6 && needs_entitlement(e[6]->Licenses_0@),
        RightsStage::Granted => p6 && (needs_entitlement(e[6]->Licenses_0@) ==> e.len() >= 8
            && e[7] == RightsEvent::Entitlement(true)),
        RightsStage::Refused => true,
    }
}

proof fn lemma_history(e: Seq<RightsEvent>)
    ensures
        history(run(e), e),
    decreases e.len(),
{
    if e.len() > 0 {
        let p = e.drop_last();
        lemma_history(p);
        assert forall|i: int| 0 <= i < p.len() implies e[i] == p[i] by {}
    }
}

/// A request is served only after every check of the chain passed: an
/// active platform and a published film were found, the platform carries
/// the film, the film has an active license and no active claim, and where
/// all its active licenses are paid ones the viewer holds an entitlement.
pub proof fn lemma_granted_after_all_checks(e: Seq<RightsEvent>)
    requires
        run(e) == RightsStage::Granted,
    ensures
        e.len() >= 7,
        e[0] == RightsEvent::Begin,
        e[1] == RightsEvent::Platform(true),
        e[2] == RightsEvent::Film(true),
        e[3] == RightsEvent::Carried(true),
        e[4] == RightsEvent::AnyLicense(true),
        e[5] == RightsEvent::ActiveClaim(false),
        e[6] is Licenses,
        needs_entitlement(e[6]->Licenses_0@) ==> e.len() >= 8 && e[7] == RightsEvent::Entitlement(true),
{
    lemma_history(e);
}

/// A refused request stays refused, whatever answers follow.
pub proof fn lemma_refusal_is_final(e: Seq<RightsEvent>, more: Seq<RightsEvent>)
    requires
        run(e) == RightsStage::Refused,
    ensures
        run(e + more) == RightsStage::Refused,
    decreases more.len(),
{
    if more.len() > 0 {
        lemma_refusal_is_final(e, more.drop_last());
        assert((e + more).drop_last() =~= e + more.drop_last());
    } else {
        assert(e + more =~= e);
    }
}

} // verus!

verus! {

/// Every active license's type is among the active types.
proof fn lemma_active_types_cover(ls: Seq<LicenseSummary>, i: int)
    requires
        0 <= i < ls.len(),
        ls[i].active,
    ensures
        exists|k: int| 0 <= k < active_types(ls).len() && active_types(ls)[k] == ls[i].license_type@,
    decreases ls.len(),
{
    let init = ls.drop_last();
    let a = active_types(ls);
    let b = active_types(init);
    if i < init.len() {
        assert(init[i] == ls[i]);
        lemma_active_types_cover(init, i);
        let k = choose|k: int| 0 <= k < b.len() && b[k] == init[i].license_type@;
        if ls.last().active {
            assert(a == b.push(ls.last().license_type@));
        } else {
            assert(a == b);
        }
        assert(a[k] == b[k]);
    } else {
        assert(a == b.push(ls.last().license_type@));
        assert(a[a.len() - 1] == ls[i].license_type@);
    }
}

/// Every active type is the type of some active license.
proof fn lemma_active_types_from(ls: Seq<LicenseSummary>, k: int)
    requires
        0 <= k < active_types(ls).len(),
    ensures
        exists|i: int| 0 <= i < ls.len() && ls[i].active && ls[i].license_type@ == active_types(ls)[k],
    decreases ls.len(),
{
    let init = ls.drop_last();
    let a = active_types(ls);
    let b = active_types(init);
    if ls.last().active {
        assert(a == b.push(ls.last().license_type@));
    } else {
        assert(a == b);
    }
    if k < b.len() {
        lemma_active_types_from(init, k);
        let i = choose|i: int| 0 <= i < init.len() && init[i].active && init[i].license_type@ == b[k];
        assert(ls[i] == init[i]);
        assert(0 <= i < ls.len() && ls[i].active && ls[i].license_type@ == a[k]);
    } else {
        let i = ls.len() - 1;
        assert(0 <= i < ls.len() && ls[i].active && ls[i].license_type@ == a[k]);
    }
}

/// A film with an active license of type `avod`, `cc` or `free` is free to
/// watch: once its licenses are listed, the chain grants access without
/// asking for an entitlement, whatever the other licenses are.
pub proof fn lemma_free_license_grants(e: RightsEvent, i: int)
    requires
        e matches RightsEvent::Licenses(v) && 0 <= i < v@.len() && v@[i].active && (v@[i].license_type@
            == "avod"@ || v@[i].license_type@ == "cc"@ || v@[i].license_type@ == "free"@),
    ensures
        next_stage(RightsStage::AwaitLicenses, e) == RightsStage::Granted,
        next_action(RightsStage::AwaitLicenses, e) == ActionView::Allow,
{
    let ls = e->Licenses_0@;
    lemma_active_types_cover(ls, i);
    let k = choose|k: int| 0 <= k < active_types(ls).len() && active_types(ls)[k] == ls[i].license_type@;
    assert(!needs_entitlement(ls));
}

/// A film whose active licenses are all of other types than `avod`, `cc`
/// and `free`, and which has at least one, needs an entitlement: once its
/// licenses are listed, the chain asks for one, for the type of the first
/// active license.
pub proof fn lemma_paid_licenses_ask(e: RightsEvent, i: int)
    requires
        e matches RightsEvent::Licenses(v) && 0 <= i < v@.len() && v@[i].active && forall|j: int|
            0 <= j < v@.len() && (#[trigger] v@[j]).active ==> v@[j].license_type@ != "avod"@
                && v@[j].license_type@ != "cc"@ && v@[j].license_type@ != "free"@,
    ensures
        next_stage(RightsStage::AwaitLicenses, e) == RightsStage::AwaitEntitlement,
        next_action(RightsStage::AwaitLicenses, e) == ActionView::CheckEntitlement(
            active_types(e->Licenses_0@)[0],
        ),
        exists|j: int|
            0 <= j < e->Licenses_0@.len() && e->Licenses_0@[j].active && e->Licenses_0@[j].license_type@
                == active_types(e->Licenses_0@)[0],
{
    let ls = e->Licenses_0@;
    lemma_active_types_cover(ls, i);
    let k0 = choose|k: int| 0 <= k < active_types(ls).len() && active_types(ls)[k] == ls[i].license_type@;
    assert forall|k: int| 0 <= k < active_types(ls).len() implies !is_free_type(
        #[trigger] active_types(ls)[k],
    ) by {
        lemma_active_types_from(ls, k);
        let j = choose|j: int| 0 <= j < ls.len() && ls[j].active && ls[j].license_type@ == active_types(ls)[k];
        assert(ls[j].active);
    }
    assert(needs_entitlement(ls));
    lemma_active_types_from(ls, 0);
}

} // verus!
