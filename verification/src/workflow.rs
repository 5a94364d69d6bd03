//! The life cycles of the platform's records and the checks that guard them:
//! film and event statuses, acquisition requests, DMCA claims, ratings and
//! event attendance.
use crate::error::{is_validation, validation, AppError};
use crate::text::{chars_of, push_str, str_is, string_of};
use vstd::prelude::*;

verus! {

/// The message of a refused status change.
pub open spec fn transition_message(from: Seq<char>, to: Seq<char>) -> Seq<char> {
    "Cannot transition from '"@ + from + "' to '"@ + to + "'."@
}

fn transition_error(from: &str, to: &str) -> (e: AppError)
    ensures
        is_validation(e, transition_message(from@, to@)),
{
    let mut m = chars_of("Cannot transition from '");
    push_str(&mut m, from);
    push_str(&mut m, "' to '");
    push_str(&mut m, to);
    push_str(&mut m, "'.");
    AppError::Validation(string_of(m.as_slice()))
}

/// The status changes a film may make: a draft is submitted, and a
/// submitted film is published or rejected.
pub open spec fn film_step(from: Seq<char>, to: Seq<char>) -> bool {
    ||| from == "draft"@ && to == "submitted"@
    ||| from == "submitted"@ && to == "published"@
    ||| from == "submitted"@ && to == "rejected"@
}

/// Checks that a film may go from status `from` to status `to`.
pub fn film_status_transition(from: &str, to: &str) -> (r: Result<(), AppError>)
    ensures
        r is Ok <==> film_step(from@, to@),
        r matches Err(e) ==> is_validation(e, transition_message(from@, to@)),
{
    let valid = (str_is(from, "draft") && str_is(to, "submitted")) || (str_is(from, "submitted")
        && str_is(to, "published")) || (str_is(from, "submitted") && str_is(to, "rejected"));
    if valid {
        Ok(())
    } else {
        Err(transition_error(from, to))
    }
}

/// The status changes an event may make: an upcoming event goes live or is
/// canceled, and a live event ends.
pub open spec fn event_step(from: Seq<char>, to: Seq<char>) -> bool {
    ||| from == "upcoming"@ && to == "live"@
    ||| from == "live"@ && to == "ended"@
    ||| from == "upcoming"@ && to == "canceled"@
}

/// Checks that an event may go from status `from` to status `to`.
pub fn event_status_transition(from: &str, to: &str) -> (r: Result<(), AppError>)
    ensures
        r is Ok <==> event_step(from@, to@),
        r matches Err(e) ==> is_validation(e, transition_message(from@, to@)),
{
    let valid = (str_is(from, "upcoming") && str_is(to, "live")) || (str_is(from, "live")
        && str_is(to, "ended")) || (str_is(from, "upcoming") && str_is(to, "canceled"));
    if valid {
        Ok(())
    } else {
        Err(transition_error(from, to))
    }
}

proof fn lemma_status_names()
    ensures
        "draft"@ != "submitted"@,
        "draft"@ != "published"@,
        "draft"@ != "rejected"@,
        "submitted"@ != "published"@,
        "submitted"@ != "rejected"@,
        "published"@ != "rejected"@,
        "upcoming"@ != "live"@,
        "upcoming"@ != "ended"@,
        "upcoming"@ != "canceled"@,
        "live"@ != "ended"@,
        "live"@ != "canceled"@,
        "ended"@ != "canceled"@,
{
    reveal_strlit("draft");
    reveal_strlit("submitted");
    reveal_strlit("published");
    reveal_strlit("rejected");
    reveal_strlit("upcoming");
    reveal_strlit("live");
    reveal_strlit("ended");
    reveal_strlit("canceled");
    assert("draft"@[0] != "submitted"@[0]);
    assert("draft"@[0] != "published"@[0]);
    assert("draft"@[0] != "rejected"@[0]);
    assert("submitted"@[0] != "published"@[0]);
    assert("submitted"@[0] != "rejected"@[0]);
    assert("published"@[0] != "rejected"@[0]);
    assert("upcoming"@[0] != "live"@[0]);
    assert("upcoming"@[0] != "ended"@[0]);
    assert("upcoming"@[0] != "canceled"@[0]);
    assert("live"@[0] != "ended"@[0]);
    assert("live"@[0] != "canceled"@[0]);
    assert("ended"@[0] != "canceled"@[0]);
}

/// A film's status only moves forward: no change leads back to a draft or
/// stays where it is, published and rejected films admit no further change,
/// and a submitted film is the only one that can be published or rejected.
pub proof fn lemma_film_status_forward(from: Seq<char>, to: Seq<char>)
    ensures
        film_step(from, to) ==> to != "draft"@,
        film_step(from, to) ==> from != to,
        from == "published"@ ==> !film_step(from, to),
        from == "rejected"@ ==> !film_step(from, to),
        film_step(from, "published"@) ==> from == "submitted"@,
        film_step(from, "rejected"@) ==> from == "submitted"@,
        film_step("draft"@, "submitted"@),
        film_step("submitted"@, "published"@),
        film_step("submitted"@, "rejected"@),
{
    lemma_status_names();
}

/// An event's changes never return: no change leads back to "upcoming", and
/// an ended or canceled event admits no further change.
pub proof fn lemma_event_status_final(from: Seq<char>, to: Seq<char>)
    ensures
        event_step(from, to) ==> to != "upcoming"@,
        event_step(from, to) ==> from != to,
        from == "ended"@ ==> !event_step(from, to),
        from == "canceled"@ ==> !event_step(from, to),
{
    lemma_status_names();
}

/// What the acquisition check reads of a license.
#[derive(Debug, Clone, Copy, PartialEq, Eq, Structural)]
pub struct LicenseState {
    pub active: bool,
    pub approval_required: bool,
}

/// The outcome of a curator's acquisition request, as the status shown:
/// unpublished films and missing licenses are not found, inactive licenses
/// refused, a repeated request answered as such, and a new request approved
/// at once unless the license asks for approval. An error is `None` for
/// "not found" and otherwise the validation message.
pub open spec fn acquisition_spec(
    film_status: Seq<char>,
    license: Option<LicenseState>,
    already_requested: bool,
) -> Result<Seq<char>, Option<Seq<char>>> {
    if film_status != "published"@ {
        Err(None)
    } else {
        match license {
            None => Err(None),
            Some(l) => if !l.active {
                Err(Some("This license is no longer active."@))
            } else if already_requested {
                Ok("already_requested"@)
            } else if l.approval_required {
                Ok("pending"@)
            } else {
                Ok("approved"@)
            },
        }
    }
}

/// Decides a curator's acquisition request for a film with status
/// `film_status`, the license asked for, and whether the curator already
/// has a pending or approved request for it.
pub fn acquisition_outcome(
    film_status: &str,
    license: Option<LicenseState>,
    already_requested: bool,
) -> (r: Result<String, AppError>)
    ensures
        match acquisition_spec(film_status@, license, already_requested) {
            Ok(t) => r matches Ok(s) && s@ == t,
            Err(None) => r matches Err(AppError::NotFound),
            Err(Some(m)) => r matches Err(e) && is_validation(e, m),
        },
{
    if !str_is(film_status, "published") {
        return Err(AppError::NotFound);
    }
    match license {
        None => Err(AppError::NotFound),
        Some(l) => if !l.active {
            Err(validation("This license is no longer active."))
        } else if already_requested {
            Ok(string_of(chars_of("already_requested").as_slice()))
        } else if l.approval_required {
            Ok(string_of(chars_of("pending").as_slice()))
        } else {
            Ok(string_of(chars_of("approved").as_slice()))
        },
    }
}

/// A new request is approved at once exactly when its license does not ask
/// for approval; otherwise it waits as pending.
pub proof fn lemma_auto_approval(l: LicenseState)
    requires
        l.active,
    ensures
        acquisition_spec("published"@, Some(l), false) == Ok::<Seq<char>, Option<Seq<char>>>(
            if l.approval_required {
                "pending"@
            } else {
                "approved"@
            },
        ),
{
}

/// The status a request takes when the filmmaker resolves it: only a pending
/// request changes, to approved or rejected.
pub open spec fn resolution_spec(current: Seq<char>, approve: bool) -> Option<Seq<char>> {
    if current == "pending"@ {
        Some(if approve { "approved"@ } else { "rejected"@ })
    } else {
        None
    }
}

/// The new status of an acquisition request with status `current` that the
/// filmmaker approves or rejects; `None` where the request is not pending.
pub fn resolve_request(current: &str, approve: bool) -> (r: Option<String>)
    ensures
        match r {
            Some(s) => resolution_spec(current@, approve) == Some(s@),
            None => resolution_spec(current@, approve) is None,
        },
{
    if str_is(current, "pending") {
        Some(string_of(chars_of(if approve { "approved" } else { "rejected" }).as_slice()))
    } else {
        None
    }
}

/// A resolved request stays resolved: resolving it again changes nothing.
pub proof fn lemma_resolution_final(current: Seq<char>, first: bool, second: bool)
    requires
        resolution_spec(current, first) is Some,
    ensures
        resolution_spec(resolution_spec(current, first)->0, second) is None,
{
    reveal_strlit("pending");
    reveal_strlit("approved");
    reveal_strlit("rejected");
    assert("pending"@[0] != "approved"@[0]);
    assert("pending"@[0] != "rejected"@[0]);
}

/// What an administrator's review of a DMCA claim does: the status it sets,
/// and whether it stamps the review time and the resolution time.
#[derive(Debug, Clone)]
pub struct ClaimReview {
    pub status: String,
    pub reviewed: bool,
    pub resolved: bool,
}

/// The review an action word stands for: `uphold` upholds the claim,
/// `reject` rejects and closes it; any other word is refused, since a claim
/// has no other status that a review can give it.
pub open spec fn review_spec(action: Seq<char>) -> Option<(Seq<char>, bool, bool)> {
    if action == "uphold"@ {
        Some(("upheld"@, true, false))
    } else if action == "reject"@ {
        Some(("rejected"@, true, true))
    } else {
        None
    }
}

/// The review that the administrator's `action` asks for.
pub fn review_claim_action(action: &str) -> (r: Result<ClaimReview, AppError>)
    ensures
        match r {
            Ok(c) => review_spec(action@) == Some((c.status@, c.reviewed, c.resolved)),
            Err(e) => review_spec(action@) is None && is_validation(e, "Invalid action."@),
        },
{
    if str_is(action, "uphold") {
        Ok(ClaimReview { status: string_of(chars_of("upheld").as_slice()), reviewed: true, resolved: false })
    } else if str_is(action, "reject") {
        Ok(ClaimReview { status: string_of(chars_of("rejected").as_slice()), reviewed: true, resolved: true })
    } else {
        Err(validation("Invalid action."))
    }
}

/// The statuses a DMCA claim can have.
pub open spec fn claim_status(status: Seq<char>) -> bool {
    ||| status == "filed"@
    ||| status == "under_review"@
    ||| status == "upheld"@
    ||| status == "rejected"@
    ||| status == "counter_filed"@
}

/// Every review that an action word is accepted for gives the claim one of
/// its statuses, and one that ends the review: upheld or rejected.
pub proof fn lemma_review_status(action: Seq<char>)
    ensures
        review_spec(action) matches Some((s, _, _)) ==> claim_status(s) && (s == "upheld"@ || s
            == "rejected"@),
{
}

/// The claim statuses against which a filmmaker may file a counter-notification.
pub open spec fn counterable(status: Seq<char>) -> bool {
    status == "filed"@ || status == "under_review"@ || status == "upheld"@
}

/// Whether a claim with status `status` takes a counter-notification.
pub fn accepts_counter_claim(status: &str) -> (b: bool)
    ensures
        b == counterable(status@),
{
    str_is(status, "filed") || str_is(status, "under_review") || str_is(status, "upheld")
}

/// The rating scores a viewer may give.
pub open spec fn valid_score(score: i64) -> bool {
    1 <= score <= 5
}

/// Checks a rating submission: the score lies in 1 to 5, and the viewer has
/// watched the film on the platform.
pub fn check_rating(score: i64, has_watched: bool) -> (r: Result<(), AppError>)
    ensures
        r is Ok <==> valid_score(score) && has_watched,
        r matches Err(e) ==> (if !valid_score(score) {
            is_validation(e, "Score must be between 1 and 5."@)
        } else {
            is_validation(e, "You must watch this film before rating it."@)
        }),
{
    if !(1 <= score && score <= 5) {
        return Err(validation("Score must be between 1 and 5."));
    }
    if !has_watched {
        return Err(validation("You must watch this film before rating it."));
    }
    Ok(())
}

/// Why a viewer cannot join an event, if they cannot: it must be upcoming or
/// live, have room where it has a cap, and not already count them.
pub open spec fn admission_spec(
    status: Seq<char>,
    max_attendees: Option<i64>,
    attendee_count: i64,
    already_attending: bool,
) -> Option<Seq<char>> {
    if status != "upcoming"@ && status != "live"@ {
        Some("This event is no longer accepting attendees."@)
    } else if max_attendees matches Some(max) && attendee_count >= max {
        Some("This event is sold out."@)
    } else if already_attending {
        Some("You are already registered for this event."@)
    } else {
        None
    }
}

/// Checks that a viewer may register for an event with status `status`, an
/// optional cap, `attendee_count` attendees so far, and whether the viewer
/// is already registered.
pub fn check_admission(
    status: &str,
    max_attendees: Option<i64>,
    attendee_count: i64,
    already_attending: bool,
) -> (r: Result<(), AppError>)
    ensures
        match admission_spec(status@, max_attendees, attendee_count, already_attending) {
            None => r is Ok,
            Some(m) => r matches Err(e) && is_validation(e, m),
        },
{
    if !str_is(status, "upcoming") && !str_is(status, "live") {
        return Err(validation("This event is no longer accepting attendees."));
    }
    match max_attendees {
        Some(max) => {
            if attendee_count >= max {
                return Err(validation("This event is sold out."));
            }
        },
        None => {},
    }
    if already_attending {
        return Err(validation("You are already registered for this event."));
    }
    Ok(())
}

/// A capped event never admits more viewers than its cap: where the check
/// passes, the new attendee still fits.
pub proof fn lemma_admission_respects_cap(
    status: Seq<char>,
    max: i64,
    attendee_count: i64,
    already_attending: bool,
)
    requires
        admission_spec(status, Some(max), attendee_count, already_attending) is None,
    ensures
        attendee_count + 1 <= max,
{
}

/// Public pages show published films only; any other is not found.
pub fn require_published(status: &str) -> (r: Result<(), AppError>)
    ensures
        r is Ok <==> status@ == "published"@,
        r matches Err(e) ==> e is NotFound,
{
    if str_is(status, "published") {
        Ok(())
    } else {
        Err(AppError::NotFound)
    }
}

/// The event form.
#[derive(Debug, Clone)]
pub struct EventForm {
    pub title: String,
    pub description: Option<String>,
    pub event_type: String,
    pub film_id: String,
    pub start_time: String,
    pub end_time: Option<String>,
    pub max_attendees: Option<String>,
    pub ticket_price: Option<String>,
}

/// The fields of an event form besides its times and its price.
#[derive(Debug, Clone)]
pub struct EventDetails {
    pub title: String,
    pub description: Option<String>,
    pub event_type: String,
    pub film_id: String,
    pub max_attendees: Option<i64>,
    pub status: String,
}

/// Reads an event form; a blank title is refused. A new event is upcoming.
pub fn prepare_event(form: &EventForm) -> (r: Result<EventDetails, String>)
    ensures
        crate::text::trim(form.title@).len() == 0 ==> (r matches Err(e) && e@ == "Title is required."@),
        crate::text::trim(form.title@).len() > 0 ==> (r matches Ok(d) && d.title@ == crate::text::trim(
            form.title@,
        ) && (d.description is Some <==> crate::forms::has_content(form.description))
            && (d.description matches Some(s) ==> s@ == crate::forms::field_text(form.description))
            && d.event_type@ == form.event_type@ && d.film_id@ == form.film_id@ && d.max_attendees
            == crate::forms::field_number(form.max_attendees) && d.status@ == "upcoming"@),
{
    let title = string_of(crate::text::trim_chars(chars_of(form.title.as_str()).as_slice()).as_slice());
    if chars_of(title.as_str()).len() == 0 {
        return Err(string_of(chars_of("Title is required.").as_slice()));
    }
    Ok(EventDetails {
        title,
        description: crate::forms::non_blank(&form.description),
        event_type: form.event_type.clone(),
        film_id: form.film_id.clone(),
        max_attendees: crate::forms::parse_i64(&form.max_attendees),
        status: string_of(chars_of("upcoming").as_slice()),
    })
}

/// The form of a curator's acquisition request.
#[derive(Debug, Clone)]
pub struct AcquireForm {
    pub license_id: String,
}

/// The rating form.
#[derive(Debug, Clone)]
pub struct RatingForm {
    pub score: i64,
    pub review_text: Option<String>,
}

/// Reads a rating: the score checked as `check_rating` does, and the review
/// kept where it holds something besides whitespace.
pub fn prepare_rating(form: &RatingForm, has_watched: bool) -> (r: Result<(i64, Option<String>), AppError>)
    ensures
        r is Ok <==> valid_score(form.score) && has_watched,
        r matches Err(e) ==> (if !valid_score(form.score) {
            is_validation(e, "Score must be between 1 and 5."@)
        } else {
            is_validation(e, "You must watch this film before rating it."@)
        }),
        r matches Ok(v) ==> v.0 == form.score && (v.1 is Some <==> crate::forms::has_content(form.review_text))
            && (v.1 matches Some(t) ==> t@ == crate::forms::field_text(form.review_text)),
{
    match check_rating(form.score, has_watched) {
        Err(e) => Err(e),
        Ok(()) => Ok((form.score, crate::forms::non_blank(&form.review_text))),
    }
}

} // verus!
