use pavilion::error::AppError;
use pavilion::workflow::{
    accepts_counter_claim, acquisition_outcome, check_admission, check_rating,
    event_status_transition, film_status_transition, prepare_event, require_published,
    resolve_request, review_claim_action, EventForm, LicenseState,
};

fn validation(e: AppError) -> String {
    match e {
        AppError::Validation(m) => m,
        other => panic!("expected a validation error, got {other:?}"),
    }
}

#[test]
fn film_statuses_move_forward() {
    assert!(film_status_transition("draft", "submitted").is_ok());
    assert!(film_status_transition("submitted", "published").is_ok());
    assert!(film_status_transition("submitted", "rejected").is_ok());
    assert_eq!(
        validation(film_status_transition("draft", "published").unwrap_err()),
        "Cannot transition from 'draft' to 'published'."
    );
    assert!(film_status_transition("published", "draft").is_err());
    assert!(film_status_transition("rejected", "submitted").is_err());
    assert!(film_status_transition("published", "published").is_err());
}

#[test]
fn event_statuses_only_move_forward() {
    assert!(event_status_transition("upcoming", "live").is_ok());
    assert!(event_status_transition("live", "ended").is_ok());
    assert!(event_status_transition("upcoming", "canceled").is_ok());
    assert_eq!(
        validation(event_status_transition("ended", "live").unwrap_err()),
        "Cannot transition from 'ended' to 'live'."
    );
    assert!(event_status_transition("live", "upcoming").is_err());
}

#[test]
fn acquisition_requests() {
    let open = LicenseState { active: true, approval_required: false };
    let gated = LicenseState { active: true, approval_required: true };
    let inactive = LicenseState { active: false, approval_required: false };
    assert_eq!(acquisition_outcome("published", Some(open), false).unwrap(), "approved");
    assert_eq!(acquisition_outcome("published", Some(gated), false).unwrap(), "pending");
    assert_eq!(acquisition_outcome("published", Some(gated), true).unwrap(), "already_requested");
    assert!(matches!(acquisition_outcome("draft", Some(open), false), Err(AppError::NotFound)));
    assert!(matches!(acquisition_outcome("published", None, false), Err(AppError::NotFound)));
    assert_eq!(
        validation(acquisition_outcome("published", Some(inactive), false).unwrap_err()),
        "This license is no longer active."
    );
}

#[test]
fn only_pending_requests_are_resolved() {
    assert_eq!(resolve_request("pending", true).as_deref(), Some("approved"));
    assert_eq!(resolve_request("pending", false).as_deref(), Some("rejected"));
    assert_eq!(resolve_request("approved", false), None);
    assert_eq!(resolve_request("rejected", true), None);
}

#[test]
fn claim_reviews() {
    let u = review_claim_action("uphold").unwrap();
    assert_eq!((u.status.as_str(), u.reviewed, u.resolved), ("upheld", true, false));
    let r = review_claim_action("reject").unwrap();
    assert_eq!((r.status.as_str(), r.reviewed, r.resolved), ("rejected", true, true));
    assert_eq!(validation(review_claim_action("resolve").unwrap_err()), "Invalid action.");
    assert_eq!(validation(review_claim_action("delete").unwrap_err()), "Invalid action.");
    assert!(accepts_counter_claim("filed"));
    assert!(accepts_counter_claim("under_review"));
    assert!(accepts_counter_claim("upheld"));
    assert!(!accepts_counter_claim("resolved"));
}

#[test]
fn ratings_need_a_valid_score_and_a_viewing() {
    assert!(check_rating(1, true).is_ok());
    assert!(check_rating(5, true).is_ok());
    assert_eq!(validation(check_rating(0, true).unwrap_err()), "Score must be between 1 and 5.");
    assert_eq!(validation(check_rating(6, false).unwrap_err()), "Score must be between 1 and 5.");
    assert_eq!(
        validation(check_rating(3, false).unwrap_err()),
        "You must watch this film before rating it."
    );
}

#[test]
fn event_admission() {
    assert!(check_admission("upcoming", Some(10), 9, false).is_ok());
    assert!(check_admission("live", None, 1000, false).is_ok());
    assert_eq!(
        validation(check_admission("ended", None, 0, false).unwrap_err()),
        "This event is no longer accepting attendees."
    );
    assert_eq!(validation(check_admission("upcoming", Some(10), 10, false).unwrap_err()), "This event is sold out.");
    assert_eq!(
        validation(check_admission("live", Some(10), 3, true).unwrap_err()),
        "You are already registered for this event."
    );
}

#[test]
fn published_films_only() {
    assert!(require_published("published").is_ok());
    assert!(matches!(require_published("draft"), Err(AppError::NotFound)));
}

#[test]
fn event_form() {
    let mut f = EventForm {
        title: "  Premiere ".to_string(),
        description: Some("  ".to_string()),
        event_type: "screening".to_string(),
        film_id: "f1".to_string(),
        start_time: "2030-01-01T20:00".to_string(),
        end_time: None,
        max_attendees: Some("120".to_string()),
        ticket_price: None,
    };
    let d = prepare_event(&f).unwrap();
    assert_eq!(d.title, "Premiere");
    assert_eq!(d.description, None);
    assert_eq!(d.max_attendees, Some(120));
    assert_eq!(d.status, "upcoming");
    f.title = "   ".to_string();
    assert_eq!(prepare_event(&f).unwrap_err(), "Title is required.");
}

#[test]
fn rating_form() {
    let f = pavilion::workflow::RatingForm { score: 4, review_text: Some(" Great ".to_string()) };
    let (score, review) = pavilion::workflow::prepare_rating(&f, true).unwrap();
    assert_eq!(score, 4);
    assert_eq!(review.as_deref(), Some(" Great "));
    let blank = pavilion::workflow::RatingForm { score: 2, review_text: Some("   ".to_string()) };
    assert_eq!(pavilion::workflow::prepare_rating(&blank, true).unwrap().1, None);
    assert!(pavilion::workflow::prepare_rating(&blank, false).is_err());
}
