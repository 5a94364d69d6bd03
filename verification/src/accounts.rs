//! People's accounts: registration, login, profile edits, privacy consent,
//! and the copyright claims anyone may file.
use crate::auth::{argon2_verdict, verify_password};
use crate::bindings::{lowercase, to_lowercase};
use crate::error::{is_validation, validation, AppError};
use crate::forms::{field_text, has_content, non_blank};
use crate::text::{chars_of, owned, push_string, str_is, string_of, trim, trim_chars};
use vstd::prelude::*;
use vstd::utf8::encode_utf8;

verus! {

/// The registration form.
#[derive(Debug, Clone)]
pub struct RegisterForm {
    pub email: String,
    pub name: String,
    pub password: String,
    pub password_confirm: String,
    pub accept_terms: Option<String>,
    pub accept_no_porn: Option<String>,
    pub accept_copyright: Option<String>,
    pub accept_talent: Option<String>,
    pub consent_marketing: Option<String>,
    pub consent_analytics: Option<String>,
}

/// The login form.
#[derive(Debug, Clone)]
pub struct LoginForm {
    pub email: String,
    pub password: String,
}

/// A person about to be registered, before the password is hashed.
#[derive(Debug, Clone)]
pub struct Registration {
    pub email: String,
    pub name: String,
    pub roles: Vec<String>,
    pub consent_marketing: bool,
    pub consent_analytics: bool,
}

/// An e-mail address as accounts are keyed by it: trimmed and lower-cased.
pub open spec fn normal_email(email: Seq<char>) -> Seq<char> {
    lowercase(trim(email))
}

/// The e-mail address `email` as accounts are keyed by it.
pub fn normalize_email(email: &str) -> (r: String)
    ensures
        r@ == normal_email(email@),
{
    let t = string_of(trim_chars(chars_of(email).as_slice()).as_slice());
    to_lowercase(t.as_str())
}

/// Why a registration form is refused, if it is: all four terms boxes must
/// be ticked, the name must not be blank, the password must be at least
/// eight bytes long and match its confirmation.
pub open spec fn registration_error(form: RegisterForm) -> Option<Seq<char>> {
    if form.accept_terms is None || form.accept_no_porn is None || form.accept_copyright is None
        || form.accept_talent is None {
        Some("You must accept all terms and content policy checkboxes to register."@)
    } else if trim(form.name@).len() == 0 {
        Some("Name is required."@)
    } else if encode_utf8(form.password@).len() < 8 {
        Some("Password must be at least 8 characters."@)
    } else if form.password@ != form.password_confirm@ {
        Some("Passwords do not match."@)
    } else {
        None
    }
}

/// The person a valid registration form describes: a filmmaker, with the
/// e-mail address normalized, the name trimmed, and the consents ticked.
pub open spec fn registration_of(form: RegisterForm, r: Registration) -> bool {
    &&& r.email@ == normal_email(form.email@)
    &&& r.name@ == trim(form.name@)
    &&& r.roles@.len() == 1 && r.roles@[0]@ == "filmmaker"@
    &&& r.consent_marketing == form.consent_marketing is Some
    &&& r.consent_analytics == form.consent_analytics is Some
}

/// Checks a registration form and reads the person it describes.
pub fn validate_registration(form: &RegisterForm) -> (r: Result<Registration, String>)
    ensures
        match registration_error(*form) {
            Some(m) => r matches Err(e) && e@ == m,
            None => r matches Ok(reg) && registration_of(*form, reg),
        },
{
    if form.accept_terms.is_none() || form.accept_no_porn.is_none() || form.accept_copyright.is_none()
        || form.accept_talent.is_none() {
        return Err(owned("You must accept all terms and content policy checkboxes to register."));
    }
    let name = string_of(trim_chars(chars_of(form.name.as_str()).as_slice()).as_slice());
    if chars_of(name.as_str()).len() == 0 {
        return Err(owned("Name is required."));
    }
    if crate::text::utf8_shorter_than(form.password.as_str(), 8) {
        return Err(owned("Password must be at least 8 characters."));
    }
    if !str_is(form.password.as_str(), form.password_confirm.as_str()) {
        return Err(owned("Passwords do not match."));
    }
    let mut roles: Vec<String> = Vec::new();
    roles.push(owned("filmmaker"));
    Ok(Registration {
        email: normalize_email(form.email.as_str()),
        name,
        roles,
        consent_marketing: form.consent_marketing.is_some(),
        consent_analytics: form.consent_analytics.is_some(),
    })
}

/// The registration, unless an account with its e-mail address exists.
pub fn accept_registration(reg: Registration, email_taken: bool) -> (r: Result<Registration, String>)
    ensures
        email_taken ==> (r matches Err(e) && e@ == "An account with this email already exists."@),
        !email_taken ==> r == Ok::<Registration, String>(reg),
{
    if email_taken {
        Err(owned("An account with this email already exists."))
    } else {
        Ok(reg)
    }
}

/// Whether a login succeeds: `stored_hash` is the password hash of the
/// account with the submitted address, if there is one. A missing account and
/// a wrong password are both a plain refusal; a malformed stored hash is an
/// internal error.
pub fn check_login(password: &str, stored_hash: Option<&str>) -> (r: Result<bool, AppError>)
    ensures
        match stored_hash {
            None => r == Ok::<bool, AppError>(false),
            Some(h) => match argon2_verdict(password@, h@) {
                Some(b) => r == Ok::<bool, AppError>(b),
                None => r matches Err(AppError::Internal(_)),
            },
        },
{
    match stored_hash {
        None => Ok(false),
        Some(h) => match verify_password(password, h) {
            Ok(b) => Ok(b),
            Err(e) => {
                let mut m = chars_of("Password verify error: ");
                push_string(&mut m, &e.message);
                Err(AppError::Internal(string_of(m.as_slice())))
            },
        },
    }
}

/// The profile edit form.
#[derive(Debug, Clone)]
pub struct ProfileUpdateForm {
    pub name: String,
    pub bio: Option<String>,
}

/// The changes a profile edit makes: the name trimmed and the biography,
/// left out where it is blank.
#[derive(Debug, Clone)]
pub struct ProfileChanges {
    pub name: String,
    pub bio: Option<String>,
}

/// Reads a profile edit; a blank name is refused.
pub fn prepare_profile_update(form: &ProfileUpdateForm) -> (r: Result<ProfileChanges, AppError>)
    ensures
        trim(form.name@).len() == 0 ==> (r matches Err(e) && is_validation(e, "Name cannot be empty."@)),
        trim(form.name@).len() > 0 ==> (r matches Ok(c) && c.name@ == trim(form.name@)
            && (c.bio is Some <==> has_content(form.bio))
            && (c.bio matches Some(b) ==> b@ == field_text(form.bio))),
{
    let name = string_of(trim_chars(chars_of(form.name.as_str()).as_slice()).as_slice());
    if chars_of(name.as_str()).len() == 0 {
        return Err(validation("Name cannot be empty."));
    }
    Ok(ProfileChanges { name, bio: non_blank(&form.bio) })
}

/// The privacy consent form: a ticked box is present.
#[derive(Debug, Clone)]
pub struct ConsentForm {
    pub consent_marketing: Option<String>,
    pub consent_analytics: Option<String>,
}

/// The consents a privacy form gives: marketing, then analytics.
pub fn consent_choices(form: &ConsentForm) -> (r: (bool, bool))
    ensures
        r == (form.consent_marketing is Some, form.consent_analytics is Some),
{
    (form.consent_marketing.is_some(), form.consent_analytics.is_some())
}

/// The copyright claim form.
#[derive(Debug, Clone)]
pub struct DmcaForm {
    pub claimant_name: String,
    pub claimant_email: String,
    pub claimant_company: Option<String>,
    pub film_id: String,
    pub description: String,
    pub evidence_url: Option<String>,
    pub good_faith: Option<String>,
    pub perjury: Option<String>,
}

/// A copyright claim about to be filed.
#[derive(Debug, Clone)]
pub struct ClaimDraft {
    pub claimant_name: String,
    pub claimant_email: String,
    pub claimant_company: Option<String>,
    pub film_id: String,
    pub description: String,
    pub evidence_url: Option<String>,
    pub good_faith_statement: bool,
    pub perjury_declaration: bool,
}

/// Why a claim form is refused, if it is: name and e-mail are required,
/// then the description, then both sworn statements.
pub open spec fn claim_error(form: DmcaForm) -> Option<Seq<char>> {
    if trim(form.claimant_name@).len() == 0 || trim(form.claimant_email@).len() == 0 {
        Some("Name and email are required."@)
    } else if trim(form.description@).len() == 0 {
        Some("Description of the copyrighted work is required."@)
    } else if form.good_faith is None || form.perjury is None {
        Some("You must confirm the good faith statement and perjury declaration."@)
    } else {
        None
    }
}

/// The claim a valid form files: text trimmed, the address normalized,
/// blank optional fields left out, both statements made.
pub open spec fn claim_of(form: DmcaForm, c: ClaimDraft) -> bool {
    &&& c.claimant_name@ == trim(form.claimant_name@)
    &&& c.claimant_email@ == normal_email(form.claimant_email@)
    &&& (c.claimant_company is Some <==> has_content(form.claimant_company))
    &&& (c.claimant_company matches Some(s) ==> s@ == field_text(form.claimant_company))
    &&& c.film_id@ == form.film_id@
    &&& c.description@ == trim(form.description@)
    &&& (c.evidence_url is Some <==> has_content(form.evidence_url))
    &&& (c.evidence_url matches Some(s) ==> s@ == field_text(form.evidence_url))
    &&& c.good_faith_statement
    &&& c.perjury_declaration
}

fn trimmed(s: &String) -> (r: String)
    ensures
        r@ == trim(s@),
{
    string_of(trim_chars(chars_of(s.as_str()).as_slice()).as_slice())
}

/// Checks a copyright claim form and reads the claim it files.
pub fn prepare_claim(form: &DmcaForm) -> (r: Result<ClaimDraft, String>)
    ensures
        match claim_error(*form) {
            Some(m) => r matches Err(e) && e@ == m,
            None => r matches Ok(c) && claim_of(*form, c),
        },
{
    let name = trimmed(&form.claimant_name);
    let email = trimmed(&form.claimant_email);
    if chars_of(name.as_str()).len() == 0 || chars_of(email.as_str()).len() == 0 {
        return Err(owned("Name and email are required."));
    }
    let description = trimmed(&form.description);
    if chars_of(description.as_str()).len() == 0 {
        return Err(owned("Description of the copyrighted work is required."));
    }
    if form.good_faith.is_none() || form.perjury.is_none() {
        return Err(owned("You must confirm the good faith statement and perjury declaration."));
    }
    Ok(ClaimDraft {
        claimant_name: name,
        claimant_email: to_lowercase(email.as_str()),
        claimant_company: non_blank(&form.claimant_company),
        film_id: form.film_id.clone(),
        description,
        evidence_url: non_blank(&form.evidence_url),
        good_faith_statement: true,
        perjury_declaration: true,
    })
}

/// The counter-notification form.
#[derive(Debug, Clone)]
pub struct CounterForm {
    pub reason: String,
}

/// The reason a counter-notification records: the submitted text, trimmed.
pub fn counter_reason(form: &CounterForm) -> (r: String)
    ensures
        r@ == trim(form.reason@),
{
    trimmed(&form.reason)
}

/// The administrator's review form.
#[derive(Debug, Clone)]
pub struct AdminReviewForm {
    pub action: String,
    pub notes: Option<String>,
}

/// The fields a profile update may change; absent ones are left as they are.
#[derive(Debug, Clone)]
pub struct UpdatePerson {
    pub name: Option<String>,
    pub bio: Option<String>,
    pub avatar_url: Option<String>,
}

impl ProfileChanges {
    /// The changes as a person update: the name and the biography, the avatar untouched.
    pub fn to_update(self) -> (u: UpdatePerson)
        ensures
            u.name == Some(self.name),
            u.bio == self.bio,
            u.avatar_url is None,
    {
        UpdatePerson { name: Some(self.name), bio: self.bio, avatar_url: None }
    }
}

} // verus!
