//! Error types: the media layer's errors and the application's errors with
//! their HTTP status mapping.
use crate::text::{chars_of, push_str, push_string, string_of};
use crate::token::TokenError;
use vstd::prelude::*;

verus! {

impl TokenError {
    /// The message the error displays.
    pub open spec fn text(self) -> Seq<char> {
        match self {
            TokenError::InvalidFormat => "Invalid token format"@,
            TokenError::InvalidSignature => "Invalid signature"@,
            TokenError::Expired => "Token expired"@,
        }
    }

    pub fn message(&self) -> (r: String)
        ensures
            r@ == self.text(),
    {
        match self {
            TokenError::InvalidFormat => string_of(chars_of("Invalid token format").as_slice()),
            TokenError::InvalidSignature => string_of(chars_of("Invalid signature").as_slice()),
            TokenError::Expired => string_of(chars_of("Token expired").as_slice()),
        }
    }
}

/// Errors of the media layer: storage, transcoding, tokens.
#[derive(Debug)]
pub enum MediaError {
    Storage(String),
    Transcode(String),
    Token(TokenError),
    NotFound(String),
    Internal(String),
}

impl MediaError {
    /// The message the error displays.
    pub open spec fn text(&self) -> Seq<char> {
        match self {
            MediaError::Storage(s) => "Storage error: "@ + s@,
            MediaError::Transcode(s) => "Transcode error: "@ + s@,
            MediaError::Token(e) => "Token error: "@ + e.text(),
            MediaError::NotFound(s) => "Not found: "@ + s@,
            MediaError::Internal(s) => s@,
        }
    }

    pub fn message(&self) -> (r: String)
        ensures
            r@ == self.text(),
    {
        let mut v: Vec<char> = Vec::new();
        match self {
            MediaError::Storage(s) => {
                push_str(&mut v, "Storage error: ");
                push_string(&mut v, s);
            },
            MediaError::Transcode(s) => {
                push_str(&mut v, "Transcode error: ");
                push_string(&mut v, s);
            },
            MediaError::Token(e) => {
                push_str(&mut v, "Token error: ");
                let m = e.message();
                push_string(&mut v, &m);
            },
            MediaError::NotFound(s) => {
                push_str(&mut v, "Not found: ");
                push_string(&mut v, s);
            },
            MediaError::Internal(s) => {
                push_string(&mut v, s);
            },
        }
        string_of(v.as_slice())
    }
}

impl From<TokenError> for MediaError {
    fn from(e: TokenError) -> (r: Self) {
        MediaError::Token(e)
    }
}

impl vstd::std_specs::convert::FromSpecImpl<TokenError> for MediaError {
    open spec fn obeys_from_spec() -> bool {
        true
    }

    open spec fn from_spec(e: TokenError) -> MediaError {
        MediaError::Token(e)
    }
}

/// Errors of the application's request handlers. The database and internal
/// variants carry the text of the underlying error.
#[derive(Debug)]
pub enum AppError {
    NotFound,
    Forbidden,
    Unauthorized,
    Validation(String),
    LicenseViolation(String),
    Database(String),
    Internal(String),
}

impl AppError {
    /// The HTTP status code of the response for this error.
    pub open spec fn status_spec(&self) -> u16 {
        match self {
            AppError::NotFound => 404,
            AppError::Forbidden => 403,
            AppError::LicenseViolation(_) => 403,
            AppError::Unauthorized => 401,
            AppError::Validation(_) => 422,
            AppError::Database(_) => 500,
            AppError::Internal(_) => 500,
        }
    }

    /// The HTTP status code of the response for this error.
    pub fn status_code(&self) -> (r: u16)
        ensures
            r == self.status_spec(),
    {
        match self {
            AppError::NotFound => 404,
            AppError::Forbidden | AppError::LicenseViolation(_) => 403,
            AppError::Unauthorized => 401,
            AppError::Validation(_) => 422,
            AppError::Database(_) | AppError::Internal(_) => 500,
        }
    }

    /// The body of the response: the status code's reason phrase only, so
    /// that no internal detail reaches the client.
    pub open spec fn body_spec(&self) -> Seq<char> {
        match self.status_spec() {
            404 => "Not Found"@,
            403 => "Forbidden"@,
            401 => "Unauthorized"@,
            422 => "Unprocessable Entity"@,
            _ => "Internal Server Error"@,
        }
    }

    pub fn response_body(&self) -> (r: String)
        ensures
            r@ == self.body_spec(),
    {
        let code = self.status_code();
        let text = if code == 404 {
            "Not Found"
        } else if code == 403 {
            "Forbidden"
        } else if code == 401 {
            "Unauthorized"
        } else if code == 422 {
            "Unprocessable Entity"
        } else {
            "Internal Server Error"
        };
        string_of(chars_of(text).as_slice())
    }

    /// Whether the error is logged on the server before the response goes out.
    pub open spec fn logged_spec(&self) -> bool {
        self.status_spec() == 500
    }

    pub fn is_logged(&self) -> (r: bool)
        ensures
            r == self.logged_spec(),
    {
        self.status_code() == 500
    }

    /// The message the error displays.
    pub open spec fn text(&self) -> Seq<char> {
        match self {
            AppError::NotFound => "Not found"@,
            AppError::Forbidden => "Forbidden"@,
            AppError::Unauthorized => "Unauthorized"@,
            AppError::Validation(s) => "Validation error: "@ + s@,
            AppError::LicenseViolation(s) => "License violation: "@ + s@,
            AppError::Database(s) => s@,
            AppError::Internal(s) => s@,
        }
    }

    pub fn message(&self) -> (r: String)
        ensures
            r@ == self.text(),
    {
        let mut v: Vec<char> = Vec::new();
        match self {
            AppError::NotFound => push_str(&mut v, "Not found"),
            AppError::Forbidden => push_str(&mut v, "Forbidden"),
            AppError::Unauthorized => push_str(&mut v, "Unauthorized"),
            AppError::Validation(s) => {
                push_str(&mut v, "Validation error: ");
                push_string(&mut v, s);
            },
            AppError::LicenseViolation(s) => {
                push_str(&mut v, "License violation: ");
                push_string(&mut v, s);
            },
            AppError::Database(s) => push_string(&mut v, s),
            AppError::Internal(s) => push_string(&mut v, s),
        }
        string_of(v.as_slice())
    }
}

/// Whether `e` is a validation error with message `m`.
pub open spec fn is_validation(e: AppError, m: Seq<char>) -> bool {
    e matches AppError::Validation(s) && s@ == m
}

/// A validation error with message `m`.
pub fn validation(m: &str) -> (e: AppError)
    ensures
        is_validation(e, m@),
{
    AppError::Validation(string_of(chars_of(m).as_slice()))
}

} // verus!
