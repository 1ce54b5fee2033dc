use vstd::prelude::*;

use crate::text::{decimal_text, join};

verus! {

/// Everything that can go wrong for a command. The transport variants hold
/// the text of the underlying error.
#[derive(Clone, Debug)]
pub enum QuomeError {
    NotLoggedIn,
    NoLinkedOrg,
    NoLinkedApp,
    Unauthorized,
    NotFound(String),
    ApiError(String),
    RateLimited,
    InvalidResponse,
    Http(String),
    Io(String),
    Json(String),
}

/// The text a user is shown for an error.
pub open spec fn error_text(e: QuomeError) -> Seq<char> {
    match e {
        QuomeError::NotLoggedIn => "Not logged in. Run `quome login` first."@,
        QuomeError::NoLinkedOrg => "No linked organization. Run `quome link` to connect."@,
        QuomeError::NoLinkedApp => "No linked application. Run `quome link` to connect."@,
        QuomeError::Unauthorized => "Unauthorized. Your session may have expired. Run `quome login`."@,
        QuomeError::NotFound(m) => "Not found: "@ + m@,
        QuomeError::ApiError(m) => "API error: "@ + m@,
        QuomeError::RateLimited => "Rate limited. Please wait and try again."@,
        QuomeError::InvalidResponse => "Invalid response from server"@,
        QuomeError::Http(m) => m@,
        QuomeError::Io(m) => m@,
        QuomeError::Json(m) => m@,
    }
}

/// The reason phrase that goes with an HTTP status code.
pub uninterp spec fn status_reason(code: u16) -> Seq<char>;

/// Relies on reqwest's `StatusCode` display: the code in decimal, a space,
/// and the code's reason phrase.
#[verifier::external_body]
fn status_display(code: u16) -> (r: String)
    requires
        100 <= code <= 999,
    ensures
        r@ == decimal_text(code as int) + seq![' '] + status_reason(code),
{
    match reqwest::StatusCode::from_u16(code) {
        Ok(status) => status.to_string(),
        Err(_) => String::new(),
    }
}

/// The message of an error answer: the server's own, or `fallback`.
pub open spec fn message_or(message: Option<String>, fallback: Seq<char>) -> Seq<char> {
    match message {
        Some(m) => m@,
        None => fallback,
    }
}

/// The message of an error answer with no dedicated variant.
pub open spec fn failed_status_text(status: u16, message: Option<String>) -> Seq<char> {
    message_or(
        message,
        "Request failed with status "@ + decimal_text(status as int) + seq![' '] + status_reason(
            status,
        ),
    )
}

impl QuomeError {
    /// The text a user is shown for this error.
    pub fn message(&self) -> (r: String)
        ensures
            r@ == error_text(*self),
    {
        match self {
            QuomeError::NotLoggedIn => String::from_str("Not logged in. Run `quome login` first."),
            QuomeError::NoLinkedOrg => String::from_str(
                "No linked organization. Run `quome link` to connect.",
            ),
            QuomeError::NoLinkedApp => String::from_str(
                "No linked application. Run `quome link` to connect.",
            ),
            QuomeError::Unauthorized => String::from_str(
                "Unauthorized. Your session may have expired. Run `quome login`.",
            ),
            QuomeError::NotFound(m) => join("Not found: ", m.as_str()),
            QuomeError::ApiError(m) => join("API error: ", m.as_str()),
            QuomeError::RateLimited => String::from_str("Rate limited. Please wait and try again."),
            QuomeError::InvalidResponse => String::from_str("Invalid response from server"),
            QuomeError::Http(m) => m.clone(),
            QuomeError::Io(m) => m.clone(),
            QuomeError::Json(m) => m.clone(),
        }
    }
}

/// Maps an HTTP status to the command's result: any 2xx status succeeds;
/// 401, 404 and 429 have their own errors; every other status is an API
/// error. `message` is the one the server's error body gave, if any.
pub fn check_status(status: u16, message: Option<String>) -> (r: Result<(), QuomeError>)
    requires
        100 <= status <= 999,
    ensures
        (200 <= status <= 299) <==> r is Ok,
        status == 401 ==> r matches Err(QuomeError::Unauthorized),
        status == 404 ==> (r matches Err(QuomeError::NotFound(m)) && m@ == message_or(
            message,
            "Resource not found"@,
        )),
        status == 429 ==> r matches Err(QuomeError::RateLimited),
        !(200 <= status <= 299) && status != 401 && status != 404 && status != 429 ==> (r matches Err(
            QuomeError::ApiError(m),
        ) && m@ == failed_status_text(status, message)),
{
    if 200 <= status && status <= 299 {
        Ok(())
    } else if status == 401 {
        Err(QuomeError::Unauthorized)
    } else if status == 404 {
        match message {
            Some(m) => Err(QuomeError::NotFound(m)),
            None => Err(QuomeError::NotFound(String::from_str("Resource not found"))),
        }
    } else if status == 429 {
        Err(QuomeError::RateLimited)
    } else {
        match message {
            Some(m) => Err(QuomeError::ApiError(m)),
            None => {
                let text = status_display(status);
                Err(QuomeError::ApiError(join("Request failed with status ", text.as_str())))
            },
        }
    }
}

} // verus!
