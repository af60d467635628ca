//! Errors, and the HTTP replies that report them.

use crate::json::{JsonValue, JsonView};
use crate::text::{contains, decimal, decimal_text, lowered, occurs_in, to_lower};
use vstd::prelude::*;

verus! {

/// What can go wrong while a request is handled.
#[derive(Debug, Clone)]
pub enum AppError {
    BadRequest(String),
    Unauthorized,
    /// The caller may try again after this many seconds.
    RateLimited(u64),
    NotFound(String),
    /// Codex reported an error.
    Codex(String),
    Internal(String),
    /// An operation on files or processes failed.
    Io(String),
    /// A text could not be read or written as JSON.
    Json(String),
}

/// The HTTP reply to a request that failed.
pub struct ErrorReply {
    pub status: u16,
    pub body: JsonValue,
    /// The value of the `retry-after` header, where there is one.
    pub retry_after: Option<String>,
}

/// The message of an error.
pub open spec fn error_message(error: AppError) -> Seq<char> {
    match error {
        AppError::BadRequest(message) => message@,
        AppError::Unauthorized => "unauthorized"@,
        AppError::RateLimited(_) => "rate limit exceeded"@,
        AppError::NotFound(message) => message@,
        AppError::Codex(message) => message@,
        AppError::Internal(message) => message@,
        AppError::Io(message) => message@,
        AppError::Json(message) => message@,
    }
}

/// The status, type and code that report a Codex error, by what its message mentions.
pub open spec fn codex_error_class(message: Seq<char>) -> (u16, Seq<char>, Seq<char>) {
    let lower = lowered(message);
    if occurs_in("unauthorized"@, lower) || occurs_in("authentication"@, lower) || occurs_in(
        "api key"@,
        lower,
    ) {
        (401, "authentication_error"@, "codex_auth_error"@)
    } else if occurs_in("context window"@, lower) {
        (400, "invalid_request_error"@, "context_window_exceeded"@)
    } else if occurs_in("rate limit"@, lower) || occurs_in("usage limit"@, lower) {
        (429, "rate_limit_error"@, "usage_limit_exceeded"@)
    } else if occurs_in("overloaded"@, lower) || occurs_in("failed attempts"@, lower) {
        (503, "api_error"@, "provider_overloaded"@)
    } else {
        (502, "api_error"@, "codex_error"@)
    }
}

/// The status, type and code that report an error.
pub open spec fn error_class(error: AppError) -> (u16, Seq<char>, Seq<char>) {
    match error {
        AppError::BadRequest(_) => (400, "invalid_request_error"@, "bad_request"@),
        AppError::Unauthorized => (401, "authentication_error"@, "unauthorized"@),
        AppError::RateLimited(_) => (429, "rate_limit_error"@, "rate_limit_exceeded"@),
        AppError::NotFound(_) => (404, "invalid_request_error"@, "not_found"@),
        AppError::Codex(message) => codex_error_class(message@),
        AppError::Internal(_) | AppError::Io(_) | AppError::Json(_) => (
            500,
            "server_error"@,
            "internal_error"@,
        ),
    }
}

/// Every error is reported with an error status.
pub proof fn law_errors_have_error_statuses(error: AppError)
    ensures
        400 <= error_class(error).0 < 600,
{
}

/// The body that reports an error.
pub open spec fn error_body(error: AppError) -> JsonView {
    JsonView::Object(
        map![
            "error"@ => JsonView::Object(
                map![
                    "message"@ => JsonView::Text(error_message(error)),
                    "type"@ => JsonView::Text(error_class(error).1),
                    "code"@ => JsonView::Text(error_class(error).2),
                ],
            ),
        ],
    )
}

/// The status, type and code that report a Codex error.
pub fn classify_codex_error(message: &str) -> (class: (u16, &'static str, &'static str))
    ensures
        (class.0, class.1@, class.2@) == codex_error_class(message@),
{
    let lower = to_lower(message);
    if contains(lower.as_str(), "unauthorized") || contains(lower.as_str(), "authentication")
        || contains(lower.as_str(), "api key") {
        (401, "authentication_error", "codex_auth_error")
    } else if contains(lower.as_str(), "context window") {
        (400, "invalid_request_error", "context_window_exceeded")
    } else if contains(lower.as_str(), "rate limit") || contains(lower.as_str(), "usage limit") {
        (429, "rate_limit_error", "usage_limit_exceeded")
    } else if contains(lower.as_str(), "overloaded") || contains(
        lower.as_str(),
        "failed attempts",
    ) {
        (503, "api_error", "provider_overloaded")
    } else {
        (502, "api_error", "codex_error")
    }
}

impl AppError {
    /// The message of the error.
    pub fn message(&self) -> (message: String)
        ensures
            message@ == error_message(*self),
    {
        match self {
            AppError::BadRequest(message) => message.clone(),
            AppError::Unauthorized => "unauthorized".to_owned(),
            AppError::RateLimited(_) => "rate limit exceeded".to_owned(),
            AppError::NotFound(message) => message.clone(),
            AppError::Codex(message) => message.clone(),
            AppError::Internal(message) => message.clone(),
            AppError::Io(message) => message.clone(),
            AppError::Json(message) => message.clone(),
        }
    }

    /// The HTTP reply that reports the error.
    pub fn into_response(&self) -> (reply: ErrorReply)
        ensures
            reply.status == error_class(*self).0,
            reply.body@ == error_body(*self),
            match *self {
                AppError::RateLimited(seconds) => reply.retry_after matches Some(value) && value@
                    == decimal(seconds as nat),
                _ => reply.retry_after is None,
            },
    {
        let (status, error_type, code): (u16, &'static str, &'static str) = match self {
            AppError::BadRequest(_) => (400, "invalid_request_error", "bad_request"),
            AppError::Unauthorized => (401, "authentication_error", "unauthorized"),
            AppError::RateLimited(_) => (429, "rate_limit_error", "rate_limit_exceeded"),
            AppError::NotFound(_) => (404, "invalid_request_error", "not_found"),
            AppError::Codex(message) => classify_codex_error(message.as_str()),
            AppError::Internal(_) | AppError::Io(_) | AppError::Json(_) => (
                500,
                "server_error",
                "internal_error",
            ),
        };
        let detail = JsonValue::object().with(
            "message",
            JsonValue::Text(self.message()),
        ).with("type", JsonValue::from_text(error_type)).with("code", JsonValue::from_text(code));
        let retry_after = match self {
            AppError::RateLimited(seconds) => Some(decimal_text(*seconds)),
            _ => None,
        };
        ErrorReply { status, body: JsonValue::object().with("error", detail), retry_after }
    }
}

proof fn lemma_error_names()
    ensures
        "message"@ != "type"@,
        "message"@ != "code"@,
        "type"@ != "code"@,
{
    reveal_strlit("message");
    reveal_strlit("type");
    reveal_strlit("code");
    assert("message"@.len() != "type"@.len());
    assert("message"@.len() != "code"@.len());
    assert("type"@[0] != "code"@[0]);
}

/// The message of an error is told as it stands; two kinds of error have a message of their own.
pub proof fn law_error_messages_are_told(message: String, seconds: u64)
    ensures
        error_message(AppError::BadRequest(message)) == message@,
        error_message(AppError::NotFound(message)) == message@,
        error_message(AppError::Codex(message)) == message@,
        error_message(AppError::Internal(message)) == message@,
        error_message(AppError::Io(message)) == message@,
        error_message(AppError::Json(message)) == message@,
        error_message(AppError::Unauthorized) == "unauthorized"@,
        error_message(AppError::RateLimited(seconds)) == "rate limit exceeded"@,
{
}

/// Each kind of error has its status: 400 for a bad request, 401 without a key, 404 for what is
/// not found, 429 for too many requests, and 500 for what went wrong in the service itself.
pub proof fn law_kinds_of_error_have_their_status(message: String, seconds: u64)
    ensures
        error_class(AppError::BadRequest(message)) == (
            400u16,
            "invalid_request_error"@,
            "bad_request"@,
        ),
        error_class(AppError::Unauthorized) == (401u16, "authentication_error"@, "unauthorized"@),
        error_class(AppError::RateLimited(seconds)) == (
            429u16,
            "rate_limit_error"@,
            "rate_limit_exceeded"@,
        ),
        error_class(AppError::NotFound(message)) == (
            404u16,
            "invalid_request_error"@,
            "not_found"@,
        ),
        error_class(AppError::Internal(message)) == (500u16, "server_error"@, "internal_error"@),
        error_class(AppError::Io(message)) == (500u16, "server_error"@, "internal_error"@),
        error_class(AppError::Json(message)) == (500u16, "server_error"@, "internal_error"@),
{
}

/// An error of Codex is classed by what its message mentions, in any case: credentials before the
/// context window, that before limits, those before overload, and any other is a bad gateway.
pub proof fn law_codex_errors_are_classed_by_what_they_mention(message: String)
    ensures
        ({
            let text = lowered(message@);
            let class = error_class(AppError::Codex(message));
            let credentials = occurs_in("unauthorized"@, text) || occurs_in("authentication"@, text)
                || occurs_in("api key"@, text);
            let window = occurs_in("context window"@, text);
            let limits = occurs_in("rate limit"@, text) || occurs_in("usage limit"@, text);
            let overload = occurs_in("overloaded"@, text) || occurs_in("failed attempts"@, text);
            &&& credentials ==> class == (401u16, "authentication_error"@, "codex_auth_error"@)
            &&& !credentials && window ==> class == (
                400u16,
                "invalid_request_error"@,
                "context_window_exceeded"@,
            )
            &&& !credentials && !window && limits ==> class == (
                429u16,
                "rate_limit_error"@,
                "usage_limit_exceeded"@,
            )
            &&& !credentials && !window && !limits && overload ==> class == (
                503u16,
                "api_error"@,
                "provider_overloaded"@,
            )
            &&& !credentials && !window && !limits && !overload ==> class == (
                502u16,
                "api_error"@,
                "codex_error"@,
            )
        }),
{
}

/// The body of an error reply holds its message, type and code under `error`.
pub proof fn law_error_body_holds_the_message(error: AppError, text: String) -> (body: (
    Map<Seq<char>, JsonView>,
    Map<Seq<char>, JsonView>,
))
    ensures
        error_body(error) == JsonView::Object(body.0),
        body.0["error"@] == JsonView::Object(body.1),
        body.1["type"@] == JsonView::Text(error_class(error).1),
        body.1["code"@] == JsonView::Text(error_class(error).2),
        error == AppError::BadRequest(text) || error == AppError::NotFound(text) || error
            == AppError::Codex(text) || error == AppError::Internal(text) || error == AppError::Io(
            text,
        ) || error == AppError::Json(text) ==> body.1["message"@] == JsonView::Text(text@),
{
    lemma_error_names();
    let members = error_body(error)->Object_0;
    (members, members["error"@]->Object_0)
}

} // verus!
