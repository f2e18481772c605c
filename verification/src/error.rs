//! The service's error kinds and the public answer each one gives: an HTTP
//! status, an opaque machine-readable code, and for rate limiting a
//! `Retry-After` of at least one second.

use vstd::prelude::*;
use crate::text::{push_str, str_eq, string_from_chars};

verus! {

#[derive(Debug, PartialEq, Eq)]
pub enum AppError {
    Unauthorized,
    Forbidden,
    Conflict(String),
    Invalid(String),
    Unavailable(&'static str),
    RateLimited { retry_after_secs: u64 },
    Upstream,
    NotFound,
    Internal,
}

impl AppError {
    /// The HTTP status of the answer.
    pub open spec fn spec_status(self) -> u16 {
        match self {
            AppError::Unauthorized => 401,
            AppError::Forbidden => 403,
            AppError::Conflict(_) => 409,
            AppError::Invalid(_) => 400,
            AppError::Unavailable(_) => 503,
            AppError::RateLimited { .. } => 429,
            AppError::Upstream => 502,
            AppError::NotFound => 404,
            AppError::Internal => 500,
        }
    }

    /// The opaque code the answer carries. Of all conflicts only a replayed
    /// CSRF token is named, so that a client may refresh it and retry.
    pub open spec fn spec_public_code(self) -> Seq<char> {
        match self {
            AppError::Unauthorized => "authentication_required"@,
            AppError::Forbidden => "forbidden"@,
            AppError::Conflict(code) => if code@ == "csrf_replayed"@ {
                "csrf_replayed"@
            } else {
                "conflict"@
            },
            AppError::Invalid(_) => "invalid_request"@,
            AppError::Unavailable(_) => "dependency_unavailable"@,
            AppError::RateLimited { .. } => "rate_limited"@,
            AppError::Upstream => "upstream_rejected"@,
            AppError::NotFound => "not_found"@,
            AppError::Internal => "internal_error"@,
        }
    }

    pub fn status(&self) -> (r: u16)
        ensures
            r == self.spec_status(),
    {
        match self {
            AppError::Unauthorized => 401,
            AppError::Forbidden => 403,
            AppError::Conflict(_) => 409,
            AppError::Invalid(_) => 400,
            AppError::Unavailable(_) => 503,
            AppError::RateLimited { .. } => 429,
            AppError::Upstream => 502,
            AppError::NotFound => 404,
            AppError::Internal => 500,
        }
    }

    pub fn public_code(&self) -> (r: &'static str)
        ensures
            r@ == self.spec_public_code(),
    {
        match self {
            AppError::Unauthorized => "authentication_required",
            AppError::Forbidden => "forbidden",
            AppError::Conflict(code) => if str_eq(code.as_str(), "csrf_replayed") {
                "csrf_replayed"
            } else {
                "conflict"
            },
            AppError::Invalid(_) => "invalid_request",
            AppError::Unavailable(_) => "dependency_unavailable",
            AppError::RateLimited { .. } => "rate_limited",
            AppError::Upstream => "upstream_rejected",
            AppError::NotFound => "not_found",
            AppError::Internal => "internal_error",
        }
    }

    /// The `Retry-After` seconds of a rate-limited answer: never less than one.
    pub fn retry_after(&self) -> (r: Option<u64>)
        ensures
            match *self {
                AppError::RateLimited { retry_after_secs } => r == Some(
                    if retry_after_secs < 1 {
                        1u64
                    } else {
                        retry_after_secs
                    },
                ),
                _ => r is None,
            },
    {
        match self {
            AppError::RateLimited { retry_after_secs } => Some(
                if *retry_after_secs < 1 {
                    1
                } else {
                    *retry_after_secs
                },
            ),
            _ => None,
        }
    }

    /// The answer is a server-side failure, which is logged.
    pub fn is_server_error(&self) -> (r: bool)
        ensures
            r == (500 <= self.spec_status() <= 599),
    {
        let status = self.status();
        500 <= status && status <= 599
    }

    /// The error's description for the service log.
    /// The human-readable text of the error.
    pub open spec fn spec_message(self) -> Seq<char> {
        match self {
            AppError::Unauthorized => "authentication required"@,
            AppError::Forbidden => "forbidden"@,
            AppError::Conflict(detail) => "request conflict: "@ + detail@,
            AppError::Invalid(detail) => "invalid request: "@ + detail@,
            AppError::Unavailable(what) => "dependency unavailable: "@ + what@,
            AppError::RateLimited { .. } => "request rate limited"@,
            AppError::Upstream => "upstream rejected the request"@,
            AppError::NotFound => "not found"@,
            AppError::Internal => "internal service error"@,
        }
    }

    pub fn message(&self) -> (r: String)
        ensures
            r@ == self.spec_message(),
    {
        let mut out: Vec<char> = Vec::new();
        match self {
            AppError::Unauthorized => push_str(&mut out, "authentication required"),
            AppError::Forbidden => push_str(&mut out, "forbidden"),
            AppError::Conflict(detail) => {
                push_str(&mut out, "request conflict: ");
                push_str(&mut out, detail.as_str());
            },
            AppError::Invalid(detail) => {
                push_str(&mut out, "invalid request: ");
                push_str(&mut out, detail.as_str());
            },
            AppError::Unavailable(what) => {
                push_str(&mut out, "dependency unavailable: ");
                push_str(&mut out, what);
            },
            AppError::RateLimited { .. } => push_str(&mut out, "request rate limited"),
            AppError::Upstream => push_str(&mut out, "upstream rejected the request"),
            AppError::NotFound => push_str(&mut out, "not found"),
            AppError::Internal => push_str(&mut out, "internal service error"),
        }
        string_from_chars(&out)
    }
}

/// A conflict that carries `code`.
pub open spec fn is_conflict(e: AppError, code: Seq<char>) -> bool {
    e matches AppError::Conflict(c) && c@ == code
}

/// A conflict with a fixed code.
pub fn conflict(code: &str) -> (r: AppError)
    ensures
        is_conflict(r, code@),
{
    AppError::Conflict(code.to_owned())
}

} // verus!

verus! {

/// A refusal as a conflict with this code.
pub open spec fn is_conflict_result<T>(r: Result<T, AppError>, code: Seq<char>) -> bool {
    r matches Err(e) && is_conflict(e, code)
}

} // verus!
