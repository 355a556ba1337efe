//! The resilient request policy.
//!
//! The application performs one HTTP attempt at a time and reports the
//! outcome here; this module decides whether the attempt succeeded,
//! must be retried after a wait, or failed for good, and with which
//! message. Transport failures and transient statuses (429 and 5xx)
//! are retried up to a ceiling with exponential backoff capped at 8
//! seconds, honouring a server-provided `Retry-After` hint; any other
//! failing status is terminal and is rendered with a remediation hint
//! keyed by the status code.

use vstd::prelude::*;

use crate::allowlist::allowed_url_spec;
use crate::allowlist::is_allowed_azure_url;
use crate::json::{get_field, get_str, spec_get, spec_get_str, JsonValue};
use crate::text::{dec_str, push_str_chars, string_from_chars, u64_to_string};

verus! {

/// Maximum number of retries for transient failures.
pub const MAX_RETRIES: u64 = 3;

/// What one HTTP attempt came to: the transport failed outright, or a
/// response arrived with a status, an optional `Retry-After` value in
/// seconds, and a body.
#[derive(Debug)]
pub enum HttpOutcome {
    Transport(String),
    Response { status: u16, retry_after: Option<u64>, body: JsonValue },
}

/// What to do after an attempt: return the body, wait and try again,
/// or give up with a message.
#[derive(Debug)]
pub enum RetryDecision {
    Success(JsonValue),
    Wait(u64),
    Fail(String),
}

/// A success status: 2xx.
pub open spec fn success_status(status: u16) -> bool {
    200 <= status < 300
}

/// A transient status, worth a retry: rate limiting or a server error.
pub open spec fn transient_status(status: u16) -> bool {
    status == 429 || (500 <= status < 600)
}

/// The exponential backoff schedule: doubling from one second,
/// capped at eight.
pub open spec fn backoff_secs_spec(attempt: u64) -> u64 {
    if attempt == 0 {
        1
    } else if attempt == 1 {
        2
    } else if attempt == 2 {
        4
    } else {
        8
    }
}

/// The wait before the next attempt on a transient status: the
/// server's `Retry-After` value when present, the backoff otherwise.
pub open spec fn wait_secs_spec(retry_after: Option<u64>, attempt: u64) -> u64 {
    match retry_after {
        Some(s) => s,
        None => backoff_secs_spec(attempt),
    }
}

/// The backoff wait for the given (zero-based) attempt number.
pub fn backoff_secs(attempt: u64) -> (r: u64)
    ensures
        r == backoff_secs_spec(attempt),
{
    if attempt == 0 {
        1
    } else if attempt == 1 {
        2
    } else if attempt == 2 {
        4
    } else {
        8
    }
}

/// The error code of a failing response body, with the fallback the
/// remote API's errors default to.
pub open spec fn error_code_spec(body: JsonValue) -> Seq<char> {
    match spec_get(body, "error"@) {
        Some(e) => match spec_get_str(e, "code"@) {
            Some(c) => c,
            None => "UnknownError"@,
        },
        None => "UnknownError"@,
    }
}

/// The error message of a failing response body: the API error shape
/// first, then the token-endpoint shape, then a generic fallback.
pub open spec fn error_message_spec(body: JsonValue) -> Seq<char> {
    match spec_get(body, "error"@) {
        Some(e) => match spec_get_str(e, "message"@) {
            Some(m) => m,
            None => error_description_or_default(body),
        },
        None => error_description_or_default(body),
    }
}

/// The `error_description` field, or the generic fallback message.
pub open spec fn error_description_or_default(body: JsonValue) -> Seq<char> {
    match spec_get_str(body, "error_description"@) {
        Some(d) => d,
        None => "An unknown error occurred"@,
    }
}

/// The remediation hint for a status code, where one is offered.
pub open spec fn hint_for(status: u16) -> Option<Seq<char>> {
    if status == 401 {
        Some("Your session may have expired. Try signing in again."@)
    } else if status == 403 {
        Some("You don't have permission. Check your Azure RBAC role or access policy."@)
    } else if status == 404 {
        Some("The resource was not found. It may have been deleted."@)
    } else if status == 429 {
        Some("Too many requests. The app applied retry with backoff."@)
    } else {
        None
    }
}

/// The full rendered error: `[status] code: message`, with the hint
/// appended where one exists.
pub open spec fn error_text_spec(body: JsonValue, status: u16) -> Seq<char> {
    let base = seq!['['] + dec_str(status as nat) + "] "@ + error_code_spec(body) + ": "@
        + error_message_spec(body);
    match hint_for(status) {
        Some(h) => base + " | Hint: "@ + h,
        None => base,
    }
}

/// Formats a failing response into a user-facing message with a
/// remediation hint for common status codes.
pub fn parse_error(body: &JsonValue, status: u16) -> (r: String)
    ensures
        r@ == error_text_spec(*body, status),
{
    let mut out: Vec<char> = Vec::new();
    out.push('[');
    let status_text = u64_to_string(status as u64);
    push_str_chars(&mut out, status_text.as_str());
    push_str_chars(&mut out, "] ");
    match get_field(body, "error") {
        Some(e) => {
            match get_str(e, "code") {
                Some(c) => push_str_chars(&mut out, c.as_str()),
                None => push_str_chars(&mut out, "UnknownError"),
            }
        },
        None => push_str_chars(&mut out, "UnknownError"),
    }
    proof {
        assert(out@ =~= seq!['['] + dec_str(status as nat) + "] "@ + error_code_spec(*body));
    }
    push_str_chars(&mut out, ": ");
    let mut message_done: bool = false;
    match get_field(body, "error") {
        Some(e) => {
            match get_str(e, "message") {
                Some(m) => {
                    push_str_chars(&mut out, m.as_str());
                    message_done = true;
                },
                None => {},
            }
        },
        None => {},
    }
    if !message_done {
        match get_str(body, "error_description") {
            Some(d) => push_str_chars(&mut out, d.as_str()),
            None => push_str_chars(&mut out, "An unknown error occurred"),
        }
    }
    proof {
        assert(out@ =~= seq!['['] + dec_str(status as nat) + "] "@ + error_code_spec(*body) + ": "@
            + error_message_spec(*body));
    }
    if status == 401 {
        push_str_chars(&mut out, " | Hint: ");
        push_str_chars(&mut out, "Your session may have expired. Try signing in again.");
    } else if status == 403 {
        push_str_chars(&mut out, " | Hint: ");
        push_str_chars(
            &mut out,
            "You don't have permission. Check your Azure RBAC role or access policy.",
        );
    } else if status == 404 {
        push_str_chars(&mut out, " | Hint: ");
        push_str_chars(&mut out, "The resource was not found. It may have been deleted.");
    } else if status == 429 {
        push_str_chars(&mut out, " | Hint: ");
        push_str_chars(&mut out, "Too many requests. The app applied retry with backoff.");
    }
    proof {
        assert(out@ =~= error_text_spec(*body, status));
    }
    string_from_chars(&out)
}

/// What `retry_step` decides, as a relation between the attempt
/// number, the outcome, and the decision.
pub open spec fn retry_decision_spec(attempt: u64, outcome: HttpOutcome, r: RetryDecision) -> bool {
    match outcome {
        HttpOutcome::Transport(err) => if attempt < MAX_RETRIES {
            r == RetryDecision::Wait(backoff_secs_spec(attempt))
        } else {
            r matches RetryDecision::Fail(e) && e@ == "Network error: "@ + err@
        },
        HttpOutcome::Response { status, retry_after, body } => if success_status(status) {
            r == RetryDecision::Success(body)
        } else if transient_status(status) && attempt < MAX_RETRIES {
            r == RetryDecision::Wait(wait_secs_spec(retry_after, attempt))
        } else {
            r matches RetryDecision::Fail(e) && e@ == error_text_spec(body, status)
        },
    }
}

/// Classifies the outcome of one HTTP attempt. `attempt` counts the
/// attempts already made beyond the first (so the first call passes
/// zero); a `Wait` decision tells the caller to sleep that many
/// seconds and try again with `attempt + 1`.
pub fn retry_step(attempt: u64, outcome: HttpOutcome) -> (r: RetryDecision)
    ensures
        retry_decision_spec(attempt, outcome, r),
{
    match outcome {
        HttpOutcome::Transport(err) => {
            if attempt < MAX_RETRIES {
                RetryDecision::Wait(backoff_secs(attempt))
            } else {
                let mut out: Vec<char> = Vec::new();
                push_str_chars(&mut out, "Network error: ");
                push_str_chars(&mut out, err.as_str());
                RetryDecision::Fail(string_from_chars(&out))
            }
        },
        HttpOutcome::Response { status, retry_after, body } => {
            if 200 <= status && status < 300 {
                RetryDecision::Success(body)
            } else if (status == 429 || (500 <= status && status < 600)) && attempt < MAX_RETRIES {
                let wait = match retry_after {
                    Some(s) => s,
                    None => backoff_secs(attempt),
                };
                RetryDecision::Wait(wait)
            } else {
                RetryDecision::Fail(parse_error(&body, status))
            }
        },
    }
}

/// Checks the allowlist gate before a request leaves: a blocked URL
/// is a terminal error and is never retried.
pub fn request_gate(url: &str) -> (r: Result<(), String>)
    ensures
        r is Ok <==> allowed_url_spec(url@),
        match r {
            Ok(_) => true,
            Err(e) => e@ == "Blocked outbound request to non-Azure endpoint."@,
        },
{
    if is_allowed_azure_url(url) {
        Ok(())
    } else {
        Err(String::from_str("Blocked outbound request to non-Azure endpoint."))
    }
}

} // verus!
