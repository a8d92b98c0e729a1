use vstd::prelude::*;
use crate::textmatch::text_eq;

verus! {

/// How a REST call goes on once its status is known.
#[derive(PartialEq, Eq, Structural, Clone, Copy, Debug)]
pub enum ResponseOutcome {
    /// No resource: the call yields nothing.
    Empty,
    /// The shared secret was refused.
    AuthFailed,
    /// Any other failure status.
    Failed,
    /// A success status: read the body.
    Proceed,
}

/// Whether `status` is in the 2xx range.
pub open spec fn is_success(status: int) -> bool {
    200 <= status <= 299
}

/// The outcome of a response with `status`. With `empty_on_missing`, 404
/// and 204 mean that there is nothing; with `distinguish_auth`, 401 is an
/// authentication failure of its own.
pub open spec fn response_outcome_of(status: int, empty_on_missing: bool, distinguish_auth: bool) -> ResponseOutcome {
    if empty_on_missing && (status == 404 || status == 204) {
        ResponseOutcome::Empty
    } else if distinguish_auth && status == 401 {
        ResponseOutcome::AuthFailed
    } else if !is_success(status) {
        ResponseOutcome::Failed
    } else {
        ResponseOutcome::Proceed
    }
}

/// Decides how a REST call goes on from its status.
pub fn response_outcome(status: u16, empty_on_missing: bool, distinguish_auth: bool) -> (r: ResponseOutcome)
    ensures
        r == response_outcome_of(status as int, empty_on_missing, distinguish_auth),
{
    if empty_on_missing && (status == 404 || status == 204) {
        ResponseOutcome::Empty
    } else if distinguish_auth && status == 401 {
        ResponseOutcome::AuthFailed
    } else if status < 200 || status > 299 {
        ResponseOutcome::Failed
    } else {
        ResponseOutcome::Proceed
    }
}

/// Whether a body stands for "no active timer": empty, or the JSON `null`.
pub fn is_empty_body(text: &str) -> (r: bool)
    ensures
        r == (text@.len() == 0 || text@ == "null"@),
{
    text.unicode_len() == 0 || text_eq(text, "null")
}

/// The message shown when the backend refuses the shared secret.
pub fn auth_error_message() -> (r: String)
    ensures
        r@ == "Widget authentication failed. Check your secret."@,
{
    String::from_str("Widget authentication failed. Check your secret.")
}

} // verus!
