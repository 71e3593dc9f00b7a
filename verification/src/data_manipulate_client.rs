//! What the `/train` handler makes of the scaling service's reply.
//!
//! The request itself is network I/O and is made outside this crate; the
//! decision on the reply's status, and the error the caller is answered with,
//! are taken here. A rejection from the scaler is passed back with its own
//! status: the data set it refuses is the one the caller sent. Any other
//! failure status becomes a `502`, because the fault is then this chain's.

use vstd::prelude::*;
use crate::decimal::decimal;
use crate::text::{trim, trimmed};

verus! {

/// The status `502 Bad Gateway`.
pub const BAD_GATEWAY: u16 = 502;

/// The reason phrase that `http::StatusCode` shows for `code` after the
/// number: its canonical reason, or `<unknown status code>` when the code has
/// none.
pub uninterp spec fn status_reason(code: u16) -> Seq<char>;

/// How `http::StatusCode` renders `code` with `{}`.
///
/// Calls `StatusCode::from_u16`, which accepts exactly the codes from 100 to
/// 999, and the status code's `Display`, which writes the number, a space and
/// the reason phrase.
#[verifier::external_body]
fn status_line(code: u16) -> (line: String)
    requires
        100 <= code <= 999,
    ensures
        line@ == decimal(code as nat) + " "@ + status_reason(code),
{
    match axum::http::StatusCode::from_u16(code) {
        Ok(status) => status.to_string(),
        Err(_) => String::new(),
    }
}

/// The status is one of a client error, `400` to `499`.
pub open spec fn is_client_error(status: u16) -> bool {
    400 <= status < 500
}

/// The status is one of success, `200` to `299`.
pub open spec fn is_success(status: u16) -> bool {
    200 <= status < 300
}

/// The text the caller gets when the scaler refused the data set.
pub open spec fn rejected_text(body: Seq<char>) -> Seq<char> {
    "the scaling service rejected the data set: "@ + trimmed(body)
}

/// The text the caller gets when the scaler failed with `status`.
pub open spec fn failed_text(status: u16, body: Seq<char>) -> Seq<char> {
    "the scaling service answered "@ + decimal(status as nat) + " "@ + status_reason(status)
        + ": "@ + trimmed(body)
}

/// Decides on the scaler's reply from its status and body: `Ok` when the body
/// is to be parsed as the scaled data set, otherwise the status and text that
/// the caller is answered with.
pub fn judge_scaler_reply(status: u16, body: &str) -> (res: Result<(), (u16, String)>)
    requires
        100 <= status <= 999,
    ensures
        is_client_error(status) ==> (res matches Err((code, text)) && code == status && text@
            == rejected_text(body@)),
        !is_client_error(status) && !is_success(status) ==> (res matches Err((code, text))
            && code == BAD_GATEWAY && text@ == failed_text(status, body@)),
        is_success(status) ==> res is Ok,
{
    if 400 <= status && status < 500 {
        let mut text = String::from_str("the scaling service rejected the data set: ");
        let detail = trim(body);
        text.append(detail.as_str());
        return Err((status, text));
    }
    if !(200 <= status && status < 300) {
        let mut text = String::from_str("the scaling service answered ");
        let line = status_line(status);
        text.append(line.as_str());
        text.append(": ");
        let detail = trim(body);
        text.append(detail.as_str());
        return Err((BAD_GATEWAY, text));
    }
    Ok(())
}

} // verus!
