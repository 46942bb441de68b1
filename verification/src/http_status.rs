//! HTTP status classification used by every transport-facing decision.

use vstd::prelude::*;
use vstd::string::*;

verus! {

/// Whether a status code lies in the success class, 200 to 299.
pub open spec fn spec_is_success(status: u16) -> bool {
    200 <= status < 300
}

/// Whether a status code reports rejected credentials: 401 or 403.
pub open spec fn spec_is_auth_error(status: u16) -> bool {
    status == 401 || status == 403
}

/// Tells whether `status` lies in the success class.
pub fn is_success(status: u16) -> (ok: bool)
    ensures
        ok == spec_is_success(status),
{
    200 <= status && status < 300
}

/// Tells whether `status` reports rejected credentials.
pub fn is_auth_error(status: u16) -> (rejected: bool)
    ensures
        rejected == spec_is_auth_error(status),
{
    status == 401 || status == 403
}

/// Whether `status` is a code that HTTP can carry: three digits, the first
/// not zero.
pub open spec fn spec_is_status(status: u16) -> bool {
    100 <= status <= 999
}

/// The text in which a status code is shown to people: the number, a space
/// and the reason phrase that the `http` crate gives for it.
pub uninterp spec fn status_display(status: u16) -> Seq<char>;

/// `reqwest::StatusCode::from_u16` followed by `to_string` on the status it
/// makes. The contract names the text after the code alone; outside 100 to
/// 999 the outside function makes no status, so such codes are left out.
#[verifier::external_body]
pub(crate) fn status_text(status: u16) -> (text: String)
    requires
        spec_is_status(status),
    ensures
        text@ == status_display(status),
{
    match reqwest::StatusCode::from_u16(status) {
        Ok(code) => code.to_string(),
        Err(_) => String::new(),
    }
}

/// The message for a request that a provider answered with a failure:
/// `<what> (<status as shown>): <body><tail>`.
pub open spec fn spec_failure_message(
    what: Seq<char>,
    status: u16,
    body: Seq<char>,
    tail: Seq<char>,
) -> Seq<char> {
    what + " ("@ + status_display(status) + "): "@ + body + tail
}

/// Builds the message for a request that a provider answered with a failure.
pub fn failure_message(what: &str, status: u16, body: &str, tail: &str) -> (message: String)
    requires
        spec_is_status(status),
    ensures
        message@ == spec_failure_message(what@, status, body@, tail@),
{
    let shown = status_text(status);
    let mut out = String::from_str(what);
    out.append(" (");
    out.append(shown.as_str());
    out.append("): ");
    out.append(body);
    out.append(tail);
    out
}

} // verus!
