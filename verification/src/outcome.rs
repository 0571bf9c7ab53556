//! Classification of a single probe: an HTTP response or a transport failure
//! becomes a structured `CheckResult`, never an error propagated to the
//! caller.

use vstd::prelude::*;
use crate::numeral::{dec_seq, u64_to_dec};

verus! {

/// The structured result of one probe of one target. Exactly one of "success
/// with a status code" or "failure with an error text" holds; the response
/// time is present whenever the probe itself completed.
pub struct CheckResult {
    pub name: String,
    pub url: String,
    pub success: bool,
    pub error: Option<String>,
    pub status_code: Option<u16>,
    pub response_time_ms: Option<u64>,
}

/// Well-formedness of an outcome: a success carries a status code and no
/// error text; a failure carries an error text.
pub open spec fn outcome_wf(r: CheckResult) -> bool {
    &&& r.success ==> r.error is None && r.status_code is Some
    &&& !r.success ==> r.error is Some
}

impl Clone for CheckResult {
    fn clone(&self) -> (r: Self)
        ensures
            r == *self,
    {
        CheckResult {
            name: self.name.clone(),
            url: self.url.clone(),
            success: self.success,
            error: match &self.error {
                Some(e) => Some(e.clone()),
                None => None,
            },
            status_code: self.status_code,
            response_time_ms: self.response_time_ms,
        }
    }
}

/// Why a probe failed without an HTTP response. `Other` carries the
/// transport's own description.
pub enum FailureKind {
    Timeout,
    ConnectionFailed,
    RequestFailed,
    Other(String),
}

/// How each failure cause reads in an outcome's error text.
pub open spec fn failure_message_spec(k: FailureKind) -> Seq<char> {
    match k {
        FailureKind::Timeout => "Timeout"@,
        FailureKind::ConnectionFailed => "Connection failed"@,
        FailureKind::RequestFailed => "Request failed"@,
        FailureKind::Other(d) => "Error: "@ + d@,
    }
}

/// The cause of a failed probe, classified from the transport's own flags:
/// a deadline exceeded outranks a connection failure, which outranks a
/// rejected request; anything else keeps the transport's description.
pub open spec fn classify_failure_spec(
    timed_out: bool,
    connect_failed: bool,
    request_failed: bool,
    description: String,
) -> FailureKind {
    if timed_out {
        FailureKind::Timeout
    } else if connect_failed {
        FailureKind::ConnectionFailed
    } else if request_failed {
        FailureKind::RequestFailed
    } else {
        FailureKind::Other(description)
    }
}

/// Classifies a failed probe from the transport's flags.
pub fn classify_failure(
    timed_out: bool,
    connect_failed: bool,
    request_failed: bool,
    description: String,
) -> (k: FailureKind)
    ensures
        k == classify_failure_spec(timed_out, connect_failed, request_failed, description),
{
    if timed_out {
        FailureKind::Timeout
    } else if connect_failed {
        FailureKind::ConnectionFailed
    } else if request_failed {
        FailureKind::RequestFailed
    } else {
        FailureKind::Other(description)
    }
}

/// Renders a failure cause as the error text of an outcome.
pub fn failure_message(kind: &FailureKind) -> (msg: String)
    ensures
        msg@ == failure_message_spec(*kind),
{
    match kind {
        FailureKind::Timeout => String::from_str("Timeout"),
        FailureKind::ConnectionFailed => String::from_str("Connection failed"),
        FailureKind::RequestFailed => String::from_str("Request failed"),
        FailureKind::Other(d) => String::from_str("Error: ").concat(d.as_str()),
    }
}

/// The status codes that count as success: the 2xx class.
pub open spec fn status_is_success(status: u16) -> bool {
    200 <= status && status <= 299
}

/// The error text of an outcome whose probe drew an HTTP response outside
/// the 2xx class.
pub open spec fn http_error_text(status: u16) -> Seq<char> {
    "HTTP "@ + dec_seq(status as nat)
}

/// The outcome of a probe that drew an HTTP response: success exactly on a
/// 2xx status, otherwise a failure whose error text names the status.
pub fn outcome_from_response(name: String, url: String, status: u16, elapsed_ms: u64) -> (r:
    CheckResult)
    ensures
        r.name == name,
        r.url == url,
        r.success == status_is_success(status),
        r.status_code == Some(status),
        r.response_time_ms == Some(elapsed_ms),
        status_is_success(status) ==> r.error is None,
        !status_is_success(status) ==> (r.error matches Some(e) && e@ == http_error_text(status)),
        outcome_wf(r),
{
    let success = 200 <= status && status <= 299;
    let error = if success {
        None
    } else {
        let mut e = String::from_str("HTTP ");
        let digits = u64_to_dec(status as u64);
        e.append(digits.as_str());
        Some(e)
    };
    CheckResult {
        name,
        url,
        success,
        error,
        status_code: Some(status),
        response_time_ms: Some(elapsed_ms),
    }
}

/// The outcome of a probe that drew no HTTP response: always a failure, with
/// no status code, carrying the classified cause as its error text.
pub fn outcome_from_failure(name: String, url: String, kind: &FailureKind, elapsed_ms: u64) -> (r:
    CheckResult)
    ensures
        r.name == name,
        r.url == url,
        r.success == false,
        r.status_code is None,
        r.response_time_ms == Some(elapsed_ms),
        r.error matches Some(e) && e@ == failure_message_spec(*kind),
        outcome_wf(r),
{
    CheckResult {
        name,
        url,
        success: false,
        error: Some(failure_message(kind)),
        status_code: None,
        response_time_ms: Some(elapsed_ms),
    }
}

} // verus!
