//! What the sidecar's own HTTP endpoints need: the listen address and the
//! envelope in which a status is reported.

use crate::config::{BalancerConfig, BalancerConfigView};
use crate::text::{decimal, decimal_string};
use std::sync::Arc;
use vstd::prelude::*;
use vstd::string::*;

verus! {

/// The address to listen on: the configured address and port, joined by a
/// colon.
pub open spec fn listen_host(config: BalancerConfigView) -> Seq<char> {
    config.http.address + ":"@ + decimal(config.http.port as nat)
}

/// The address to listen on, as `address:port`.
pub fn get_listen_host(config: Arc<BalancerConfig>) -> (listen_address: String)
    ensures
        listen_address@ == listen_host((*config)@),
{
    let mut listen_address = config.http.address.clone();
    listen_address.append(":");
    listen_address.append(decimal_string(config.http.port).as_str());
    listen_address
}

/// The reason phrase that `hyper::StatusCode::canonical_reason` gives for
/// the status code `code`, where `code` is a status code at all, that is,
/// lies between 100 and 999; `None` where the code has no such phrase.
pub uninterp spec fn canonical_reason(code: u16) -> Option<Seq<char>>;

/// Calls `hyper::StatusCode::canonical_reason` on the status code that
/// `hyper::StatusCode::from_u16` makes of `code`. The phrase depends on the
/// code alone, and the contract gives it the name [`canonical_reason`]. Of
/// the table of phrases it states two lines: 200 is "OK" and 418 is
/// "I'm a teapot".
#[verifier::external_body]
fn status_canonical_reason(code: u16) -> (reason: Option<String>)
    requires
        100 <= code <= 999,
    ensures
        reason.deep_view() == canonical_reason(code),
        code == 200 ==> reason.deep_view() == Some("OK"@),
        code == 418 ==> reason.deep_view() == Some("I'm a teapot"@),
{
    match hyper::StatusCode::from_u16(code) {
        Ok(status) => match status.canonical_reason() {
            Some(phrase) => Some(phrase.to_owned()),
            None => None,
        },
        Err(_) => None,
    }
}

/// A status as the sidecar's endpoints report it.
#[derive(Debug, PartialEq, Eq)]
pub struct StatusEnvelope {
    /// Whether the code stands for success.
    pub ok: bool,
    pub code: u16,
    /// The reason phrase of the code, if it has one.
    pub msg: Option<String>,
}

/// The mathematical value of a [`StatusEnvelope`].
pub struct StatusEnvelopeView {
    pub ok: bool,
    pub code: u16,
    pub msg: Option<Seq<char>>,
}

impl View for StatusEnvelope {
    type V = StatusEnvelopeView;

    open spec fn view(&self) -> StatusEnvelopeView {
        StatusEnvelopeView { ok: self.ok, code: self.code, msg: self.msg.deep_view() }
    }
}

/// Whether `code` is an HTTP status code: a number of three digits.
pub open spec fn is_status_code(code: u16) -> bool {
    100 <= code <= 999
}

/// The envelope for `code`, given its reason phrase. A number that is no
/// status code is no success and has no phrase.
pub open spec fn envelope(code: u16, reason: Option<Seq<char>>) -> StatusEnvelopeView {
    StatusEnvelopeView {
        ok: 200 <= code <= 299,
        code,
        msg: if is_status_code(code) {
            reason
        } else {
            None
        },
    }
}

/// The status code that reports eligibility: 200 for an eligible node, 418
/// for any other.
pub open spec fn eligibility_code(eligible: bool) -> u16 {
    if eligible {
        200
    } else {
        418
    }
}

/// The status code with which the sidecar answers the question whether the
/// node is eligible.
pub fn eligibility_status_code(eligible: bool) -> (code: u16)
    ensures
        code == eligibility_code(eligible),
        is_status_code(code),
{
    if eligible {
        200
    } else {
        418
    }
}

/// Puts a status code and its reason phrase into an envelope. The codes from
/// 200 to 299 stand for success.
pub fn status_envelope(code: u16, reason: Option<String>) -> (response: StatusEnvelope)
    ensures
        response@ == envelope(code, reason.deep_view()),
{
    let ok = 200 <= code && code <= 299;
    if 100 <= code && code <= 999 {
        StatusEnvelope { ok, code, msg: reason }
    } else {
        StatusEnvelope { ok, code, msg: None }
    }
}

/// The envelope that reports the status `code`: whether it stands for
/// success, the code itself, and its reason phrase.
pub fn json_status_response(code: u16) -> (response: StatusEnvelope)
    ensures
        response@ == envelope(code, canonical_reason(code)),
        code == 200 ==> response@ == (StatusEnvelopeView { ok: true, code: 200, msg: Some("OK"@) }),
        code == 418 ==> response@ == (StatusEnvelopeView {
            ok: false,
            code: 418,
            msg: Some("I'm a teapot"@),
        }),
{
    if 100 <= code && code <= 999 {
        status_envelope(code, status_canonical_reason(code))
    } else {
        status_envelope(code, None)
    }
}

} // verus!
