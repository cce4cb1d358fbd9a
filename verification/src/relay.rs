//! Per-request relay logic: configuration check, decode, render, and the
//! mapping of every outcome to the response for the original caller.
//!
//! The functions here are pure decisions: the surrounding program performs
//! the one network call (the outbound POST) and hands its outcome back to
//! [`conclude_relay`].  No failure is retried; each ends the request with
//! the response stated in the contracts.

use vstd::prelude::*;

use crate::decode::{decode_alert, spec_decode};
use crate::json::{parse_json, spec_parse_json};
use crate::payload::{build_payload, spec_payload};
use crate::render::{format_alert_message, spec_message};

verus! {

/// The response handed back to the original caller.
pub struct RelayResponse {
    pub status: u16,
    pub body: String,
}

/// The failure kinds of one relay request.
pub enum RelayError {
    /// The destination webhook URL is not configured.
    ConfigurationMissing,
    /// The inbound payload did not decode; the message names the reason.
    Decode(String),
    /// The forwarding call could not be completed at all.
    ForwardTransport,
    /// The destination answered with a status other than 200.
    ForwardRejected,
}

/// The outbound POST that forwards the rendered message.
pub struct OutboundPost {
    pub url: String,
    pub content_type: String,
    pub body: Vec<u8>,
}

/// What a request's intake decided: answer the caller at once, or forward
/// the rendered message and conclude from the destination's answer.
pub enum RelayPlan {
    Respond(RelayResponse),
    Forward(OutboundPost),
}

/// Maps a failure to the response it ends the request with: configuration
/// and forwarding failures are server-side (500, the transport detail kept
/// out of the body), a decode failure is the caller's (400, with the
/// reason).
pub fn response_of(e: RelayError) -> (r: RelayResponse)
    ensures
        e is ConfigurationMissing ==> r.status == 500 && r.body@
            == "Configuration error: missing webhook URL"@,
        e matches RelayError::Decode(m) ==> r.status == 400 && r.body@
            == "Invalid alert payload: "@ + m@,
        e is ForwardTransport ==> r.status == 500 && r.body@ == "Failed to send to Slack"@,
        e is ForwardRejected ==> r.status == 500 && r.body@ == "Failed to send to Slack"@,
{
    match e {
        RelayError::ConfigurationMissing => RelayResponse {
            status: 500,
            body: String::from_str("Configuration error: missing webhook URL"),
        },
        RelayError::Decode(m) => {
            let mut body = String::from_str("Invalid alert payload: ");
            body.append(m.as_str());
            RelayResponse { status: 400, body }
        },
        RelayError::ForwardTransport => RelayResponse {
            status: 500,
            body: String::from_str("Failed to send to Slack"),
        },
        RelayError::ForwardRejected => RelayResponse {
            status: 500,
            body: String::from_str("Failed to send to Slack"),
        },
    }
}

/// Plans the handling of one inbound request body under the given
/// configuration: without a webhook URL the request ends with a 500; a body
/// that does not parse or decode ends with a 400 naming the reason and
/// nothing is forwarded; otherwise the plan is to POST the payload built
/// from the rendered message, as `application/json`, to the webhook URL.
pub fn plan_relay(
    webhook_url: &Option<String>,
    dashboard_url: &Option<String>,
    request_body: &[u8],
) -> (p: RelayPlan)
    ensures
        webhook_url is None ==> (p matches RelayPlan::Respond(r) && r.status == 500 && r.body@
            == "Configuration error: missing webhook URL"@),
        webhook_url matches Some(u) ==> match spec_parse_json(request_body@) {
            Err(m) => p matches RelayPlan::Respond(r) && r.status == 400 && r.body@
                == "Invalid alert payload: "@ + m,
            Ok(doc) => match spec_decode(doc) {
                Err(m) => p matches RelayPlan::Respond(r) && r.status == 400 && r.body@
                    == "Invalid alert payload: "@ + m,
                Ok(av) => p matches RelayPlan::Forward(post) && post.url@ == u@
                    && post.content_type@ == "application/json"@ && post.body@ == spec_payload(
                    spec_message(av, dashboard_url.deep_view()),
                ),
            },
        },
{
    let url = match webhook_url {
        Option::Some(u) => u.clone(),
        Option::None => return RelayPlan::Respond(response_of(RelayError::ConfigurationMissing)),
    };
    let doc = match parse_json(request_body) {
        Ok(d) => d,
        Err(m) => return RelayPlan::Respond(response_of(RelayError::Decode(m))),
    };
    let alert = match decode_alert(&doc) {
        Ok(a) => a,
        Err(m) => return RelayPlan::Respond(response_of(RelayError::Decode(m))),
    };
    let message = format_alert_message(&alert, dashboard_url);
    let body = build_payload(message.as_str());
    RelayPlan::Forward(
        OutboundPost { url, content_type: String::from_str("application/json"), body },
    )
}

/// Maps the forwarding call's outcome to the caller's response: 200 with an
/// empty body exactly when the destination answered 200; otherwise 500 with
/// the fixed diagnostic body.  `None` stands for a transport failure that
/// produced no status at all.
pub fn conclude_relay(forward_status: Option<u16>) -> (r: RelayResponse)
    ensures
        forward_status == Some(200u16) ==> r.status == 200 && r.body@ == Seq::<char>::empty(),
        forward_status != Some(200u16) ==> r.status == 500 && r.body@
            == "Failed to send to Slack"@,
{
    match forward_status {
        Option::Some(s) => {
            if s == 200 {
                RelayResponse { status: 200, body: String::new() }
            } else {
                response_of(RelayError::ForwardRejected)
            }
        },
        Option::None => response_of(RelayError::ForwardTransport),
    }
}

} // verus!
