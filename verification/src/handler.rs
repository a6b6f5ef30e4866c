//! The webhook handler: parse the inbound body, require the signature
//! header, check freshness, verify the signature, and on success parse the
//! inner event, stamp it with the receive time and compute the latency
//! deltas.
//!
//! As in the flow this hardens, a stale delivery is recorded as rejected but
//! the signature is still verified, and a verified delivery still has its
//! inner event parsed and its deltas computed; the response is 200 only when
//! every step passed. A failure to parse the inner event of a verified
//! delivery is a rejection, not a crash.

use vstd::prelude::*;
use crate::freshness::{fresh_at, is_fresh_at, now_unix_millis, FRESHNESS_WINDOW_SECONDS};
use crate::model::{parse_model, sp_model, ModelView, MomentoModel};
use crate::payload::{parse_payload, sp_payload, MomentoPayload};
use crate::signature::{expected_signature, verify_signature};

verus! {

/// What the handler answers: the HTTP status and JSON body, and - when the
/// signature verified and the inner event parsed - the stamped event and the
/// two latency deltas.
pub struct WebhookOutcome {
    pub status: u16,
    pub body: String,
    pub model: Option<MomentoModel>,
    /// Receive stamp minus the envelope's publish timestamp, milliseconds.
    pub mo_delta: Option<i64>,
    /// Receive stamp minus the inner event's publish timestamp, milliseconds.
    pub receiver_delta: Option<i64>,
}

/// The response body on the fully successful path.
pub open spec fn success_body() -> Seq<char> {
    "{\"message\":\"Success\"}"@
}

/// The response body on every rejection.
pub open spec fn unauthorized_body() -> Seq<char> {
    "{\"message\":\"Unauthorized\"}"@
}

/// The signature header is present, the body is a canonical payload, and the
/// header equals the expected signature of that payload under the secret.
pub open spec fn signature_ok(secret: Seq<char>, body: Seq<char>, sig: Option<Seq<char>>) -> bool {
    &&& sig is Some
    &&& sp_payload(body) is Some
    &&& sig->0 == expected_signature(secret, sp_payload(body)->0)
}

/// Every gate of the handler passes: header present, body canonical, publish
/// timestamp fresh at `now_ms`, signature correct, and the inner event
/// parses from the payload's text.
pub open spec fn authorized(secret: Seq<char>, body: Seq<char>, sig: Option<Seq<char>>, now_ms: u64) -> bool {
    &&& signature_ok(secret, body, sig)
    &&& fresh_at(sp_payload(body)->0.publish_timestamp as i64, now_ms, FRESHNESS_WINDOW_SECONDS)
    &&& sp_model(sp_payload(body)->0.text) is Some
}

/// The event as the handler stamps it: the parsed event with the receive
/// time set.
pub open spec fn stamped(v: ModelView, received: int) -> ModelView {
    ModelView { received_timestamp: Some(received), ..v }
}

/// A latency delta, where it fits in a signed 64-bit count of milliseconds.
pub open spec fn delta_opt(received: int, published: int) -> Option<i64> {
    if i64::MIN <= received - published <= i64::MAX {
        Some((received - published) as i64)
    } else {
        None
    }
}

/// Everything `handle_webhook` promises of its outcome, for a given secret,
/// body, signature header, clock reading and receive stamp.
pub open spec fn handler_post(
    r: WebhookOutcome,
    secret: Seq<char>,
    body: Seq<char>,
    sig: Option<Seq<char>>,
    now_ms: u64,
    received_ms: i64,
) -> bool {
    &&& r.status == 200 || r.status == 403
    &&& (r.status == 200 <==> authorized(secret, body, sig, now_ms))
    &&& (r.status == 200 ==> r.body@ == success_body())
    &&& (r.status == 403 ==> r.body@ == unauthorized_body())
    &&& (signature_ok(secret, body, sig) && sp_model(sp_payload(body)->0.text) is Some ==> {
        let pv = sp_payload(body)->0;
        let mv = sp_model(pv.text)->0;
        &&& (match r.model {
            Some(m) => m@ == stamped(mv, received_ms as int),
            None => false,
        })
        &&& r.mo_delta == delta_opt(received_ms as int, pv.publish_timestamp)
        &&& r.receiver_delta == delta_opt(received_ms as int, mv.published_timestamp)
    })
    &&& (!(signature_ok(secret, body, sig) && sp_model(sp_payload(body)->0.text) is Some) ==> {
        &&& r.model is None
        &&& r.mo_delta is None
        &&& r.receiver_delta is None
    })
}

/// The view of the optional signature header.
pub open spec fn header_view(h: Option<&str>) -> Option<Seq<char>> {
    match h {
        Some(s) => Some(s@),
        None => None,
    }
}

/// Computes a latency delta in wide arithmetic; None where it does not fit.
fn delta_ms(received_ms: i64, published_ms: i64) -> (r: Option<i64>)
    ensures
        r == delta_opt(received_ms as int, published_ms as int),
{
    let wide: i128 = (received_ms as i128) - (published_ms as i128);
    if i64::MIN as i128 <= wide && wide <= i64::MAX as i128 {
        Some(wide as i64)
    } else {
        None
    }
}

/// Handles one webhook delivery against an explicit clock reading and
/// receive stamp. Pure: the decision depends only on the arguments.
pub fn handle_webhook(
    secret_string: &str,
    body: &str,
    signature_header: Option<&str>,
    now_ms: u64,
    received_ms: i64,
) -> (r: WebhookOutcome)
    ensures
        handler_post(r, secret_string@, body@, header_view(signature_header), now_ms, received_ms),
{
    let mut success = true;
    let mut model_out: Option<MomentoModel> = None;
    let mut mo_delta: Option<i64> = None;
    let mut receiver_delta: Option<i64> = None;
    match signature_header {
        None => {
            success = false;
        },
        Some(sig) => {
            match parse_payload(body) {
                Err(_) => {
                    success = false;
                },
                Ok(payload) => {
                    let fresh = is_fresh_at(payload.publish_timestamp, now_ms, FRESHNESS_WINDOW_SECONDS);
                    if !fresh {
                        success = false;
                    }
                    let verified = verify_signature(&payload, secret_string, sig);
                    if verified {
                        match parse_model(payload.text.as_str()) {
                            Ok(inner) => {
                                let mut stamped_model = inner;
                                stamped_model.received_timestamp = Some(received_ms);
                                mo_delta = delta_ms(received_ms, payload.publish_timestamp);
                                receiver_delta = delta_ms(received_ms, stamped_model.published_timestamp);
                                model_out = Some(stamped_model);
                            },
                            Err(_) => {
                                success = false;
                            },
                        }
                    } else {
                        success = false;
                    }
                },
            }
        },
    }
    let status: u16 = if success { 200 } else { 403 };
    let body_text: String = if success {
        "{\"message\":\"Success\"}".to_owned()
    } else {
        "{\"message\":\"Unauthorized\"}".to_owned()
    };
    WebhookOutcome {
        status,
        body: body_text,
        model: model_out,
        mo_delta,
        receiver_delta,
    }
}

/// Handles one webhook delivery against the wall clock: the freshness gate
/// and the receive stamp both read the clock now. Everything promised of
/// `handle_webhook` holds for those readings.
pub fn function_handler(secret_string: &str, body: &str, signature_header: Option<&str>) -> (r: WebhookOutcome)
    ensures
        exists|now_ms: u64, received_ms: i64|
            handler_post(r, secret_string@, body@, header_view(signature_header), now_ms, received_ms),
{
    let now = now_unix_millis();
    let received: i64 = if now > i64::MAX as u64 {
        i64::MAX
    } else {
        now as i64
    };
    let r = handle_webhook(secret_string, body, signature_header, now, received);
    proof {
        assert(handler_post(r, secret_string@, body@, header_view(signature_header), now, received));
    }
    r
}

} // verus!
