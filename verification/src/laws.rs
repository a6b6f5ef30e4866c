//! The crate-level laws: statements that relate several functions, proved
//! once and for all inputs.

use vstd::prelude::*;
use crate::freshness::{fresh_at, FRESHNESS_WINDOW_SECONDS};
use crate::handler::{authorized, handler_post, signature_ok, WebhookOutcome};
use crate::json::{
    esc_str, dec_int, lemma_sp_int_at, lemma_sp_lit_at, lemma_sp_string_of_escaped, sp_int,
    sp_lit, sp_string,
};
use crate::payload::{payload_json, payload_view_wf, sp_payload, token_json, PayloadView};
use crate::signature::expected_signature;

verus! {

/// The positions of the field values inside `payload_json(v)`: each is the
/// length of everything before it.
pub open spec fn rt_pos(v: PayloadView, k: int) -> int {
    let i1 = "{\"cache\":\""@.len() as int;
    let i2 = i1 + esc_str(v.cache).len() + 1;
    let i3 = i2 + ",\"topic\":\""@.len();
    let i4 = i3 + esc_str(v.topic).len() + 1;
    let i5 = i4 + ",\"event_timestamp\":"@.len();
    let i6 = i5 + dec_int(v.event_timestamp).len();
    let i7 = i6 + ",\"publish_timestamp\":"@.len();
    let i8 = i7 + dec_int(v.publish_timestamp).len();
    let i9 = i8 + ",\"topic_sequence_number\":"@.len();
    let i10 = i9 + dec_int(v.topic_sequence_number).len();
    let i11 = i10 + ",\"token_id\":"@.len() + token_json(v.token_id).len();
    let i12 = i11 + ",\"text\":\""@.len();
    let i13 = i12 + esc_str(v.text).len() + 1;
    if k == 1 { i1 } else if k == 2 { i2 } else if k == 3 { i3 } else if k == 4 { i4 }
    else if k == 5 { i5 } else if k == 6 { i6 } else if k == 7 { i7 } else if k == 8 { i8 }
    else if k == 9 { i9 } else if k == 10 { i10 } else if k == 11 { i11 }
    else if k == 12 { i12 } else if k == 13 { i13 } else { i13 + 1 }
}

#[verifier::rlimit(100)]
proof fn rt_step1(v: PayloadView)
    requires
        payload_view_wf(v),
    ensures
        sp_lit(payload_json(v), 0, "{\"cache\":\""@) == Some(rt_pos(v, 1)),
        sp_string(payload_json(v), rt_pos(v, 1)) == Some((v.cache, rt_pos(v, 2))),
{
    reveal_strlit("{\"cache\":\"");
    reveal_strlit(",\"topic\":\"");
    reveal_strlit(",\"event_timestamp\":");
    reveal_strlit(",\"publish_timestamp\":");
    reveal_strlit(",\"topic_sequence_number\":");
    reveal_strlit(",\"token_id\":");
    reveal_strlit(",\"text\":\"");
    reveal_strlit("}");
    reveal_strlit("null");
    let l1 = "{\"cache\":\""@;
    let l2 = ",\"topic\":\""@;
    let l3 = ",\"event_timestamp\":"@;
    let l4 = ",\"publish_timestamp\":"@;
    let l5 = ",\"topic_sequence_number\":"@;
    let l6 = ",\"token_id\":"@;
    let l7 = ",\"text\":\""@;
    let l8 = "}"@;
    let q = seq!['"'];
    let e1 = esc_str(v.cache);
    let e2 = esc_str(v.topic);
    let e7 = esc_str(v.text);
    let d3 = dec_int(v.event_timestamp);
    let d4 = dec_int(v.publish_timestamp);
    let d5 = dec_int(v.topic_sequence_number);
    let tk = token_json(v.token_id);
    let s = payload_json(v);
    assert(s =~= Seq::<char>::empty() + l1 + (e1 + q + l2 + e2 + q + l3 + d3 + l4 + d4 + l5
        + d5 + l6 + tk + l7 + e7 + q + l8));
    lemma_sp_lit_at(Seq::<char>::empty(), l1, e1 + q + l2 + e2 + q + l3 + d3 + l4 + d4 + l5
        + d5 + l6 + tk + l7 + e7 + q + l8);
    assert(s =~= l1 + e1 + q + (l2 + e2 + q + l3 + d3 + l4 + d4 + l5 + d5 + l6 + tk + l7 + e7
        + q + l8));
    lemma_sp_string_of_escaped(l1, v.cache, l2 + e2 + q + l3 + d3 + l4 + d4 + l5 + d5 + l6
        + tk + l7 + e7 + q + l8);
}

#[verifier::rlimit(100)]
proof fn rt_step2(v: PayloadView)
    requires
        payload_view_wf(v),
    ensures
        sp_lit(payload_json(v), rt_pos(v, 2), ",\"topic\":\""@) == Some(rt_pos(v, 3)),
        sp_string(payload_json(v), rt_pos(v, 3)) == Some((v.topic, rt_pos(v, 4))),
{
    reveal_strlit("{\"cache\":\"");
    reveal_strlit(",\"topic\":\"");
    reveal_strlit(",\"event_timestamp\":");
    reveal_strlit(",\"publish_timestamp\":");
    reveal_strlit(",\"topic_sequence_number\":");
    reveal_strlit(",\"token_id\":");
    reveal_strlit(",\"text\":\"");
    reveal_strlit("}");
    reveal_strlit("null");
    let l1 = "{\"cache\":\""@;
    let l2 = ",\"topic\":\""@;
    let l3 = ",\"event_timestamp\":"@;
    let l4 = ",\"publish_timestamp\":"@;
    let l5 = ",\"topic_sequence_number\":"@;
    let l6 = ",\"token_id\":"@;
    let l7 = ",\"text\":\""@;
    let l8 = "}"@;
    let q = seq!['"'];
    let e1 = esc_str(v.cache);
    let e2 = esc_str(v.topic);
    let e7 = esc_str(v.text);
    let d3 = dec_int(v.event_timestamp);
    let d4 = dec_int(v.publish_timestamp);
    let d5 = dec_int(v.topic_sequence_number);
    let tk = token_json(v.token_id);
    let s = payload_json(v);
    let p2 = l1 + e1 + q;
    assert(s =~= p2 + l2 + (e2 + q + l3 + d3 + l4 + d4 + l5 + d5 + l6 + tk + l7 + e7 + q + l8));
    lemma_sp_lit_at(p2, l2, e2 + q + l3 + d3 + l4 + d4 + l5 + d5 + l6 + tk + l7 + e7 + q + l8);
    assert(s =~= (p2 + l2) + e2 + q + (l3 + d3 + l4 + d4 + l5 + d5 + l6 + tk + l7 + e7 + q
        + l8));
    lemma_sp_string_of_escaped(p2 + l2, v.topic, l3 + d3 + l4 + d4 + l5 + d5 + l6 + tk + l7
        + e7 + q + l8);
}

#[verifier::rlimit(100)]
proof fn rt_step3(v: PayloadView)
    requires
        payload_view_wf(v),
    ensures
        sp_lit(payload_json(v), rt_pos(v, 4), ",\"event_timestamp\":"@) == Some(rt_pos(v, 5)),
        sp_int(payload_json(v), rt_pos(v, 5)) == Some((v.event_timestamp, rt_pos(v, 6))),
{
    reveal_strlit("{\"cache\":\"");
    reveal_strlit(",\"topic\":\"");
    reveal_strlit(",\"event_timestamp\":");
    reveal_strlit(",\"publish_timestamp\":");
    reveal_strlit(",\"topic_sequence_number\":");
    reveal_strlit(",\"token_id\":");
    reveal_strlit(",\"text\":\"");
    reveal_strlit("}");
    reveal_strlit("null");
    let l1 = "{\"cache\":\""@;
    let l2 = ",\"topic\":\""@;
    let l3 = ",\"event_timestamp\":"@;
    let l4 = ",\"publish_timestamp\":"@;
    let l5 = ",\"topic_sequence_number\":"@;
    let l6 = ",\"token_id\":"@;
    let l7 = ",\"text\":\""@;
    let l8 = "}"@;
    let q = seq!['"'];
    let e1 = esc_str(v.cache);
    let e2 = esc_str(v.topic);
    let e7 = esc_str(v.text);
    let d3 = dec_int(v.event_timestamp);
    let d4 = dec_int(v.publish_timestamp);
    let d5 = dec_int(v.topic_sequence_number);
    let tk = token_json(v.token_id);
    let s = payload_json(v);
    let p3 = l1 + e1 + q + l2 + e2 + q;
    assert(s =~= p3 + l3 + (d3 + l4 + d4 + l5 + d5 + l6 + tk + l7 + e7 + q + l8));
    lemma_sp_lit_at(p3, l3, d3 + l4 + d4 + l5 + d5 + l6 + tk + l7 + e7 + q + l8);
    assert(s =~= (p3 + l3) + d3 + (l4 + d4 + l5 + d5 + l6 + tk + l7 + e7 + q + l8));
    let t3 = l4 + d4 + l5 + d5 + l6 + tk + l7 + e7 + q + l8;
    assert(t3[0] == ',' && !crate::json::is_digit(','));
    lemma_sp_int_at(p3 + l3, v.event_timestamp, t3);
}

#[verifier::rlimit(100)]
proof fn rt_step4(v: PayloadView)
    requires
        payload_view_wf(v),
    ensures
        sp_lit(payload_json(v), rt_pos(v, 6), ",\"publish_timestamp\":"@) == Some(rt_pos(v, 7)),
        sp_int(payload_json(v), rt_pos(v, 7)) == Some((v.publish_timestamp, rt_pos(v, 8))),
{
    reveal_strlit("{\"cache\":\"");
    reveal_strlit(",\"topic\":\"");
    reveal_strlit(",\"event_timestamp\":");
    reveal_strlit(",\"publish_timestamp\":");
    reveal_strlit(",\"topic_sequence_number\":");
    reveal_strlit(",\"token_id\":");
    reveal_strlit(",\"text\":\"");
    reveal_strlit("}");
    reveal_strlit("null");
    let l1 = "{\"cache\":\""@;
    let l2 = ",\"topic\":\""@;
    let l3 = ",\"event_timestamp\":"@;
    let l4 = ",\"publish_timestamp\":"@;
    let l5 = ",\"topic_sequence_number\":"@;
    let l6 = ",\"token_id\":"@;
    let l7 = ",\"text\":\""@;
    let l8 = "}"@;
    let q = seq!['"'];
    let e1 = esc_str(v.cache);
    let e2 = esc_str(v.topic);
    let e7 = esc_str(v.text);
    let d3 = dec_int(v.event_timestamp);
    let d4 = dec_int(v.publish_timestamp);
    let d5 = dec_int(v.topic_sequence_number);
    let tk = token_json(v.token_id);
    let s = payload_json(v);
    let p4 = l1 + e1 + q + l2 + e2 + q + l3 + d3;
    assert(s =~= p4 + l4 + (d4 + l5 + d5 + l6 + tk + l7 + e7 + q + l8));
    lemma_sp_lit_at(p4, l4, d4 + l5 + d5 + l6 + tk + l7 + e7 + q + l8);
    assert(s =~= (p4 + l4) + d4 + (l5 + d5 + l6 + tk + l7 + e7 + q + l8));
    let t4 = l5 + d5 + l6 + tk + l7 + e7 + q + l8;
    assert(t4[0] == ',' && !crate::json::is_digit(','));
    lemma_sp_int_at(p4 + l4, v.publish_timestamp, t4);
}

#[verifier::rlimit(100)]
proof fn rt_step5(v: PayloadView)
    requires
        payload_view_wf(v),
    ensures
        sp_lit(payload_json(v), rt_pos(v, 8), ",\"topic_sequence_number\":"@) == Some(rt_pos(v, 9)),
        sp_int(payload_json(v), rt_pos(v, 9)) == Some((v.topic_sequence_number, rt_pos(v, 10))),
{
    reveal_strlit("{\"cache\":\"");
    reveal_strlit(",\"topic\":\"");
    reveal_strlit(",\"event_timestamp\":");
    reveal_strlit(",\"publish_timestamp\":");
    reveal_strlit(",\"topic_sequence_number\":");
    reveal_strlit(",\"token_id\":");
    reveal_strlit(",\"text\":\"");
    reveal_strlit("}");
    reveal_strlit("null");
    let l1 = "{\"cache\":\""@;
    let l2 = ",\"topic\":\""@;
    let l3 = ",\"event_timestamp\":"@;
    let l4 = ",\"publish_timestamp\":"@;
    let l5 = ",\"topic_sequence_number\":"@;
    let l6 = ",\"token_id\":"@;
    let l7 = ",\"text\":\""@;
    let l8 = "}"@;
    let q = seq!['"'];
    let e1 = esc_str(v.cache);
    let e2 = esc_str(v.topic);
    let e7 = esc_str(v.text);
    let d3 = dec_int(v.event_timestamp);
    let d4 = dec_int(v.publish_timestamp);
    let d5 = dec_int(v.topic_sequence_number);
    let tk = token_json(v.token_id);
    let s = payload_json(v);
    let p5 = l1 + e1 + q + l2 + e2 + q + l3 + d3 + l4 + d4;
    assert(s =~= p5 + l5 + (d5 + l6 + tk + l7 + e7 + q + l8));
    lemma_sp_lit_at(p5, l5, d5 + l6 + tk + l7 + e7 + q + l8);
    assert(s =~= (p5 + l5) + d5 + (l6 + tk + l7 + e7 + q + l8));
    let t5 = l6 + tk + l7 + e7 + q + l8;
    assert(t5[0] == ',' && !crate::json::is_digit(','));
    lemma_sp_int_at(p5 + l5, v.topic_sequence_number, t5);
}

#[verifier::rlimit(100)]
proof fn rt_step6(v: PayloadView)
    requires
        payload_view_wf(v),
    ensures
        crate::payload::sp_token(payload_json(v), rt_pos(v, 10)) == Some((v.token_id, rt_pos(v, 11))),
{
    reveal_strlit("{\"cache\":\"");
    reveal_strlit(",\"topic\":\"");
    reveal_strlit(",\"event_timestamp\":");
    reveal_strlit(",\"publish_timestamp\":");
    reveal_strlit(",\"topic_sequence_number\":");
    reveal_strlit(",\"token_id\":");
    reveal_strlit(",\"text\":\"");
    reveal_strlit("}");
    reveal_strlit("null");
    let l1 = "{\"cache\":\""@;
    let l2 = ",\"topic\":\""@;
    let l3 = ",\"event_timestamp\":"@;
    let l4 = ",\"publish_timestamp\":"@;
    let l5 = ",\"topic_sequence_number\":"@;
    let l6 = ",\"token_id\":"@;
    let l7 = ",\"text\":\""@;
    let l8 = "}"@;
    let q = seq!['"'];
    let e1 = esc_str(v.cache);
    let e2 = esc_str(v.topic);
    let e7 = esc_str(v.text);
    let d3 = dec_int(v.event_timestamp);
    let d4 = dec_int(v.publish_timestamp);
    let d5 = dec_int(v.topic_sequence_number);
    let tk = token_json(v.token_id);
    let s = payload_json(v);
    let p6 = l1 + e1 + q + l2 + e2 + q + l3 + d3 + l4 + d4 + l5 + d5;
    assert(s =~= p6 + l6 + (tk + l7 + e7 + q + l8));
    lemma_sp_lit_at(p6, l6, tk + l7 + e7 + q + l8);
    match v.token_id {
        None => {
            assert(tk == "null"@);
            assert(s =~= (p6 + l6) + "null"@ + (l7 + e7 + q + l8));
            lemma_sp_lit_at(p6 + l6, "null"@, l7 + e7 + q + l8);
            assert(s[(p6 + l6).len() as int] == 'n');
        },
        Some(t) => {
            assert(tk == q + esc_str(t) + q);
            assert(s[(p6 + l6).len() as int] == '"');
            assert(s =~= (p6 + l6 + q) + esc_str(t) + q + (l7 + e7 + q + l8));
            lemma_sp_string_of_escaped(p6 + l6 + q, t, l7 + e7 + q + l8);
        },
    }
}

#[verifier::rlimit(100)]
proof fn rt_step7(v: PayloadView)
    requires
        payload_view_wf(v),
    ensures
        sp_lit(payload_json(v), rt_pos(v, 11), ",\"text\":\""@) == Some(rt_pos(v, 12)),
        sp_string(payload_json(v), rt_pos(v, 12)) == Some((v.text, rt_pos(v, 13))),
        sp_lit(payload_json(v), rt_pos(v, 13), "}"@) == Some(rt_pos(v, 14)),
        rt_pos(v, 14) == payload_json(v).len(),
{
    reveal_strlit("{\"cache\":\"");
    reveal_strlit(",\"topic\":\"");
    reveal_strlit(",\"event_timestamp\":");
    reveal_strlit(",\"publish_timestamp\":");
    reveal_strlit(",\"topic_sequence_number\":");
    reveal_strlit(",\"token_id\":");
    reveal_strlit(",\"text\":\"");
    reveal_strlit("}");
    reveal_strlit("null");
    let l1 = "{\"cache\":\""@;
    let l2 = ",\"topic\":\""@;
    let l3 = ",\"event_timestamp\":"@;
    let l4 = ",\"publish_timestamp\":"@;
    let l5 = ",\"topic_sequence_number\":"@;
    let l6 = ",\"token_id\":"@;
    let l7 = ",\"text\":\""@;
    let l8 = "}"@;
    let q = seq!['"'];
    let e1 = esc_str(v.cache);
    let e2 = esc_str(v.topic);
    let e7 = esc_str(v.text);
    let d3 = dec_int(v.event_timestamp);
    let d4 = dec_int(v.publish_timestamp);
    let d5 = dec_int(v.topic_sequence_number);
    let tk = token_json(v.token_id);
    let s = payload_json(v);
    let p7 = l1 + e1 + q + l2 + e2 + q + l3 + d3 + l4 + d4 + l5 + d5 + l6 + tk;
    assert(s =~= p7 + l7 + (e7 + q + l8));
    lemma_sp_lit_at(p7, l7, e7 + q + l8);
    assert(s =~= (p7 + l7) + e7 + q + l8);
    lemma_sp_string_of_escaped(p7 + l7, v.text, l8);
    let p8 = p7 + l7 + e7 + q;
    assert(s =~= p8 + l8 + Seq::<char>::empty());
    lemma_sp_lit_at(p8, l8, Seq::<char>::empty());
    assert((p8 + l8).len() == s.len());
}

/// Round trip: parsing the canonical serialization of a payload yields
/// exactly that payload, fields, optional token and all.
pub proof fn lemma_payload_round_trip(v: PayloadView)
    requires
        payload_view_wf(v),
    ensures
        sp_payload(payload_json(v)) == Some(v),
{
    rt_step1(v);
    rt_step2(v);
    rt_step3(v);
    rt_step4(v);
    rt_step5(v);
    rt_step6(v);
    rt_step7(v);
    assert(sp_payload(payload_json(v)) == Some(v));
}

/// A payload whose publish timestamp is more than the freshness window in
/// the past at the handler's clock reading is answered with 403, whatever
/// the signature.
pub proof fn law_stale_rejected(
    r: WebhookOutcome,
    secret: Seq<char>,
    body: Seq<char>,
    sig: Option<Seq<char>>,
    now_ms: u64,
    received_ms: i64,
)
    requires
        handler_post(r, secret, body, sig, now_ms, received_ms),
        sp_payload(body) is Some,
        now_ms - sp_payload(body)->0.publish_timestamp >= FRESHNESS_WINDOW_SECONDS * 1000,
    ensures
        r.status == 403,
{
    crate::payload::lemma_sp_payload_wf(body);
}

/// A publish timestamp in the future counts as fresh: the age is negative,
/// the comparison is signed, and nothing underflows.
pub proof fn law_future_is_fresh(published_ms: i64, now_ms: u64, threshold_seconds: u32)
    requires
        published_ms > now_ms,
    ensures
        fresh_at(published_ms, now_ms, threshold_seconds),
{
}

/// Without the signature header the handler answers 403, whatever the body
/// holds.
pub proof fn law_missing_header_rejected(
    r: WebhookOutcome,
    secret: Seq<char>,
    body: Seq<char>,
    now_ms: u64,
    received_ms: i64,
)
    requires
        handler_post(r, secret, body, None::<Seq<char>>, now_ms, received_ms),
    ensures
        r.status == 403,
{
}

/// A delivery that passes every gate - header present, canonical body,
/// fresh, correctly signed, inner event parses - is answered with 200.
pub proof fn law_authorized_accepted(
    r: WebhookOutcome,
    secret: Seq<char>,
    body: Seq<char>,
    sig: Option<Seq<char>>,
    now_ms: u64,
    received_ms: i64,
)
    requires
        handler_post(r, secret, body, sig, now_ms, received_ms),
        authorized(secret, body, sig, now_ms),
    ensures
        r.status == 200,
{
}

/// A supplied signature other than the expected signature of the payload
/// under the handler's secret is answered with 403, fresh or not.
pub proof fn law_wrong_signature_rejected(
    r: WebhookOutcome,
    secret: Seq<char>,
    body: Seq<char>,
    sig: Seq<char>,
    now_ms: u64,
    received_ms: i64,
)
    requires
        handler_post(r, secret, body, Some(sig), now_ms, received_ms),
        sp_payload(body) is Some,
        sig != expected_signature(secret, sp_payload(body)->0),
    ensures
        r.status == 403,
{
    assert(!signature_ok(secret, body, Some(sig)));
}

} // verus!
