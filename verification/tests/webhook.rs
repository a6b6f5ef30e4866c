use hmac::Mac;
use momento_webhook::freshness::{is_fresh_at, is_request_new_enough};
use momento_webhook::handler::{function_handler, handle_webhook};
use momento_webhook::model::{
    format_timestamp_millis, parse_model, parse_timestamp_rfc3339, MomentoModel,
};
use momento_webhook::payload::{parse_payload, serialize_payload, MomentoPayload};
use momento_webhook::signature::verify_signature;

const SECRET: &str = "a-test-secret";
const NOW_MS: i64 = 1700000000000;

fn sign(secret: &str, serialized: &str) -> String {
    let mut mac =
        <hmac::SimpleHmac<sha3::Sha3_256> as hmac::KeyInit>::new_from_slice(secret.as_bytes())
            .expect("HMAC accepts keys of any length");
    mac.update(serialized.as_bytes());
    hex::encode(mac.finalize().into_bytes())
}

fn inner_text(published_ms: i64) -> String {
    let iso = format_timestamp_millis(published_ms).expect("timestamp in range");
    format!(
        "{{\"key_one\":\"a\",\"key_two\":\"b\",\"key_three\":1,\"timestamp\":\"{}\"}}",
        iso
    )
}

fn sample_payload(publish_ms: i64) -> MomentoPayload {
    MomentoPayload {
        cache: String::from("c"),
        topic: String::from("t"),
        event_timestamp: 1000,
        publish_timestamp: publish_ms,
        topic_sequence_number: 1,
        token_id: None,
        text: inner_text(publish_ms),
    }
}

#[test]
fn fresh_signed_payload_accepted() {
    let payload = sample_payload(NOW_MS);
    let body = serialize_payload(&payload);
    let sig = sign(SECRET, &body);
    assert!(verify_signature(&payload, SECRET, &sig));
    let out = handle_webhook(SECRET, &body, Some(&sig), NOW_MS as u64, NOW_MS);
    assert_eq!(out.status, 200);
    assert_eq!(out.body, "{\"message\":\"Success\"}");
    assert_eq!(out.mo_delta, Some(0));
    assert_eq!(out.receiver_delta, Some(0));
    let model = out.model.expect("verified delivery carries the model");
    assert_eq!(model.key_one, "a");
    assert_eq!(model.key_two, "b");
    assert_eq!(model.key_three, 1);
    assert_eq!(model.published_timestamp, NOW_MS);
    assert_eq!(model.received_timestamp, Some(NOW_MS));
}

#[test]
fn stale_payload_rejected() {
    let payload = sample_payload(NOW_MS - 120000);
    let body = serialize_payload(&payload);
    let sig = sign(SECRET, &body);
    let out = handle_webhook(SECRET, &body, Some(&sig), NOW_MS as u64, NOW_MS);
    assert_eq!(out.status, 403);
    assert_eq!(out.body, "{\"message\":\"Unauthorized\"}");
}

#[test]
fn mutated_body_signature_rejected() {
    let payload = sample_payload(NOW_MS);
    let mut mutated = sample_payload(NOW_MS);
    mutated.cache = String::from("other-cache");
    let body = serialize_payload(&payload);
    let sig_over_mutated = sign(SECRET, &serialize_payload(&mutated));
    assert!(!verify_signature(&payload, SECRET, &sig_over_mutated));
    let out = handle_webhook(SECRET, &body, Some(&sig_over_mutated), NOW_MS as u64, NOW_MS);
    assert_eq!(out.status, 403);
    assert_eq!(out.body, "{\"message\":\"Unauthorized\"}");
    assert!(out.model.is_none());
}

#[test]
fn wrong_secret_signature_rejected() {
    let payload = sample_payload(NOW_MS);
    let body = serialize_payload(&payload);
    let sig = sign("some-other-secret", &body);
    assert!(!verify_signature(&payload, SECRET, &sig));
    let out = handle_webhook(SECRET, &body, Some(&sig), NOW_MS as u64, NOW_MS);
    assert_eq!(out.status, 403);
}

#[test]
fn missing_header_rejected() {
    let payload = sample_payload(NOW_MS);
    let body = serialize_payload(&payload);
    let out = handle_webhook(SECRET, &body, None, NOW_MS as u64, NOW_MS);
    assert_eq!(out.status, 403);
    assert_eq!(out.body, "{\"message\":\"Unauthorized\"}");
}

#[test]
fn unparseable_body_rejected() {
    let out = handle_webhook(SECRET, "not json at all", Some("00"), NOW_MS as u64, NOW_MS);
    assert_eq!(out.status, 403);
    assert!(parse_payload("not json at all").is_err());
    assert!(parse_payload("").is_err());
    assert!(parse_payload("{}").is_err());
}

#[test]
fn unparseable_inner_event_rejected() {
    let mut payload = sample_payload(NOW_MS);
    payload.text = String::from("not an event");
    let body = serialize_payload(&payload);
    let sig = sign(SECRET, &body);
    let out = handle_webhook(SECRET, &body, Some(&sig), NOW_MS as u64, NOW_MS);
    assert_eq!(out.status, 403);
    assert!(out.model.is_none());
}

#[test]
fn payload_round_trip_plain() {
    let payload = sample_payload(NOW_MS);
    let body = serialize_payload(&payload);
    let back = parse_payload(&body).expect("canonical form parses");
    assert_eq!(back.cache, payload.cache);
    assert_eq!(back.topic, payload.topic);
    assert_eq!(back.event_timestamp, payload.event_timestamp);
    assert_eq!(back.publish_timestamp, payload.publish_timestamp);
    assert_eq!(back.topic_sequence_number, payload.topic_sequence_number);
    assert_eq!(back.token_id, payload.token_id);
    assert_eq!(back.text, payload.text);
}

#[test]
fn payload_round_trip_token_escapes_and_negatives() {
    let payload = MomentoPayload {
        cache: String::from("quote \" backslash \\ newline \n tab \t ctrl \u{1} accent \u{e9}"),
        topic: String::from(""),
        event_timestamp: -42,
        publish_timestamp: i64::MIN,
        topic_sequence_number: i64::MAX,
        token_id: Some(String::from("tok\r\u{8}\u{c}")),
        text: String::from("{\"nested\":\"json\"}"),
    };
    let body = serialize_payload(&payload);
    let back = parse_payload(&body).expect("canonical form parses");
    assert_eq!(back.cache, payload.cache);
    assert_eq!(back.topic, payload.topic);
    assert_eq!(back.event_timestamp, payload.event_timestamp);
    assert_eq!(back.publish_timestamp, payload.publish_timestamp);
    assert_eq!(back.topic_sequence_number, payload.topic_sequence_number);
    assert_eq!(back.token_id, payload.token_id);
    assert_eq!(back.text, payload.text);
}

#[test]
fn canonical_serialization_shape() {
    let payload = sample_payload(5);
    let body = serialize_payload(&payload);
    let expected = format!(
        "{{\"cache\":\"c\",\"topic\":\"t\",\"event_timestamp\":1000,\"publish_timestamp\":5,\"topic_sequence_number\":1,\"token_id\":null,\"text\":\"{}\"}}",
        inner_text(5).replace('\\', "\\\\").replace('"', "\\\"")
    );
    assert_eq!(body, expected);
}

#[test]
fn non_canonical_payload_rejected() {
    // Same fields, different order: not the canonical form.
    let s = "{\"topic\":\"t\",\"cache\":\"c\",\"event_timestamp\":1,\"publish_timestamp\":1,\"topic_sequence_number\":1,\"token_id\":null,\"text\":\"x\"}";
    assert!(parse_payload(s).is_err());
    // Trailing bytes after the object.
    let payload = sample_payload(NOW_MS);
    let mut body = serialize_payload(&payload);
    body.push(' ');
    assert!(parse_payload(&body).is_err());
    // Leading zeros are not canonical.
    let s2 = "{\"cache\":\"c\",\"topic\":\"t\",\"event_timestamp\":01,\"publish_timestamp\":1,\"topic_sequence_number\":1,\"token_id\":null,\"text\":\"x\"}";
    assert!(parse_payload(s2).is_err());
}

#[test]
fn freshness_window_edges() {
    assert!(is_fresh_at(NOW_MS, NOW_MS as u64, 60));
    assert!(is_fresh_at(NOW_MS - 59999, NOW_MS as u64, 60));
    assert!(!is_fresh_at(NOW_MS - 60000, NOW_MS as u64, 60));
    assert!(!is_fresh_at(NOW_MS - 120000, NOW_MS as u64, 60));
    // A timestamp in the future does not underflow and counts as fresh.
    assert!(is_fresh_at(NOW_MS + 1000000, NOW_MS as u64, 60));
    assert!(is_fresh_at(i64::MAX, NOW_MS as u64, 60));
    // A far-past (even negative) timestamp is stale, not a panic.
    assert!(!is_fresh_at(i64::MIN, NOW_MS as u64, 60));
    // Against the real clock, a timestamp of right now is fresh.
    assert!(is_request_new_enough(chrono::Utc::now().timestamp_millis()));
    assert!(!is_request_new_enough(0));
}

#[test]
fn model_round_trip_through_rfc3339() {
    let model = MomentoModel {
        key_one: String::from("KeyOne"),
        key_two: String::from("KeyTwo"),
        key_three: 7,
        published_timestamp: NOW_MS,
        received_timestamp: None,
    };
    let text = momento_webhook::model::serialize_model(&model).expect("timestamp in range");
    let back = parse_model(&text).expect("canonical event parses");
    assert_eq!(back.key_one, model.key_one);
    assert_eq!(back.key_two, model.key_two);
    assert_eq!(back.key_three, model.key_three);
    assert_eq!(back.published_timestamp, model.published_timestamp);
    assert_eq!(back.received_timestamp, None);
}

#[test]
fn rfc3339_conversion_is_consistent() {
    let iso = format_timestamp_millis(NOW_MS).expect("in range");
    assert_eq!(parse_timestamp_rfc3339(&iso), Some(NOW_MS));
    assert_eq!(parse_timestamp_rfc3339("not a timestamp"), None);
    assert_eq!(parse_timestamp_rfc3339("2023-11-14T22:13:20Z"), Some(1700000000000));
}

#[test]
fn latency_deltas() {
    let model = MomentoModel {
        key_one: String::from("a"),
        key_two: String::from("b"),
        key_three: 1,
        published_timestamp: NOW_MS - 250,
        received_timestamp: Some(NOW_MS),
    };
    assert_eq!(model.time_between_publish_and_received(), 250);
    assert_eq!(model.time_between_mo_publish_and_received(NOW_MS - 1000), 1000);
    assert_eq!(model.time_between_mo_publish_and_received(NOW_MS + 500), -500);
}

#[test]
fn new_model_is_unstamped() {
    let model = MomentoModel::new(String::from("KeyOne"), String::from("KeyTwo"), 3);
    assert_eq!(model.key_one, "KeyOne");
    assert_eq!(model.key_two, "KeyTwo");
    assert_eq!(model.key_three, 3);
    assert_eq!(model.received_timestamp, None);
}

#[test]
fn function_handler_against_real_clock() {
    let now = chrono::Utc::now().timestamp_millis();
    let payload = sample_payload(now);
    let body = serialize_payload(&payload);
    let sig = sign(SECRET, &body);
    let out = function_handler(SECRET, &body, Some(&sig));
    assert_eq!(out.status, 200);
    assert_eq!(out.body, "{\"message\":\"Success\"}");
    let out2 = function_handler(SECRET, &body, None);
    assert_eq!(out2.status, 403);
}
