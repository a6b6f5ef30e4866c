//! The inner timed event carried inside a payload's `text` field, and its
//! canonical JSON form. The envelope's `publish_timestamp` (epoch
//! milliseconds) and the inner event's `published_timestamp` (a structured
//! timestamp, written as RFC 3339 text on the wire) are distinct values and
//! are kept apart; both are held here as epoch milliseconds.

use vstd::prelude::*;
use crate::chars::{chars_to_string, push_str_chars, str_to_chars};
use crate::json::{dec_int, esc_str, push_dec_i64, push_esc_str, sp_int, sp_lit, sp_string};
use crate::payload::ParseError;

verus! {

/// The application-level event: two keys, a counter, when it was published,
/// and - only once the handler stamps it - when it was received.
#[derive(Debug)]
pub struct MomentoModel {
    pub key_one: String,
    pub key_two: String,
    pub key_three: i64,
    /// When the sender published the event, in epoch milliseconds.
    pub published_timestamp: i64,
    /// When the handler received the event, in epoch milliseconds. Absent on
    /// input: it has no valid deserialized value and is set exactly once,
    /// after the payload passes both checks.
    pub received_timestamp: Option<i64>,
}

/// The mathematical content of a `MomentoModel`.
pub ghost struct ModelView {
    pub key_one: Seq<char>,
    pub key_two: Seq<char>,
    pub key_three: int,
    pub published_timestamp: int,
    pub received_timestamp: Option<int>,
}

impl View for MomentoModel {
    type V = ModelView;

    open spec fn view(&self) -> ModelView {
        ModelView {
            key_one: self.key_one@,
            key_two: self.key_two@,
            key_three: self.key_three as int,
            published_timestamp: self.published_timestamp as int,
            received_timestamp: match self.received_timestamp {
                Some(ms) => Some(ms as int),
                None => None,
            },
        }
    }
}

/// The RFC 3339 text chrono writes for an epoch-millisecond instant. The
/// text is a fixed function of the value; its shape is not modelled here.
pub uninterp spec fn rfc3339_utc_of(ms: int) -> Seq<char>;

/// The epoch-millisecond instant chrono reads from RFC 3339 text, where the
/// text parses at all. A fixed function of the text.
pub uninterp spec fn rfc3339_millis_of(s: Seq<char>) -> Option<int>;

/// Relies on chrono's DateTime::from_timestamp_millis and to_rfc3339: the
/// text depends on the millisecond value alone; the conversion is None only
/// outside chrono's representable range of dates.
#[verifier::external_body]
pub fn format_timestamp_millis(ms: i64) -> (r: Option<String>)
    ensures
        r matches Some(s) ==> s@ == rfc3339_utc_of(ms as int),
{
    chrono::DateTime::from_timestamp_millis(ms).map(|d| d.to_rfc3339())
}

/// Relies on chrono's DateTime::parse_from_rfc3339 and timestamp_millis: the
/// result depends on the text alone, and is None exactly where the text is
/// not an RFC 3339 timestamp.
#[verifier::external_body]
pub fn parse_timestamp_rfc3339(s: &str) -> (r: Option<i64>)
    ensures
        (r matches Some(ms) ==> rfc3339_millis_of(s@) == Some(ms as int)),
        (r is None ==> rfc3339_millis_of(s@) is None),
{
    chrono::DateTime::parse_from_rfc3339(s).ok().map(|d| d.timestamp_millis())
}

/// The canonical JSON form of the event, as the publisher writes it. The
/// receive stamp is never serialized.
pub open spec fn model_json(v: ModelView) -> Seq<char> {
    "{\"key_one\":\""@ + esc_str(v.key_one) + seq!['"']
        + ",\"key_two\":\""@ + esc_str(v.key_two) + seq!['"']
        + ",\"key_three\":"@ + dec_int(v.key_three)
        + ",\"timestamp\":\""@ + esc_str(rfc3339_utc_of(v.published_timestamp)) + seq!['"'] + "}"@
}

/// The specification-level parser of the canonical event form. The receive
/// stamp of a parsed event is always absent.
pub open spec fn sp_model(s: Seq<char>) -> Option<ModelView> {
    match sp_lit(s, 0, "{\"key_one\":\""@) {
        None => None,
        Some(i1) => match sp_string(s, i1) {
            None => None,
            Some((k1, i2)) => match sp_lit(s, i2, ",\"key_two\":\""@) {
                None => None,
                Some(i3) => match sp_string(s, i3) {
                    None => None,
                    Some((k2, i4)) => match sp_lit(s, i4, ",\"key_three\":"@) {
                        None => None,
                        Some(i5) => match sp_int(s, i5) {
                            None => None,
                            Some((k3, i6)) => match sp_lit(s, i6, ",\"timestamp\":\""@) {
                                None => None,
                                Some(i7) => match sp_string(s, i7) {
                                    None => None,
                                    Some((ts, i8)) => match sp_lit(s, i8, "}"@) {
                                        None => None,
                                        Some(i9) => if i9 == s.len() {
                                            match rfc3339_millis_of(ts) {
                                                None => None,
                                                Some(ms) => Some(ModelView {
                                                    key_one: k1,
                                                    key_two: k2,
                                                    key_three: k3,
                                                    published_timestamp: ms,
                                                    received_timestamp: None,
                                                }),
                                            }
                                        } else {
                                            None
                                        },
                                    },
                                },
                            },
                        },
                    },
                },
            },
        },
    }
}

impl MomentoModel {
    /// A fresh event carrying the given keys, published now (by the wall
    /// clock), not yet received.
    pub fn new(key_one: String, key_two: String, key_three: i64) -> (r: MomentoModel)
        ensures
            r@.key_one == key_one@,
            r@.key_two == key_two@,
            r@.key_three == key_three as int,
            r@.received_timestamp is None,
    {
        let now = crate::freshness::now_unix_millis();
        let published: i64 = if now > i64::MAX as u64 {
            i64::MAX
        } else {
            now as i64
        };
        MomentoModel {
            key_one,
            key_two,
            key_three,
            published_timestamp: published,
            received_timestamp: None,
        }
    }

    /// Milliseconds from the envelope's publish timestamp to the receive
    /// stamp, signed.
    pub fn time_between_mo_publish_and_received(&self, mo_timestamp: i64) -> (r: i64)
        requires
            self@.received_timestamp is Some,
            i64::MIN <= self@.received_timestamp->0 - mo_timestamp <= i64::MAX,
        ensures
            r as int == self@.received_timestamp->0 - mo_timestamp,
    {
        let received = match self.received_timestamp {
            Some(ms) => ms,
            None => 0,
        };
        received - mo_timestamp
    }

    /// Milliseconds from the event's own publish timestamp to the receive
    /// stamp, signed.
    pub fn time_between_publish_and_received(&self) -> (r: i64)
        requires
            self@.received_timestamp is Some,
            i64::MIN <= self@.received_timestamp->0 - self@.published_timestamp <= i64::MAX,
        ensures
            r as int == self@.received_timestamp->0 - self@.published_timestamp,
    {
        let received = match self.received_timestamp {
            Some(ms) => ms,
            None => 0,
        };
        received - self.published_timestamp
    }
}

/// Serializes an event to its canonical JSON form. None only where chrono
/// cannot represent the publish instant.
pub fn serialize_model(m: &MomentoModel) -> (r: Option<String>)
    ensures
        r matches Some(s) ==> s@ == model_json(m@),
{
    let ts = match format_timestamp_millis(m.published_timestamp) {
        Some(t) => t,
        None => { return None; },
    };
    let mut out: Vec<char> = Vec::new();
    push_str_chars(&mut out, "{\"key_one\":\"");
    let k1_chars = str_to_chars(m.key_one.as_str());
    push_esc_str(&mut out, &k1_chars);
    out.push('"');
    push_str_chars(&mut out, ",\"key_two\":\"");
    let k2_chars = str_to_chars(m.key_two.as_str());
    push_esc_str(&mut out, &k2_chars);
    out.push('"');
    push_str_chars(&mut out, ",\"key_three\":");
    push_dec_i64(&mut out, m.key_three);
    push_str_chars(&mut out, ",\"timestamp\":\"");
    let ts_chars = str_to_chars(ts.as_str());
    push_esc_str(&mut out, &ts_chars);
    out.push('"');
    push_str_chars(&mut out, "}");
    proof {
        assert(out@ =~= model_json(m@));
    }
    Some(chars_to_string(&out))
}

/// Parses the canonical JSON form of an event. Returns `Ok` exactly on the
/// inputs that `sp_model` accepts, with exactly the event it describes.
pub fn parse_model(s: &str) -> (r: Result<MomentoModel, ParseError>)
    ensures
        match r {
            Ok(m) => sp_model(s@) == Some(m@),
            Err(_) => sp_model(s@) is None,
        },
{
    let cs = str_to_chars(s);
    let i1 = match crate::json::p_lit(&cs, 0, "{\"key_one\":\"") {
        Some(j) => j,
        None => { return Err(ParseError); },
    };
    let (k1, i2) = match crate::json::p_string(&cs, i1) {
        Some(p) => p,
        None => { return Err(ParseError); },
    };
    let i3 = match crate::json::p_lit(&cs, i2, ",\"key_two\":\"") {
        Some(j) => j,
        None => { return Err(ParseError); },
    };
    let (k2, i4) = match crate::json::p_string(&cs, i3) {
        Some(p) => p,
        None => { return Err(ParseError); },
    };
    let i5 = match crate::json::p_lit(&cs, i4, ",\"key_three\":") {
        Some(j) => j,
        None => { return Err(ParseError); },
    };
    let (k3, i6) = match crate::json::p_int(&cs, i5) {
        Some(p) => p,
        None => { return Err(ParseError); },
    };
    let i7 = match crate::json::p_lit(&cs, i6, ",\"timestamp\":\"") {
        Some(j) => j,
        None => { return Err(ParseError); },
    };
    let (ts, i8) = match crate::json::p_string(&cs, i7) {
        Some(p) => p,
        None => { return Err(ParseError); },
    };
    let i9 = match crate::json::p_lit(&cs, i8, "}") {
        Some(j) => j,
        None => { return Err(ParseError); },
    };
    if i9 != cs.len() {
        return Err(ParseError);
    }
    let ts_string = chars_to_string(&ts);
    let ms = match parse_timestamp_rfc3339(ts_string.as_str()) {
        Some(ms) => ms,
        None => { return Err(ParseError); },
    };
    let m = MomentoModel {
        key_one: chars_to_string(&k1),
        key_two: chars_to_string(&k2),
        key_three: k3,
        published_timestamp: ms,
        received_timestamp: None,
    };
    assert(sp_model(s@) == Some(m@));
    Ok(m)
}

} // verus!
