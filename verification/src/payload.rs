//! The authenticated envelope of a webhook delivery and its canonical wire
//! form: a compact JSON object with the fields in a fixed order. The envelope
//! is what the sender signs; the signature is computed over exactly the
//! character sequence `payload_json` describes.

use vstd::prelude::*;
use crate::chars::{chars_to_string, push_str_chars, str_to_chars};
use crate::json::{
    dec_int, esc_str, push_dec_i64, push_esc_str, sp_digits, sp_int, sp_lit, sp_string,
};

verus! {

/// The envelope of a single webhook delivery.
#[derive(Debug)]
pub struct MomentoPayload {
    pub cache: String,
    pub topic: String,
    pub event_timestamp: i64,
    pub publish_timestamp: i64,
    pub topic_sequence_number: i64,
    pub token_id: Option<String>,
    pub text: String,
}

/// The mathematical content of a `MomentoPayload`.
pub ghost struct PayloadView {
    pub cache: Seq<char>,
    pub topic: Seq<char>,
    pub event_timestamp: int,
    pub publish_timestamp: int,
    pub topic_sequence_number: int,
    pub token_id: Option<Seq<char>>,
    pub text: Seq<char>,
}

impl View for MomentoPayload {
    type V = PayloadView;

    open spec fn view(&self) -> PayloadView {
        PayloadView {
            cache: self.cache@,
            topic: self.topic@,
            event_timestamp: self.event_timestamp as int,
            publish_timestamp: self.publish_timestamp as int,
            topic_sequence_number: self.topic_sequence_number as int,
            token_id: match self.token_id {
                Some(ref t) => Some(t@),
                None => None,
            },
            text: self.text@,
        }
    }
}

/// The numeric fields fit in `i64`; every view of an actual payload does.
pub open spec fn payload_view_wf(v: PayloadView) -> bool {
    &&& i64::MIN <= v.event_timestamp <= i64::MAX
    &&& i64::MIN <= v.publish_timestamp <= i64::MAX
    &&& i64::MIN <= v.topic_sequence_number <= i64::MAX
}

/// The canonical JSON form of the token field: `null` or a quoted string.
pub open spec fn token_json(t: Option<Seq<char>>) -> Seq<char> {
    match t {
        None => "null"@,
        Some(s) => seq!['"'] + esc_str(s) + seq!['"'],
    }
}

/// The canonical JSON form of a payload. This is the exact character
/// sequence the signature is computed over. It is written in the segments
/// the parser reads: each label literal, then the field's value form.
pub open spec fn payload_json(v: PayloadView) -> Seq<char> {
    "{\"cache\":\""@ + esc_str(v.cache) + seq!['"']
        + ",\"topic\":\""@ + esc_str(v.topic) + seq!['"']
        + ",\"event_timestamp\":"@ + dec_int(v.event_timestamp)
        + ",\"publish_timestamp\":"@ + dec_int(v.publish_timestamp)
        + ",\"topic_sequence_number\":"@ + dec_int(v.topic_sequence_number)
        + ",\"token_id\":"@ + token_json(v.token_id)
        + ",\"text\":\""@ + esc_str(v.text) + seq!['"'] + "}"@
}

/// The specification-level parser of the canonical payload form. The
/// executable `parse_payload` returns exactly what this returns.
pub open spec fn sp_payload(s: Seq<char>) -> Option<PayloadView> {
    match sp_lit(s, 0, "{\"cache\":\""@) {
        None => None,
        Some(i1) => match sp_string(s, i1) {
            None => None,
            Some((cache, i2)) => match sp_lit(s, i2, ",\"topic\":\""@) {
                None => None,
                Some(i3) => match sp_string(s, i3) {
                    None => None,
                    Some((topic, i4)) => match sp_lit(s, i4, ",\"event_timestamp\":"@) {
                        None => None,
                        Some(i5) => match sp_int(s, i5) {
                            None => None,
                            Some((ev, i6)) => match sp_lit(s, i6, ",\"publish_timestamp\":"@) {
                                None => None,
                                Some(i7) => match sp_int(s, i7) {
                                    None => None,
                                    Some((pu, i8)) => match sp_lit(s, i8, ",\"topic_sequence_number\":"@) {
                                        None => None,
                                        Some(i9) => match sp_int(s, i9) {
                                            None => None,
                                            Some((sq, i10)) => match sp_token(s, i10) {
                                                None => None,
                                                Some((tok, i11)) => match sp_lit(s, i11, ",\"text\":\""@) {
                                                    None => None,
                                                    Some(i12) => match sp_string(s, i12) {
                                                        None => None,
                                                        Some((text, i13)) => match sp_lit(s, i13, "}"@) {
                                                            None => None,
                                                            Some(i14) => if i14 == s.len() {
                                                                Some(PayloadView {
                                                                    cache,
                                                                    topic,
                                                                    event_timestamp: ev,
                                                                    publish_timestamp: pu,
                                                                    topic_sequence_number: sq,
                                                                    token_id: tok,
                                                                    text,
                                                                })
                                                            } else {
                                                                None
                                                            },
                                                        },
                                                    },
                                                },
                                            },
                                        },
                                    },
                                },
                            },
                        },
                    },
                },
            },
        },
    }
}

/// The token field with its leading `,"token_id":` label: `null` or a string.
pub open spec fn sp_token(s: Seq<char>, i: int) -> Option<(Option<Seq<char>>, int)> {
    match sp_lit(s, i, ",\"token_id\":"@) {
        None => None,
        Some(j) => if j < s.len() && s[j] == '"' {
            match sp_string(s, j + 1) {
                None => None,
                Some((t, k)) => Some((Some(t), k)),
            }
        } else {
            match sp_lit(s, j, "null"@) {
                None => None,
                Some(k) => Some((None, k)),
            }
        },
    }
}

/// Whatever `sp_int` accepts lies within the `i64` range.
pub proof fn lemma_sp_int_range(s: Seq<char>, i: int)
    ensures
        sp_int(s, i) matches Some(p) ==> i64::MIN <= p.0 <= i64::MAX,
{
    if 0 <= i && i <= s.len() {
        crate::json::lemma_sp_digits_props(s, i);
        crate::json::lemma_val_of_bound(sp_digits(s, i).0);
    }
    if 0 <= i && i < s.len() {
        crate::json::lemma_sp_digits_props(s, i + 1);
        crate::json::lemma_val_of_bound(sp_digits(s, i + 1).0);
    }
}

/// Whatever the parser accepts satisfies the numeric bounds: the integer
/// fields of a parsed payload always fit in `i64`.
pub proof fn lemma_sp_payload_wf(s: Seq<char>)
    requires
        sp_payload(s) is Some,
    ensures
        payload_view_wf(sp_payload(s)->0),
{
    match sp_lit(s, 0, "{\"cache\":\""@) {
        None => {},
        Some(j1) => match sp_string(s, j1) {
            None => {},
            Some((cache, j2)) => match sp_lit(s, j2, ",\"topic\":\""@) {
                None => {},
                Some(j3) => match sp_string(s, j3) {
                    None => {},
                    Some((topic, j4)) => match sp_lit(s, j4, ",\"event_timestamp\":"@) {
                        None => {},
                        Some(j5) => {
                            lemma_sp_int_range(s, j5);
                            match sp_int(s, j5) {
                                None => {},
                                Some((ev, j6)) => match sp_lit(s, j6, ",\"publish_timestamp\":"@) {
                                    None => {},
                                    Some(j7) => {
                                        lemma_sp_int_range(s, j7);
                                        match sp_int(s, j7) {
                                            None => {},
                                            Some((pu, j8)) => match sp_lit(s, j8, ",\"topic_sequence_number\":"@) {
                                                None => {},
                                                Some(j9) => {
                                                    lemma_sp_int_range(s, j9);
                                                },
                                            },
                                        }
                                    },
                                },
                            }
                        },
                    },
                },
            },
        },
    }
}

/// An input that is not the canonical JSON form of a payload.
#[derive(Debug)]
pub struct ParseError;

/// Serializes a payload to its canonical JSON form.
pub fn serialize_payload(p: &MomentoPayload) -> (r: String)
    ensures
        r@ == payload_json(p@),
{
    let mut out: Vec<char> = Vec::new();
    push_str_chars(&mut out, "{\"cache\":\"");
    let cache_chars = str_to_chars(p.cache.as_str());
    push_esc_str(&mut out, &cache_chars);
    out.push('"');
    push_str_chars(&mut out, ",\"topic\":\"");
    let topic_chars = str_to_chars(p.topic.as_str());
    push_esc_str(&mut out, &topic_chars);
    out.push('"');
    push_str_chars(&mut out, ",\"event_timestamp\":");
    push_dec_i64(&mut out, p.event_timestamp);
    push_str_chars(&mut out, ",\"publish_timestamp\":");
    push_dec_i64(&mut out, p.publish_timestamp);
    push_str_chars(&mut out, ",\"topic_sequence_number\":");
    push_dec_i64(&mut out, p.topic_sequence_number);
    push_str_chars(&mut out, ",\"token_id\":");
    match &p.token_id {
        None => {
            push_str_chars(&mut out, "null");
        },
        Some(t) => {
            out.push('"');
            let t_chars = str_to_chars(t.as_str());
            push_esc_str(&mut out, &t_chars);
            out.push('"');
        },
    }
    push_str_chars(&mut out, ",\"text\":\"");
    let text_chars = str_to_chars(p.text.as_str());
    push_esc_str(&mut out, &text_chars);
    out.push('"');
    push_str_chars(&mut out, "}");
    proof {
        assert(out@ =~= payload_json(p@));
    }
    chars_to_string(&out)
}

/// Parses the canonical JSON form of a payload. Returns `Ok` exactly on the
/// inputs that `sp_payload` accepts, with exactly the payload it describes.
pub fn parse_payload(s: &str) -> (r: Result<MomentoPayload, ParseError>)
    ensures
        match r {
            Ok(p) => sp_payload(s@) == Some(p@),
            Err(_) => sp_payload(s@) is None,
        },
{
    let cs = str_to_chars(s);
    let i1 = match p_lit_str(&cs, 0, "{\"cache\":\"") {
        Some(j) => j,
        None => { return Err(ParseError); },
    };
    let (cache, i2) = match crate::json::p_string(&cs, i1) {
        Some(p) => p,
        None => { return Err(ParseError); },
    };
    let i3 = match p_lit_str(&cs, i2, ",\"topic\":\"") {
        Some(j) => j,
        None => { return Err(ParseError); },
    };
    let (topic, i4) = match crate::json::p_string(&cs, i3) {
        Some(p) => p,
        None => { return Err(ParseError); },
    };
    let i5 = match p_lit_str(&cs, i4, ",\"event_timestamp\":") {
        Some(j) => j,
        None => { return Err(ParseError); },
    };
    let (ev, i6) = match crate::json::p_int(&cs, i5) {
        Some(p) => p,
        None => { return Err(ParseError); },
    };
    let i7 = match p_lit_str(&cs, i6, ",\"publish_timestamp\":") {
        Some(j) => j,
        None => { return Err(ParseError); },
    };
    let (pu, i8) = match crate::json::p_int(&cs, i7) {
        Some(p) => p,
        None => { return Err(ParseError); },
    };
    let i9 = match p_lit_str(&cs, i8, ",\"topic_sequence_number\":") {
        Some(j) => j,
        None => { return Err(ParseError); },
    };
    let (sq, i10) = match crate::json::p_int(&cs, i9) {
        Some(p) => p,
        None => { return Err(ParseError); },
    };
    let i11_tok = match p_token(&cs, i10) {
        Some(p) => p,
        None => { return Err(ParseError); },
    };
    let (tok, i11) = i11_tok;
    let i12 = match p_lit_str(&cs, i11, ",\"text\":\"") {
        Some(j) => j,
        None => { return Err(ParseError); },
    };
    let (text, i13) = match crate::json::p_string(&cs, i12) {
        Some(p) => p,
        None => { return Err(ParseError); },
    };
    let i14 = match p_lit_str(&cs, i13, "}") {
        Some(j) => j,
        None => { return Err(ParseError); },
    };
    if i14 != cs.len() {
        return Err(ParseError);
    }
    let p = MomentoPayload {
        cache: chars_to_string(&cache),
        topic: chars_to_string(&topic),
        event_timestamp: ev,
        publish_timestamp: pu,
        topic_sequence_number: sq,
        token_id: match tok {
            Some(t) => Some(chars_to_string(&t)),
            None => None,
        },
        text: chars_to_string(&text),
    };
    assert(sp_payload(s@) == Some(p@));
    Ok(p)
}

/// `p_lit` with its requirement discharged from the view of the input.
fn p_lit_str(cs: &Vec<char>, i: usize, lit: &str) -> (r: Option<usize>)
    requires
        i <= cs@.len(),
    ensures
        match r {
            Some(j) => sp_lit(cs@, i as int, lit@) == Some(j as int) && i <= j <= cs@.len(),
            None => sp_lit(cs@, i as int, lit@) is None,
        },
{
    crate::json::p_lit(cs, i, lit)
}

/// Reads the token field, as `sp_token` describes it.
fn p_token(cs: &Vec<char>, i: usize) -> (r: Option<(Option<Vec<char>>, usize)>)
    requires
        i <= cs@.len(),
    ensures
        match r {
            Some(p) => ({
                let sp = sp_token(cs@, i as int);
                &&& sp is Some
                &&& (sp->0).1 == p.1 as int
                &&& (sp->0).0 == match p.0 {
                    Some(ref t) => Some::<Seq<char>>(t@),
                    None => None::<Seq<char>>,
                }
                &&& i <= p.1 <= cs@.len()
            }),
            None => sp_token(cs@, i as int) is None,
        },
{
    let j = match p_lit_str(cs, i, ",\"token_id\":") {
        Some(j) => j,
        None => { return None; },
    };
    if j < cs.len() && cs[j] == '"' {
        match crate::json::p_string(cs, j + 1) {
            Some((t, k)) => Some((Some(t), k)),
            None => None,
        }
    } else {
        match p_lit_str(cs, j, "null") {
            Some(k) => Some((None, k)),
            None => None,
        }
    }
}

} // verus!
