//! Turning inbound text frames into business events.
use vstd::prelude::*;
use crate::event::{Amount, RawEvent};

verus! {

#[verifier::external_type_specification]
#[verifier::external_body]
pub struct ExValue(serde_json::Value);

/// A JSON document as plain values. A number carries its binary64 form, when
/// it has one, and its value as an `i64`, when it fits. An object keeps its
/// members in order, each key once.
#[derive(Debug)]
pub enum Json {
    Null,
    Bool(bool),
    Number(Option<Amount>, Option<i64>),
    Str(String),
    Array(Vec<Json>),
    Object(Vec<(String, Json)>),
}

/// The document that serde_json reads from the text, or none when it refuses it.
pub uninterp spec fn json_of(s: Seq<char>) -> Option<Json>;

/// Relies on serde_json's `Value` variants, `Number::as_f64`, `Number::as_i64`,
/// and the binary64 type's `to_bits` and `Display`, to hold a document as plain values.
#[verifier::external_body]
fn plain(v: &serde_json::Value) -> (r: Json) {
    match v {
        serde_json::Value::Null => Json::Null,
        serde_json::Value::Bool(b) => Json::Bool(*b),
        serde_json::Value::Number(n) => Json::Number(
            n.as_f64().map(|x| Amount { bits: x.to_bits(), text: x.to_string() }),
            n.as_i64(),
        ),
        serde_json::Value::String(s) => Json::Str(s.clone()),
        serde_json::Value::Array(a) => Json::Array(a.iter().map(plain).collect()),
        serde_json::Value::Object(o) => Json::Object(
            o.iter().map(|(k, x)| (k.clone(), plain(x))).collect(),
        ),
    }
}

/// Relies on serde_json::from_str, which parses the whole text as one document
/// or fails, and on `plain` for the document it gives.
#[verifier::external_body]
fn parse_json(text: &str) -> (r: Option<Json>)
    ensures
        r == json_of(text@),
{
    serde_json::from_str::<serde_json::Value>(text).ok().map(|v| plain(&v))
}

/// `i` is the position of the first member named `key`.
pub open spec fn first_key(fields: Seq<(String, Json)>, key: Seq<char>, i: int) -> bool {
    &&& 0 <= i < fields.len()
    &&& fields[i].0@ == key
    &&& forall|j: int| 0 <= j < i ==> fields[j].0@ != key
}

pub open spec fn has_key(fields: Seq<(String, Json)>, key: Seq<char>) -> bool {
    exists|i: int| first_key(fields, key, i)
}

/// The member of an object under a key; none for a missing key or a non-object.
pub open spec fn member_of(doc: Json, key: Seq<char>) -> Option<Json> {
    match doc {
        Json::Object(fields) => if has_key(fields@, key) {
            Some(fields@[choose|i: int| first_key(fields@, key, i)].1)
        } else {
            None
        },
        _ => None,
    }
}

/// The event document of a frame: the member under `message` of the envelope.
pub open spec fn frame_document(text: Seq<char>) -> Option<Json> {
    match json_of(text) {
        Some(envelope) => member_of(envelope, "message"@),
        None => None,
    }
}

pub open spec fn text_member(doc: Json, key: Seq<char>) -> Option<Seq<char>> {
    match member_of(doc, key) {
        Some(Json::Str(s)) => Some(s@),
        _ => None,
    }
}

pub open spec fn int_member(doc: Json, key: Seq<char>) -> Option<i64> {
    match member_of(doc, key) {
        Some(Json::Number(_, i)) => i,
        _ => None,
    }
}

pub open spec fn bool_member(doc: Json, key: Seq<char>) -> Option<bool> {
    match member_of(doc, key) {
        Some(Json::Bool(b)) => Some(b),
        _ => None,
    }
}

pub open spec fn amount_member(doc: Json, key: Seq<char>) -> Option<Amount> {
    match member_of(doc, key) {
        Some(Json::Number(a, _)) => a,
        _ => None,
    }
}

pub open spec fn text_view(o: Option<String>) -> Option<Seq<char>> {
    match o {
        Some(s) => Some(s@),
        None => None,
    }
}

pub open spec fn amount_view(o: Option<Amount>) -> Option<(u64, Seq<char>)> {
    match o {
        Some(a) => Some((a.bits, a.text@)),
        None => None,
    }
}

/// Each field of the event is the document's member under its key, when that
/// member has the field's type, and absent otherwise.
pub open spec fn read_from(doc: Json, ev: RawEvent) -> bool {
    &&& text_view(ev.member) == text_member(doc, "member"@)
    &&& ev.status == int_member(doc, "status"@)
    &&& text_view(ev.message) == text_member(doc, "message"@)
    &&& text_view(ev.membership) == text_member(doc, "membership"@)
    &&& ev.balance_due == bool_member(doc, "balanceDue"@)
    &&& amount_view(ev.balance) == amount_view(amount_member(doc, "balance"@))
    &&& text_view(ev.red_alert) == text_member(doc, "redAlert"@)
    &&& text_view(ev.yellow_alert) == text_member(doc, "yellowAlert"@)
    &&& text_view(ev.image) == text_member(doc, "image"@)
}

/// One decoded frame: the event's fields, and the document they were read from.
pub struct Inbound {
    pub event: RawEvent,
    pub document: Json,
}

/// The position of the first member named `key`, if any.
pub fn find_key(fields: &Vec<(String, Json)>, key: &str) -> (r: Option<usize>)
    ensures
        r matches Some(i) ==> first_key(fields@, key@, i as int),
        r is None ==> !has_key(fields@, key@),
{
    let wanted = String::from_str(key);
    let mut i: usize = 0;
    while i < fields.len()
        invariant
            i <= fields.len(),
            wanted@ == key@,
            forall|j: int| 0 <= j < i ==> fields@[j].0@ != key@,
        decreases fields.len() - i,
    {
        if fields[i].0 == wanted {
            return Some(i);
        }
        i = i + 1;
    }
    None
}

proof fn first_key_unique(fields: Seq<(String, Json)>, key: Seq<char>, i: int, k: int)
    requires
        first_key(fields, key, i),
        first_key(fields, key, k),
    ensures
        i == k,
{
}

/// The member under a key, read in place.
pub fn member<'a>(doc: &'a Json, key: &str) -> (r: Option<&'a Json>)
    ensures
        match r {
            Some(v) => member_of(*doc, key@) == Some(*v),
            None => member_of(*doc, key@) is None,
        },
{
    match doc {
        Json::Object(fields) => match find_key(fields, key) {
            Some(i) => {
                proof {
                    let c = choose|k: int| first_key(fields@, key@, k);
                    first_key_unique(fields@, key@, i as int, c);
                }
                Some(&fields[i].1)
            },
            None => None,
        },
        _ => None,
    }
}

fn read_text(doc: &Json, key: &str) -> (r: Option<String>)
    ensures
        text_view(r) == text_member(*doc, key@),
{
    match member(doc, key) {
        Some(Json::Str(s)) => Some(s.clone()),
        _ => None,
    }
}

fn read_int(doc: &Json, key: &str) -> (r: Option<i64>)
    ensures
        r == int_member(*doc, key@),
{
    match member(doc, key) {
        Some(Json::Number(_, i)) => *i,
        _ => None,
    }
}

fn read_bool(doc: &Json, key: &str) -> (r: Option<bool>)
    ensures
        r == bool_member(*doc, key@),
{
    match member(doc, key) {
        Some(Json::Bool(b)) => Some(*b),
        _ => None,
    }
}

fn read_amount(doc: &Json, key: &str) -> (r: Option<Amount>)
    ensures
        amount_view(r) == amount_view(amount_member(*doc, key@)),
{
    match member(doc, key) {
        Some(Json::Number(Some(a), _)) => Some(Amount { bits: a.bits, text: a.text.clone() }),
        _ => None,
    }
}

/// Reads the business fields of an event document; a missing or mistyped field is absent.
pub fn event_from_document(doc: &Json) -> (r: RawEvent)
    ensures
        read_from(*doc, r),
{
    RawEvent {
        member: read_text(doc, "member"),
        status: read_int(doc, "status"),
        message: read_text(doc, "message"),
        membership: read_text(doc, "membership"),
        balance_due: read_bool(doc, "balanceDue"),
        balance: read_amount(doc, "balance"),
        red_alert: read_text(doc, "redAlert"),
        yellow_alert: read_text(doc, "yellowAlert"),
        image: read_text(doc, "image"),
    }
}

/// Decodes a text frame: the event under the envelope's `message` key, or nothing
/// when the frame is not JSON or has no such key.
pub fn decode_frame(text: &str) -> (r: Option<Inbound>)
    ensures
        r.is_some() == frame_document(text@).is_some(),
        r matches Some(i) ==> frame_document(text@) == Some(i.document) && read_from(
            i.document,
            i.event,
        ),
{
    match parse_json(text) {
        Some(Json::Object(mut fields)) => {
            match find_key(&fields, "message") {
                Some(i) => {
                    proof {
                        let c = choose|k: int| first_key(fields@, "message"@, k);
                        first_key_unique(fields@, "message"@, i as int, c);
                    }
                    let (_, doc) = fields.remove(i);
                    let event = event_from_document(&doc);
                    Some(Inbound { event, document: doc })
                },
                None => None,
            }
        },
        _ => None,
    }
}

} // verus!
