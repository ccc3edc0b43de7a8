use vstd::prelude::*;

verus! {

/// One market event as it came over the wire, as the pipeline reads it: the
/// members it routes by and the whole JSON value as one line, which is
/// written out unmodified.
#[derive(Debug)]
pub struct MarketData {
    /// The `topic` member, where it is a string.
    pub topic: Option<String>,
    /// The `exchTimestamp` member, where it is an integer that fits in `i64`.
    pub exch_timestamp: Option<i64>,
    /// The `localTimestamp` member, where it is an integer that fits in `i64`.
    pub local_timestamp: Option<i64>,
    /// The whole value as one line of compact JSON.
    pub line: String,
}

/// The view of an optional string.
pub open spec fn opt_view(s: Option<String>) -> Option<Seq<char>> {
    match s {
        Some(t) => Some(t@),
        None => None,
    }
}

/// Whether `s` is the text of one JSON document (nested at most 128 levels
/// deep, as serde_json allows).
pub uninterp spec fn json_parses(s: Seq<char>) -> bool;

/// The JSON document of the text `s`, written again as compact JSON.
pub uninterp spec fn compact_json_of(s: Seq<char>) -> Seq<char>;

/// The string member `key` of the JSON object in the text `s`, if it has one.
pub uninterp spec fn json_str_member(s: Seq<char>, key: Seq<char>) -> Option<Seq<char>>;

/// The integer member `key` of the JSON object in the text `s`, if it has one
/// that fits in `i64`.
pub uninterp spec fn json_i64_member(s: Seq<char>, key: Seq<char>) -> Option<i64>;

/// Relies on `serde_json::from_str` into a `Value` and `serde_json::to_string`
/// of it: parsing succeeds exactly on the texts that hold one JSON document,
/// and writing a `Value` has no error path. The compact writer escapes
/// control characters inside strings, so the text holds no newline.
#[verifier::external_body]
fn compact_json(s: &str) -> (r: Option<String>)
    ensures
        r is Some <==> json_parses(s@),
        r matches Some(l) ==> l@ == compact_json_of(s@) && !l@.contains('\n'),
{
    match serde_json::from_str::<serde_json::Value>(s) {
        Ok(v) => serde_json::to_string(&v).ok(),
        Err(_) => None,
    }
}

/// Relies on `serde_json::from_str` into a `Value`, `Value::get` with a string
/// key and `Value::as_str`: the string member `key` of the document in `s`;
/// `None` where `s` is not JSON.
#[verifier::external_body]
fn str_member(s: &str, key: &str) -> (r: Option<String>)
    ensures
        opt_view(r) == json_str_member(s@, key@),
        !json_parses(s@) ==> r is None,
{
    match serde_json::from_str::<serde_json::Value>(s) {
        Ok(v) => v.get(key).and_then(serde_json::Value::as_str).map(String::from),
        Err(_) => None,
    }
}

/// Relies on `serde_json::from_str` into a `Value`, `Value::get` with a string
/// key and `Value::as_i64`: the integer member `key` of the document in `s`;
/// `None` where `s` is not JSON.
#[verifier::external_body]
fn i64_member(s: &str, key: &str) -> (r: Option<i64>)
    ensures
        r == json_i64_member(s@, key@),
        !json_parses(s@) ==> r is None,
{
    match serde_json::from_str::<serde_json::Value>(s) {
        Ok(v) => v.get(key).and_then(serde_json::Value::as_i64),
        Err(_) => None,
    }
}

/// Whether `d` is the record of the JSON text `payload`.
pub open spec fn decoded_from(payload: Seq<char>, d: MarketData) -> bool {
    &&& opt_view(d.topic) == json_str_member(payload, "topic"@)
    &&& d.exch_timestamp == json_i64_member(payload, "exchTimestamp"@)
    &&& d.local_timestamp == json_i64_member(payload, "localTimestamp"@)
    &&& d.line@ == compact_json_of(payload)
    &&& !d.line@.contains('\n')
}

impl MarketData {
    /// Decodes a message payload; `None` where it is not JSON.
    pub fn decode(payload: &str) -> (r: Option<MarketData>)
        ensures
            r is Some <==> json_parses(payload@),
            r matches Some(d) ==> decoded_from(payload@, d),
    {
        match compact_json(payload) {
            Some(line) => Some(
                MarketData {
                    topic: str_member(payload, "topic"),
                    exch_timestamp: i64_member(payload, "exchTimestamp"),
                    local_timestamp: i64_member(payload, "localTimestamp"),
                    line,
                },
            ),
            None => None,
        }
    }
}

/// What the network reader sees next.
pub enum ReaderEvent {
    /// A message payload arrived.
    Payload(String),
    /// The subscription delivered its last message.
    StreamEnded,
    /// The consumer of decoded records has gone away.
    ConsumerGone,
}

/// What the network reader does about it.
#[derive(Debug)]
pub enum ReaderAction {
    /// Hand the decoded record to the consumer.
    Forward(MarketData),
    /// Log and drop a payload that is not JSON, and read on.
    Skip,
    /// Stop reading.
    Stop,
}

/// The reader's decision on one event: a payload never stops the reader,
/// whether or not it decodes; only the end of the stream or the loss of the
/// consumer does.
pub fn reader_step(event: ReaderEvent) -> (r: ReaderAction)
    ensures
        match event {
            ReaderEvent::Payload(p) => {
                &&& (r is Forward <==> json_parses(p@))
                &&& (r matches ReaderAction::Forward(d) ==> decoded_from(p@, d))
                &&& (r is Skip <==> !json_parses(p@))
            },
            _ => r is Stop,
        },
{
    match event {
        ReaderEvent::Payload(p) => match MarketData::decode(p.as_str()) {
            Some(d) => ReaderAction::Forward(d),
            None => ReaderAction::Skip,
        },
        ReaderEvent::StreamEnded => ReaderAction::Stop,
        ReaderEvent::ConsumerGone => ReaderAction::Stop,
    }
}

} // verus!
