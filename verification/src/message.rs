//! The fetched message: a plain view of one record, and the text the
//! message panel shows for it.

use vstd::prelude::*;
use vstd::string::*;
use crate::strings::{pair_views, spec_dec_i64, i64_to_dec_string};

verus! {

/// One fetched message, reduced to plain values. The headers keep their
/// order of arrival. It is built per fetch and discarded after display.
pub struct KafkaMessage {
    pub topic: String,
    pub partition: i32,
    pub offset: i64,
    pub key: Option<String>,
    pub headers: Vec<(String, String)>,
    pub payload: Option<String>,
    pub timestamp: Option<i64>,
}

/// The key text, or the fixed placeholder.
pub open spec fn spec_key_or_default(m: KafkaMessage) -> Seq<char> {
    match m.key {
        Some(k) => k@,
        None => ("No key")@,
    }
}

/// The payload text, or the fixed placeholder.
pub open spec fn spec_payload_or_default(m: KafkaMessage) -> Seq<char> {
    match m.payload {
        Some(p) => p@,
        None => ("No Payload")@,
    }
}

/// The timestamp rendered in decimal, zero when the broker sent none.
pub open spec fn spec_timestamp_or_default(m: KafkaMessage) -> Seq<char> {
    match m.timestamp {
        Some(t) => spec_dec_i64(t as int),
        None => spec_dec_i64(0),
    }
}

/// What pretty-printing a payload yields: parsed as JSON and re-rendered
/// when the text parses, the text unchanged when it does not.
pub uninterp spec fn pretty_json_of(s: Seq<char>) -> Seq<char>;

/// What rendering the headers as a JSON object yields.
pub uninterp spec fn pretty_headers_of(h: Seq<(Seq<char>, Seq<char>)>) -> Seq<char>;

/// Relies on serde_json's `from_str` and `to_string_pretty`: the payload is
/// parsed and re-rendered when it is JSON, handed back unchanged when it is
/// not; the result depends on the text alone.
#[verifier::external_body]
fn pretty_print_json(json_str: &str) -> (r: String)
    ensures
        r@ == pretty_json_of(json_str@),
{
    match serde_json::from_str::<serde_json::Value>(json_str) {
        Ok(json) => match serde_json::to_string_pretty(&json) {
            Ok(pretty_json) => pretty_json,
            Err(_) => json_str.to_string(),
        },
        Err(_) => json_str.to_string(),
    }
}

/// Relies on serde_json's `to_string_pretty` over its map type: the header
/// pairs render as a JSON object; the result depends on the pairs alone.
#[verifier::external_body]
fn pretty_print_headers(headers: &Vec<(String, String)>) -> (r: String)
    ensures
        r@ == pretty_headers_of(pair_views(headers@)),
{
    let map: serde_json::Map<String, serde_json::Value> = headers.iter().map(
        |kv| (kv.0.clone(), serde_json::Value::String(kv.1.clone())),
    ).collect();
    match serde_json::to_string_pretty(&map) {
        Ok(pretty) => pretty,
        Err(_) => String::new(),
    }
}

/// The text of the message panel for one fetched message.
pub open spec fn spec_message_text(m: KafkaMessage) -> Seq<char> {
    ("Key: ")@ + spec_key_or_default(m) + ("\n\nHeaders: ")@ + pretty_headers_of(
        pair_views(m.headers@),
    ) + ("\n\nPayload: ")@ + pretty_json_of(spec_payload_or_default(m))
}

/// The title of the message panel for one fetched message.
pub open spec fn spec_message_title(m: KafkaMessage) -> Seq<char> {
    ("Message offset:")@ + spec_dec_i64(m.offset as int) + (" ts:")@ + spec_timestamp_or_default(m)
}

impl KafkaMessage {
    /// The payload, or the fixed placeholder.
    pub fn payload_or_default(&self) -> (r: String)
        ensures
            r@ == spec_payload_or_default(*self),
    {
        match &self.payload {
            Some(p) => p.clone(),
            None => String::from_str("No Payload"),
        }
    }

    /// The timestamp in decimal, zero when the broker sent none.
    pub fn timestamp_or_default(&self) -> (r: String)
        ensures
            r@ == spec_timestamp_or_default(*self),
    {
        match self.timestamp {
            Some(t) => i64_to_dec_string(t),
            None => i64_to_dec_string(0),
        }
    }

    /// The key, or the fixed placeholder.
    pub fn key_or_default(&self) -> (r: String)
        ensures
            r@ == spec_key_or_default(*self),
    {
        match &self.key {
            Some(k) => k.clone(),
            None => String::from_str("No key"),
        }
    }

    /// The body the message panel shows: key, headers rendered as a JSON
    /// object, and the payload pretty-printed when it parses as JSON.
    pub fn render_text(&self) -> (r: String)
        ensures
            r@ == spec_message_text(*self),
    {
        let mut r = String::from_str("Key: ");
        let key = self.key_or_default();
        r.append(key.as_str());
        r.append("\n\nHeaders: ");
        let headers = pretty_print_headers(&self.headers);
        r.append(headers.as_str());
        r.append("\n\nPayload: ");
        let payload = self.payload_or_default();
        let pretty = pretty_print_json(payload.as_str());
        r.append(pretty.as_str());
        proof {
            assert(r@ =~= spec_message_text(*self));
        }
        r
    }

    /// The title the message panel shows: offset and timestamp.
    pub fn render_title(&self) -> (r: String)
        ensures
            r@ == spec_message_title(*self),
    {
        let mut r = String::from_str("Message offset:");
        let offset = i64_to_dec_string(self.offset);
        r.append(offset.as_str());
        r.append(" ts:");
        let ts = self.timestamp_or_default();
        r.append(ts.as_str());
        proof {
            assert(r@ =~= spec_message_title(*self));
        }
        r
    }
}

} // verus!
