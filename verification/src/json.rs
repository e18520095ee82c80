//! The envelope of the combined streams, `{"stream": .., "data": ..}`: taking
//! the payload out of it.
//!
//! A message is handled as JSON text. The payload that comes out is JSON
//! text again, ready to be decoded into whatever type the caller expects.

use vstd::prelude::*;
use vstd::string::*;
use crate::error::{APIError, BianResult, Failure};
use crate::stream::StreamMode;

verus! {

/// A JSON value of the `serde_json` crate. What it holds is spoken of through
/// [`json_text`] alone.
#[verifier::external_type_specification]
#[verifier::external_body]
pub struct ExJsonValue(serde_json::Value);

/// The error of the `serde_json` crate for a text that is no JSON document. It
/// is carried, and only its message is read.
#[verifier::external_type_specification]
#[verifier::external_body]
pub struct ExJsonError(serde_json::Error);

/// What a JSON value holds, as its compact JSON text.
pub uninterp spec fn json_text(value: serde_json::Value) -> Seq<char>;

/// The compact JSON text of the value that `text` parses to, `None` when
/// `text` is no JSON document.
///
/// Parsing is done by the `serde_json` crate; this name stands for what it
/// returns.
pub uninterp spec fn json_parse(text: Seq<char>) -> Option<Seq<char>>;

/// The member `key` of the JSON value with the compact text `document`, as
/// compact text; `None` when the value is no object or has no such member.
pub uninterp spec fn json_member(document: Seq<char>, key: Seq<char>) -> Option<Seq<char>>;

/// Whether the JSON value with the compact text `document` is a string.
pub uninterp spec fn json_is_string(document: Seq<char>) -> bool;

/// Parses a JSON document.
///
/// Trusted: wraps `serde_json::from_str` at the type `serde_json::Value`,
/// which returns the value that the text denotes, or an error when the text
/// is no JSON document. The outcome depends on the text alone.
#[verifier::external_body]
fn parse_json(text: &str) -> (res: Result<serde_json::Value, serde_json::Error>)
    ensures
        match res {
            Ok(v) => json_parse(text@) == Some(json_text(v)),
            Err(_) => json_parse(text@) is None,
        },
{
    serde_json::from_str::<serde_json::Value>(text)
}

/// Looks a member of a JSON object up by its key.
///
/// Trusted: wraps `serde_json::Value::get` with a string index, which returns
/// the member under that key, and `None` when the value is no object or has
/// no such member.
#[verifier::external_body]
fn member<'a>(value: &'a serde_json::Value, key: &str) -> (res: Option<&'a serde_json::Value>)
    ensures
        match res {
            Some(m) => json_member(json_text(*value), key@) == Some(json_text(*m)),
            None => json_member(json_text(*value), key@) is None,
        },
{
    value.get(key)
}

/// Tells whether a JSON value is a string.
///
/// Trusted: wraps `serde_json::Value::is_string`.
#[verifier::external_body]
fn is_string(value: &serde_json::Value) -> (res: bool)
    ensures
        res == json_is_string(json_text(*value)),
{
    value.is_string()
}

/// Renders a JSON value as compact JSON text.
///
/// Trusted: wraps the `Display` implementation of `serde_json::Value`
/// (through `to_string`), which writes the value as JSON without
/// insignificant whitespace.
#[verifier::external_body]
fn render(value: &serde_json::Value) -> (text: String)
    ensures
        text@ == json_text(*value),
{
    value.to_string()
}

/// The message of a parse error.
///
/// Trusted: wraps the `Display` implementation of `serde_json::Error`
/// (through `to_string`). Nothing is claimed of the text.
#[verifier::external_body]
fn error_text(error: &serde_json::Error) -> (text: String) {
    error.to_string()
}

/// What is wrong with an envelope, given whether it has a `stream` member,
/// whether that member is a string, and whether it has a `data` member;
/// `None` when nothing is.
pub open spec fn envelope_fault(stream_is_string: Option<bool>, has_data: bool) -> Option<
    Seq<char>,
> {
    match stream_is_string {
        None => Some("missing field `stream`"@),
        Some(false) => Some("invalid type for field `stream`: expected a string"@),
        Some(true) => if has_data {
            None
        } else {
            Some("missing field `data`"@)
        },
    }
}

/// Whether the `stream` member of a parsed document is a string; `None` when
/// there is no such member.
pub open spec fn stream_is_string(document: Seq<char>) -> Option<bool> {
    match json_member(document, "stream"@) {
        Some(topic) => Some(json_is_string(topic)),
        None => None,
    }
}

/// The payload of an envelope, as compact JSON text: the `data` member of the
/// object that `text` denotes, provided that the object also has a `stream`
/// member that is a string. `None` when `text` is no such envelope.
pub open spec fn envelope_payload(text: Seq<char>) -> Option<Seq<char>> {
    match json_parse(text) {
        Some(document) => if envelope_fault(
            stream_is_string(document),
            json_member(document, "data"@) is Some,
        ) is None {
            json_member(document, "data"@)
        } else {
            None
        },
        None => None,
    }
}

/// Decides what an envelope yields from what was found in it: the payload
/// when the `stream` member is a string and the `data` member is there, and
/// a decode failure that names the fault otherwise.
pub fn envelope_outcome(stream_is_string: Option<bool>, data: Option<String>) -> (res: BianResult<
    String,
>)
    ensures
        match res {
            Ok(payload) => envelope_fault(stream_is_string, data is Some) is None && data == Some(
                payload,
            ),
            Err(e) => envelope_fault(stream_is_string, data is Some) matches Some(message)
                && e@ == Failure::Decode(message),
        },
{
    match stream_is_string {
        None => Err(APIError::DecodeError(String::from_str("missing field `stream`"))),
        Some(false) => Err(
            APIError::DecodeError(
                String::from_str("invalid type for field `stream`: expected a string"),
            ),
        ),
        Some(true) => match data {
            Some(payload) => Ok(payload),
            None => Err(APIError::DecodeError(String::from_str("missing field `data`"))),
        },
    }
}

/// Takes the payload out of the envelope of a combined stream and drops the
/// topic.
///
/// Succeeds exactly when the text is a JSON object with a `stream` member
/// that is a string and a `data` member. Every failure is a decode failure;
/// for a text that is JSON but no envelope it names the fault.
pub fn unwrap_envelope(text: &str) -> (res: BianResult<String>)
    ensures
        match res {
            Ok(payload) => envelope_payload(text@) == Some(payload@),
            Err(e) => envelope_payload(text@) is None && e@ is Decode && (json_parse(text@)
                matches Some(document) ==> Some(e@->Decode_0) == envelope_fault(
                stream_is_string(document),
                json_member(document, "data"@) is Some,
            )),
        },
{
    match parse_json(text) {
        Err(error) => Err(APIError::DecodeError(error_text(&error))),
        Ok(document) => {
            let topic_is_string = match member(&document, "stream") {
                Some(topic) => Some(is_string(topic)),
                None => None,
            };
            let data = match member(&document, "data") {
                Some(payload) => Some(render(payload)),
                None => None,
            };
            envelope_outcome(topic_is_string, data)
        },
    }
}

/// The payload of a message, as compact JSON text: the message itself on a
/// single-topic channel, the `data` member of its envelope on a combined
/// one. `None` when the text is not what the mode calls for.
pub open spec fn payload_text(mode: StreamMode, text: Seq<char>) -> Option<Seq<char>> {
    match mode {
        StreamMode::Single => json_parse(text),
        StreamMode::Combined => envelope_payload(text),
    }
}

/// Checks that a message of a single-topic channel is JSON and returns it as
/// compact JSON text; any other text is a decode failure.
pub fn normalize_json(text: &str) -> (res: BianResult<String>)
    ensures
        match res {
            Ok(payload) => json_parse(text@) == Some(payload@),
            Err(e) => json_parse(text@) is None && e@ is Decode,
        },
{
    match parse_json(text) {
        Ok(document) => Ok(render(&document)),
        Err(error) => Err(APIError::DecodeError(error_text(&error))),
    }
}

/// Takes the payload out of a message. Which shape the message has is
/// decided by the mode of the channel alone, never by looking at the text.
pub fn payload(mode: StreamMode, text: &str) -> (res: BianResult<String>)
    ensures
        match res {
            Ok(payload) => payload_text(mode, text@) == Some(payload@),
            Err(e) => payload_text(mode, text@) is None && e@ is Decode,
        },
{
    match mode {
        StreamMode::Single => normalize_json(text),
        StreamMode::Combined => unwrap_envelope(text),
    }
}

/// An envelope gives back what was put into it: when the `data` member of an
/// envelope is the value that a text denotes, the combined path yields for
/// the envelope exactly what the single-topic path yields for that text.
pub proof fn lemma_envelope_round_trip(envelope: Seq<char>, inner: Seq<char>)
    requires
        json_parse(envelope) matches Some(document) && stream_is_string(document) == Some(true)
            && json_member(document, "data"@) == json_parse(inner),
        json_parse(inner) is Some,
    ensures
        payload_text(StreamMode::Combined, envelope) == payload_text(StreamMode::Single, inner),
{
}

} // verus!
