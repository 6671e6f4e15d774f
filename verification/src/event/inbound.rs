//! Inbound envelopes: what a browser sends when it reports an event.
//!
//! An inbound frame is a JSON object with the event's name, a string, under
//! `event_name`, and whatever the browser sent along under `event`.

use serde_json::Value;
use vstd::prelude::*;

use crate::event::kind::{classify, kind_named, EventKind};

verus! {

/// A JSON value of `serde_json`. The router hands it on without looking
/// inside.
#[verifier::external_type_specification]
#[verifier::external_body]
pub struct ExValue(serde_json::Value);

/// Why `serde_json` could not read a text.
#[verifier::external_type_specification]
#[verifier::external_body]
pub struct ExJsonError(serde_json::Error);

/// The value that `serde_json::from_str` reads from a text, if the text is
/// JSON.
pub uninterp spec fn json_of(text: Seq<char>) -> Option<Value>;

/// What `Value`'s indexing finds in a value under a key: the member, or
/// JSON's null where the value is no object or has no such member.
pub uninterp spec fn json_member(value: Value, key: Seq<char>) -> Value;

/// The text that `Value::as_str` finds in a value, if the value is a
/// string.
pub uninterp spec fn json_text(value: Value) -> Option<Seq<char>>;

/// Reads a text as JSON, by `serde_json::from_str`. The contract names the
/// value that is read, and claims an error exactly where none is.
#[verifier::external_body]
fn parse_json(text: &str) -> (parsed: Result<Value, serde_json::Error>)
    ensures
        match parsed {
            Ok(value) => json_of(text@) == Some(value),
            Err(_) => json_of(text@) is None,
        },
{
    serde_json::from_str(text)
}

/// Looks a key up in a value, by `Value`'s indexing with a string. The
/// contract names what is found.
#[verifier::external_body]
fn member<'a>(value: &'a Value, key: &str) -> (found: &'a Value)
    ensures
        *found == json_member(*value, key@),
{
    &value[key]
}

/// The text of a value that is a string, by `Value::as_str`. The contract
/// names the text, and claims `None` exactly where the value is no string.
#[verifier::external_body]
fn text_of<'a>(value: &'a Value) -> (text: Option<&'a str>)
    ensures
        match text {
            Some(found) => json_text(*value) == Some(found@),
            None => json_text(*value) is None,
        },
{
    value.as_str()
}

/// A copy of a value, by `Value::clone`, which copies the whole value.
#[verifier::external_body]
fn copy_value(value: &Value) -> (copy: Value)
    ensures
        copy == *value,
{
    value.clone()
}

/// The text that a frame holds under `key`, if the frame is JSON and a
/// string stands under that key.
pub open spec fn inbound_name(frame: Seq<char>, key: Seq<char>) -> Option<Seq<char>> {
    match json_of(frame) {
        Some(value) => json_text(json_member(value, key)),
        None => None,
    }
}

/// The value that a frame which is JSON holds under `key`: JSON's null
/// where nothing stands there.
pub open spec fn inbound_event(frame: Seq<char>, key: Seq<char>) -> Value {
    json_member(json_of(frame).unwrap(), key)
}

/// Reads a frame and takes from it the string under `name_key` and a copy
/// of the value under `event_key`. None where the frame is no JSON or holds
/// no string under `name_key`.
fn read_inbound(frame: &str, name_key: &str, event_key: &str) -> (parts: Option<
    (String, Value),
>)
    ensures
        match parts {
            Some(found) => {
                &&& inbound_name(frame@, name_key@) == Some(found.0@)
                &&& found.1 == inbound_event(frame@, event_key@)
            },
            None => inbound_name(frame@, name_key@) is None,
        },
{
    match parse_json(frame) {
        Ok(value) => match text_of(member(&value, name_key)) {
            Some(name) => Some((name.to_owned(), copy_value(member(&value, event_key)))),
            None => None,
        },
        Err(_) => None,
    }
}

/// What the router makes of one inbound frame.
#[derive(Debug, PartialEq)]
pub enum Inbound {
    /// A known event, with what the browser sent along.
    Known { kind: EventKind, event: Value },
    /// A well-formed envelope whose event has no handler.
    Unknown,
    /// Not an envelope.
    Malformed,
}

/// What became of one inbound frame.
#[derive(Debug, Clone, Copy, PartialEq, Eq, Structural)]
pub enum Outcome {
    /// The handler of this event was called.
    Handled(EventKind),
    /// The event is not a known one; nothing was called.
    Ignored,
    /// The frame was no envelope; nothing was called.
    Dropped,
}

/// What becomes of a frame, given the text found under its `event_name`.
pub open spec fn outcome_of(name: Option<Seq<char>>) -> Outcome {
    match name {
        Some(text) => match kind_named(text) {
            Some(kind) => Outcome::Handled(kind),
            None => Outcome::Ignored,
        },
        None => Outcome::Dropped,
    }
}

impl Inbound {
    /// What becomes of the frame once it is acted upon.
    pub open spec fn outcome(self) -> Outcome {
        match self {
            Inbound::Known { kind, .. } => Outcome::Handled(kind),
            Inbound::Unknown => Outcome::Ignored,
            Inbound::Malformed => Outcome::Dropped,
        }
    }
}

/// Sorts an envelope by the event name that was read from it: a known name
/// gives the event with what came along, any other name gives `Unknown`.
pub fn sort(name: &str, event: Value) -> (inbound: Inbound)
    ensures
        inbound.outcome() == outcome_of(Some(name@)),
        inbound matches Inbound::Known { event: carried, .. } ==> carried == event,
{
    match classify(name) {
        Some(kind) => Inbound::Known { kind, event },
        None => Inbound::Unknown,
    }
}

/// Reads one inbound frame and sorts it: the event's name is the string
/// under `event_name`, and what came along is the value under `event`. A
/// frame that is no envelope is `Malformed`; nothing else comes of it.
pub fn route(frame: &str) -> (inbound: Inbound)
    ensures
        inbound.outcome() == outcome_of(inbound_name(frame@, "event_name"@)),
        inbound matches Inbound::Known { event: carried, .. } ==> carried == inbound_event(
            frame@,
            "event"@,
        ),
{
    match read_inbound(frame, "event_name", "event") {
        Some((name, event)) => sort(name.as_str(), event),
        None => Inbound::Malformed,
    }
}

} // verus!
