//! The structured error that reaches the user interface: a message key and,
//! with it, the values the message is filled in with.

use crate::json::{Json, JsonValue};
use vstd::prelude::*;

verus! {

/// An error for the user interface.
#[derive(Debug, PartialEq, Eq)]
pub struct UiErrorPayload {
    /// Selects the message to show.
    pub key: String,
    /// What the message is filled in with: status codes, vendor codes, ids.
    pub values: Option<Json>,
}

/// What a [`UiErrorPayload`] holds.
pub struct Payload {
    pub key: Seq<char>,
    pub values: Option<JsonValue>,
}

impl View for UiErrorPayload {
    type V = Payload;

    open spec fn view(&self) -> Payload {
        Payload {
            key: self.key@,
            values: match self.values {
                Some(values) => Some(values@),
                None => None,
            },
        }
    }
}

/// The payload of an unexpected failure, such as a network or decoding error.
pub open spec fn unexpected_payload(details: Seq<char>) -> Payload {
    Payload {
        key: "errors:unexpected.withDetails"@,
        values: Some(JsonValue::Object(seq![("details"@, JsonValue::Text(details))])),
    }
}

impl UiErrorPayload {
    /// An error without values.
    pub fn key(key: &str) -> (payload: Self)
        ensures
            payload@ == (Payload { key: key@, values: None }),
    {
        Self { key: key.to_owned(), values: None }
    }

    /// An error with values.
    pub fn with_values(key: &str, values: Json) -> (payload: Self)
        ensures
            payload@ == (Payload { key: key@, values: Some(values@) }),
    {
        Self { key: key.to_owned(), values: Some(values) }
    }

    /// An unexpected failure, described by `details`.
    pub fn unexpected(details: &str) -> (payload: Self)
        ensures
            payload@ == unexpected_payload(details@),
    {
        let values = Json::object().with("details", Json::text(details));
        assert(values@->Object_0 =~= seq![("details"@, JsonValue::Text(details@))]);
        Self::with_values("errors:unexpected.withDetails", values)
    }
}

} // verus!
