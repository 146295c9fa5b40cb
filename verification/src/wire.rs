//! The one shape in which a failure leaves the engine: a message and a
//! code. The message is for people and may change; the code is one of a
//! fixed vocabulary and is what callers branch on.

use crate::error::Error;
use crate::json::{
    json_member, json_quoted, json_str, object_value2, string_value, value_member, value_str,
    value_text,
};
use crate::text::{debug_quote, debug_quoted, join5, same_text};
use crate::{GA_ERROR, GA_NOT_AUTHORIZED};
use serde_json::Value;
use vstd::pervasive::arbitrary;
use vstd::prelude::*;
use vstd::std_specs::convert::FromSpecImpl;
use vstd::string::*;

verus! {

/// A failure as callers see it.
#[derive(Debug, Clone, PartialEq, Eq)]
pub struct JsonError {
    /// What went wrong, in words.
    pub message: String,
    /// The code of the failure.
    pub error: String,
}

/// The JSON text of a failure: an object with the message under "message"
/// and the code under "error", in that order.
pub open spec fn wire_text(message: Seq<char>, code: Seq<char>) -> Seq<char> {
    "{\"message\":"@ + json_quoted(message) + ",\"error\":"@ + json_quoted(code) + "}"@
}

/// The text that stands for a failure in a log: both fields by name, each
/// between quotes.
pub open spec fn wire_debug_text(message: Seq<char>, code: Seq<char>) -> Seq<char> {
    "JsonError { message: "@ + debug_quoted(message) + ", error: "@ + debug_quoted(code) + " }"@
}

/// `v` is an object that holds the string `message` under "message" and
/// the string `code` under "error".
pub open spec fn is_wire_value(v: Value, message: Seq<char>, code: Seq<char>) -> bool {
    &&& json_member(v, "message"@) matches Some(m) && json_str(m) == Some(message)
    &&& json_member(v, "error"@) matches Some(c) && json_str(c) == Some(code)
}

/// The message and the code that a value holds, if it holds both as
/// strings.
pub open spec fn wire_fields(v: Value) -> Option<(Seq<char>, Seq<char>)> {
    match json_member(v, "message"@) {
        Some(m) => match json_member(v, "error"@) {
            Some(c) => match json_str(m) {
                Some(message) => match json_str(c) {
                    Some(code) => Some((message, code)),
                    None => None,
                },
                None => None,
            },
            None => None,
        },
        None => None,
    }
}

/// The status that a boundary call returns with a failure of this code:
/// not authorised for a wrong PIN, the general error for everything else.
pub open spec fn status_of_code(code: Seq<char>) -> i32 {
    if code == "id_invalid_pin"@ {
        GA_NOT_AUTHORIZED
    } else {
        GA_ERROR
    }
}

/// The JSON text of a string.
pub fn json_quote(s: &str) -> (r: String)
    ensures
        r@ == json_quoted(s@),
{
    let v = string_value(s);
    value_text(&v)
}

impl JsonError {
    /// The failure as JSON text.
    pub fn to_json(&self) -> (r: String)
        ensures
            r@ == wire_text(self.message@, self.error@),
    {
        let message = json_quote(self.message.as_str());
        let code = json_quote(self.error.as_str());
        join5("{\"message\":", message.as_str(), ",\"error\":", code.as_str(), "}")
    }

    /// The failure as a JSON value: an object with the message under
    /// "message", the code under "error", and no other member.
    pub fn to_value(&self) -> (r: Value)
        ensures
            is_wire_value(r, self.message@, self.error@),
            forall|k: Seq<char>|
                k != "message"@ && k != "error"@ ==> (#[trigger] json_member(r, k)) is None,
            json_str(r) is None,
    {
        proof {
            reveal_strlit("message");
            reveal_strlit("error");
            assert("message"@.len() != "error"@.len());
        }
        object_value2(
            "message",
            string_value(self.message.as_str()),
            "error",
            string_value(self.error.as_str()),
        )
    }

    /// The failure that a JSON value holds: `Some` exactly where the value
    /// is an object with a string under "message" and a string under
    /// "error", and then with those two.
    pub fn from_value(v: &Value) -> (r: Option<JsonError>)
        ensures
            r is Some <==> wire_fields(*v) is Some,
            r matches Some(e) ==> wire_fields(*v) == Some((e.message@, e.error@)),
    {
        let message = match value_member(v, "message") {
            Some(m) => m,
            None => { return None; },
        };
        let code = match value_member(v, "error") {
            Some(c) => c,
            None => { return None; },
        };
        let message = match value_str(message) {
            Some(s) => s,
            None => { return None; },
        };
        let code = match value_str(code) {
            Some(s) => s,
            None => { return None; },
        };
        Some(JsonError { message: String::from_str(message), error: String::from_str(code) })
    }

    /// The text that stands for the failure in a log.
    pub fn debug_text(&self) -> (r: String)
        ensures
            r@ == wire_debug_text(self.message@, self.error@),
    {
        let message = debug_quote(self.message.as_str());
        let code = debug_quote(self.error.as_str());
        join5("JsonError { message: ", message.as_str(), ", error: ", code.as_str(), " }")
    }

    /// The status that a boundary call returns with this failure.
    pub fn status(&self) -> (r: i32)
        ensures
            r == status_of_code(self.error@),
    {
        if same_text("id_invalid_pin", self.error.as_str()) {
            GA_NOT_AUTHORIZED
        } else {
            GA_ERROR
        }
    }
}

/// A failure of the engine as callers see it: its description as the
/// message, its code as the code.
impl From<Error> for JsonError {
    fn from(e: Error) -> (r: JsonError)
        ensures
            r.message@ == e.message_spec(),
            r.error@ == e.code_spec(),
    {
        JsonError { message: e.to_string(), error: e.to_gdk_code() }
    }
}

impl FromSpecImpl<Error> for JsonError {
    open spec fn obeys_from_spec() -> bool {
        false
    }

    open spec fn from_spec(e: Error) -> JsonError {
        arbitrary()
    }
}

/// The JSON text that reports `error` to the caller of a stateless method.
pub fn build_error(_method: &str, error: &Error) -> (r: String)
    ensures
        r@ == wire_text(error.message_spec(), error.code_spec()),
{
    let message = error.to_string();
    let error = error.to_gdk_code();
    let json_error = JsonError { message, error };
    json_error.to_json()
}

/// Writing a failure to a JSON value and reading it back gives the same
/// message and the same code: a value that holds the two fields of `e` is
/// read as exactly those two.
pub proof fn lemma_wire_round_trip(e: JsonError, v: Value)
    requires
        is_wire_value(v, e.message@, e.error@),
    ensures
        wire_fields(v) == Some((e.message@, e.error@)),
{
}

/// Only a wrong PIN is answered with the status that makes the caller
/// count a failed attempt; every other failure, a failure of the PIN
/// service among them, is answered with the general error.
pub proof fn lemma_status_of_failure(e: Error)
    ensures
        status_of_code(e.code_spec()) == GA_NOT_AUTHORIZED <==> e is InvalidPin,
        !(e is InvalidPin) ==> status_of_code(e.code_spec()) == GA_ERROR,
{
    crate::error::lemma_invalid_pin_only(e);
}

} // verus!
