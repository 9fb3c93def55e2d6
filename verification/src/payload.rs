//! Encoding of the variables that travel with a request. The engine itself
//! never looks inside a payload; only the requests that carry fresh
//! variables encode them, as JSON text.

use crate::error::Error;
use vstd::prelude::*;

verus! {

/// The JSON document that a value holds, as the compact text that
/// `serde_json::to_string` writes for it, or `None` where the value
/// cannot be written.
pub uninterp spec fn json_text(value: serde_json::Value) -> Option<Seq<char>>;

/// Calls `serde_json::to_string` on a JSON value: the text is the one the
/// value holds, and the call fails exactly where the value cannot be
/// written. A failure is rendered with `Debug`; nothing is claimed of it.
#[verifier::external_body]
fn to_json_text(value: &serde_json::Value) -> (text: Result<String, String>)
    ensures
        text matches Ok(written) ==> json_text(*value) == Some(written@),
        text is Err ==> json_text(*value) is None,
{
    serde_json::to_string(value).map_err(|error| format!("{:?}", error))
}

/// Turns what encoding returned into the payload of a request.
pub fn payload(encoded: Result<String, String>) -> (carried: Result<String, Error>)
    ensures
        carried == payload_from(encoded),
{
    match encoded {
        Ok(text) => Ok(text),
        Err(detail) => Err(Error::JsonError(detail)),
    }
}

/// Encodes variables as JSON text: the text that the value holds, or a
/// `JsonError` where the value cannot be written, and nothing else.
pub fn encode(value: &serde_json::Value) -> (carried: Result<String, Error>)
    ensures
        match carried {
            Ok(text) => json_text(*value) == Some(text@),
            Err(error) => error is JsonError && json_text(*value) is None,
        },
{
    payload(to_json_text(value))
}

/// The payload a request carries, given what encoding its variables
/// returned: the text, or the serialization error to surface.
pub open spec fn payload_from(encoded: Result<String, String>) -> Result<String, Error> {
    match encoded {
        Ok(text) => Ok(text),
        Err(detail) => Err(Error::JsonError(detail)),
    }
}

} // verus!
