//! The types of other crates that values of this crate carry. Each is
//! opaque to the verifier: nothing is known of what a value holds.

use vstd::prelude::*;

verus! {

/// `serde_json::Value`: a JSON document, carried from the caller to the
/// encoder.
#[verifier::external_type_specification]
#[verifier::external_body]
pub struct ExJsonValue(serde_json::Value);

/// `protobuf::RepeatedField`: the ordered collection that requests hold
/// their repeated parts in.
#[verifier::external_type_specification]
#[verifier::external_body]
#[verifier::reject_recursive_types(T)]
pub struct ExRepeatedField<T>(protobuf::RepeatedField<T>);

} // verus!
