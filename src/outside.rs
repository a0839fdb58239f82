use vstd::prelude::*;

verus! {

/// A parsed JSON value, carried through to the backend client.
#[verifier::external_type_specification]
#[verifier::external_body]
pub struct ExJsonValue(serde_json::Value);

} // verus!
