//! JSON documents carried through the library unchanged (job payload
//! variables, audit metadata).
use vstd::prelude::*;

verus! {

/// `serde_json::Value`, held opaquely: the library only carries it.
#[verifier::external_type_specification]
#[verifier::external_body]
pub struct ExJsonValue(serde_json::Value);

} // verus!
