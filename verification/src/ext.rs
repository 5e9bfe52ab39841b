//! Open-ended extension payloads. Every message object may carry an `ext`
//! member: an arbitrary embedded JSON object with no internal constraints.
//! The codec never inspects it; the value is carried through decode and
//! encode verbatim as an opaque JSON object.

use vstd::prelude::*;

verus! {

/// Declares serde_json's JSON value type so that it can appear inside
/// extension objects. The codec treats it as opaque.
#[verifier::external_type_specification]
#[verifier::external_body]
pub struct ExValue(serde_json::Value);

/// Declares serde_json's JSON object type so that message structs can hold
/// extension payloads. The codec treats it as opaque.
#[verifier::external_type_specification]
#[verifier::external_body]
#[verifier::reject_recursive_types(K)]
#[verifier::reject_recursive_types(V)]
pub struct ExMap<K, V>(serde_json::Map<K, V>);

/// An exchange-specific extension object, preserved verbatim.
pub type Ext = serde_json::Map<String, serde_json::Value>;

} // verus!
