//! The interface to the external serializer: payloads cross the boundary as
//! JSON text, produced and read back by `serde_json`. The encoding itself is
//! an external collaborator, specified only at its interface.

use vstd::prelude::*;

verus! {

#[verifier::external_type_specification]
#[verifier::external_body]
pub struct ExValue(serde_json::Value);

#[verifier::external_type_specification]
#[verifier::external_body]
pub struct ExJsonError(serde_json::Error);

/// The value that parsing `bytes` as JSON text yields, or nothing when the
/// parse is refused. Parsing depends on the bytes alone, so the outcome can
/// carry a name without a definition.
pub uninterp spec fn json_value_of(bytes: Seq<u8>) -> Option<serde_json::Value>;

/// The JSON text the serializer produces for `v`. Serialization depends on
/// the value alone, so the output can carry a name without a definition.
pub uninterp spec fn json_bytes_of(v: serde_json::Value) -> Seq<u8>;

/// Relies on `serde_json::from_slice::<serde_json::Value>`: the outcome is a
/// function of the input bytes alone; `json_value_of` names it.
#[verifier::external_body]
pub(crate) fn parse_json_bytes(bytes: &[u8]) -> (r: Result<serde_json::Value, serde_json::Error>)
    ensures
        r is Ok <==> json_value_of(bytes@) is Some,
        r matches Ok(v) ==> json_value_of(bytes@) == Some(v),
{
    serde_json::from_slice(bytes)
}

/// Relies on `serde_json::to_vec::<serde_json::Value>`: it writes into a
/// vector, whose writer is infallible, and a JSON value's own serializer
/// has no error path (object keys are always strings), so the call always
/// succeeds. Its output depends on the value alone; `json_bytes_of` names
/// it. The bytes are a JSON text for the given value, so a parse of them
/// that succeeds (the parser refuses nesting past its recursion limit)
/// yields that value back.
#[verifier::external_body]
pub(crate) fn to_json_bytes(value: &serde_json::Value) -> (r: Result<
    Vec<u8>,
    serde_json::Error,
>)
    ensures
        r is Ok,
        r matches Ok(payload) ==> payload@ == json_bytes_of(*value),
        r matches Ok(payload) ==> (json_value_of(payload@) is Some ==> json_value_of(payload@)
            == Some(*value)),
{
    serde_json::to_vec(value)
}

} // verus!
