//! Trusted boundary to `serde_json`: the opaque JSON value type that tool
//! schemas and tool-call arguments are carried in, together with the two
//! operations the library needs on it.

use vstd::prelude::*;

verus! {

#[verifier::external_type_specification]
#[verifier::external_body]
pub struct ExValue(serde_json::Value);

/// The compact JSON text of a value, as `serde_json` renders it.
pub uninterp spec fn json_text_of(v: serde_json::Value) -> Seq<char>;

/// Relies on serde_json's `Display` impl for `Value`, which writes the value
/// as compact JSON text; the text is a function of the value alone.
#[verifier::external_body]
pub(crate) fn json_text(v: &serde_json::Value) -> (r: String)
    ensures
        r@ == json_text_of(*v),
{
    v.to_string()
}

/// Relies on serde_json's derived `Clone` for `Value`: the clone is equal to
/// the original value.
#[verifier::external_body]
pub(crate) fn clone_value(v: &serde_json::Value) -> (r: serde_json::Value)
    ensures
        r == *v,
{
    v.clone()
}

} // verus!
