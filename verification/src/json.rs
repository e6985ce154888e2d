//! JSON values, as far as the adapters look into them.
//!
//! A `serde_json::Value` is carried through as it is. Two things are asked of
//! it: whether it is an array (and then its elements, in order), and its
//! compact JSON text, which is what errors quote.

use vstd::prelude::*;

verus! {

/// `serde_json::Value`, opaque to the verifier.
#[verifier::external_type_specification]
#[verifier::external_body]
pub struct ExJsonValue(serde_json::Value);

/// The elements of `value`, in order, where it is a JSON array; `None` for
/// every other kind of value.
pub uninterp spec fn json_array_items(value: serde_json::Value) -> Option<Seq<serde_json::Value>>;

/// The compact JSON text of `value`.
pub uninterp spec fn json_rendering(value: serde_json::Value) -> Seq<char>;

/// `serde_json::Value::as_array` hands out the vector of an array's elements,
/// and `None` for a value of any other kind.
pub assume_specification[ serde_json::Value::as_array ](value: &serde_json::Value) -> (items:
    Option<&Vec<serde_json::Value>>)
    ensures
        match items {
            Some(elements) => json_array_items(*value) == Some(elements@),
            None => json_array_items(*value) is None,
        },
;

/// The compact JSON text of a value: `to_string` on a `serde_json::Value`,
/// which writes it through the value's `Display`. The text depends on the
/// value alone.
#[verifier::external_body]
pub(crate) fn json_text(value: &serde_json::Value) -> (text: String)
    ensures
        text@ == json_rendering(*value),
{
    value.to_string()
}

} // verus!
