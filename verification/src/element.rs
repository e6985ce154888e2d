//! What an adapter asks of its element type.

use vstd::prelude::*;

use crate::schema::{Schema, SchemaView};

verus! {

/// A type that can describe itself.
pub trait ElementType: Sized {
    /// The name under which the type is known to API consumers.
    spec fn spec_name() -> Seq<char>;

    /// The schema of a single value of the type.
    spec fn spec_schema() -> SchemaView;

    /// The name under which the type is known to API consumers.
    fn name() -> (name: String)
        ensures
            name@ == Self::spec_name(),
    ;

    /// The schema of a single value of the type.
    fn schema_ref() -> (schema: Schema)
        ensures
            schema@ == Self::spec_schema(),
    ;
}

/// A type whose values can be read from the text of one parameter.
pub trait ParseFromParameter: ElementType {
    /// What parsing `text` gives: the value, or the parser's message.
    spec fn parameter_outcome(text: Seq<char>) -> Result<Self, Seq<char>>;

    /// Parses one value from the text of a parameter.
    fn parse_from_parameter(text: &str) -> (outcome: Result<Self, String>)
        ensures
            outcome_view(outcome) == Self::parameter_outcome(text@),
    ;
}

/// A type whose values can be read from a JSON value.
pub trait ParseFromJSON: ElementType {
    /// What parsing `value` gives: the value, or the parser's message.
    spec fn json_outcome(value: serde_json::Value) -> Result<Self, Seq<char>>;

    /// Parses one value from a JSON value.
    fn parse_from_json(value: &serde_json::Value) -> (outcome: Result<Self, String>)
        ensures
            outcome_view(outcome) == Self::json_outcome(*value),
    ;
}

/// An element parser's result, with its message as a sequence of characters.
pub open spec fn outcome_view<T>(outcome: Result<T, String>) -> Result<T, Seq<char>> {
    match outcome {
        Ok(value) => Ok(value),
        Err(message) => Err(message@),
    }
}

} // verus!
