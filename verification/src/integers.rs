//! The integer element types, parsed as `poem_openapi` parses them.
//!
//! The parsers are those of `poem_openapi`. What they make of an input is not
//! spelled out here: it is given a name per type and kind of input, and all
//! that is assumed is that the outcome depends on the input alone. The names
//! and schemas of the types are written out, as `poem_openapi` has them.

use vstd::prelude::*;
use vstd::string::*;

use crate::element::{outcome_view, ElementType, ParseFromJSON, ParseFromParameter};
use crate::schema::{formatted_schema, Schema, SchemaView};

verus! {

/// What `poem_openapi` makes of a parameter text as `i32`: the value, or the
/// message of its error.
pub uninterp spec fn i32_parameter_outcome(text: Seq<char>) -> Result<i32, Seq<char>>;

/// What `poem_openapi` makes of a JSON value as `i32`: the value, or the
/// message of its error.
pub uninterp spec fn i32_json_outcome(value: serde_json::Value) -> Result<i32, Seq<char>>;

/// `<i32 as poem_openapi::types::ParseFromParameter>::parse_from_parameter`,
/// with the error reduced to its message. Assumed: the outcome depends on the
/// text alone.
#[verifier::external_body]
fn i32_from_parameter(text: &str) -> (outcome: Result<i32, String>)
    ensures
        outcome_view(outcome) == i32_parameter_outcome(text@),
{
    match <i32 as poem_openapi::types::ParseFromParameter>::parse_from_parameter(text) {
        Ok(value) => Ok(value),
        Err(error) => Err(error.into_message()),
    }
}

/// `<i32 as poem_openapi::types::ParseFromJSON>::parse_from_json` on a copy of
/// the value, with the error reduced to its message. Assumed: the outcome
/// depends on the value alone.
#[verifier::external_body]
fn i32_from_json(value: &serde_json::Value) -> (outcome: Result<i32, String>)
    ensures
        outcome_view(outcome) == i32_json_outcome(*value),
{
    match <i32 as poem_openapi::types::ParseFromJSON>::parse_from_json(Some(value.clone())) {
        Ok(value) => Ok(value),
        Err(error) => Err(error.into_message()),
    }
}

impl ElementType for i32 {
    open spec fn spec_name() -> Seq<char> {
        "integer_int32"@
    }

    open spec fn spec_schema() -> SchemaView {
        formatted_schema("integer"@, "int32"@)
    }

    fn name() -> (name: String) {
        String::from_str("integer_int32")
    }

    fn schema_ref() -> (schema: Schema) {
        Schema::new_with_format("integer", "int32")
    }
}

impl ParseFromParameter for i32 {
    open spec fn parameter_outcome(text: Seq<char>) -> Result<i32, Seq<char>> {
        i32_parameter_outcome(text)
    }

    fn parse_from_parameter(text: &str) -> (outcome: Result<i32, String>) {
        i32_from_parameter(text)
    }
}

impl ParseFromJSON for i32 {
    open spec fn json_outcome(value: serde_json::Value) -> Result<i32, Seq<char>> {
        i32_json_outcome(value)
    }

    fn parse_from_json(value: &serde_json::Value) -> (outcome: Result<i32, String>) {
        i32_from_json(value)
    }
}

/// What `poem_openapi` makes of a parameter text as `u16`: the value, or the
/// message of its error.
pub uninterp spec fn u16_parameter_outcome(text: Seq<char>) -> Result<u16, Seq<char>>;

/// What `poem_openapi` makes of a JSON value as `u16`: the value, or the
/// message of its error.
pub uninterp spec fn u16_json_outcome(value: serde_json::Value) -> Result<u16, Seq<char>>;

/// `<u16 as poem_openapi::types::ParseFromParameter>::parse_from_parameter`,
/// with the error reduced to its message. Assumed: the outcome depends on the
/// text alone.
#[verifier::external_body]
fn u16_from_parameter(text: &str) -> (outcome: Result<u16, String>)
    ensures
        outcome_view(outcome) == u16_parameter_outcome(text@),
{
    match <u16 as poem_openapi::types::ParseFromParameter>::parse_from_parameter(text) {
        Ok(value) => Ok(value),
        Err(error) => Err(error.into_message()),
    }
}

/// `<u16 as poem_openapi::types::ParseFromJSON>::parse_from_json` on a copy of
/// the value, with the error reduced to its message. Assumed: the outcome
/// depends on the value alone.
#[verifier::external_body]
fn u16_from_json(value: &serde_json::Value) -> (outcome: Result<u16, String>)
    ensures
        outcome_view(outcome) == u16_json_outcome(*value),
{
    match <u16 as poem_openapi::types::ParseFromJSON>::parse_from_json(Some(value.clone())) {
        Ok(value) => Ok(value),
        Err(error) => Err(error.into_message()),
    }
}

impl ElementType for u16 {
    open spec fn spec_name() -> Seq<char> {
        "integer(uint16)"@
    }

    open spec fn spec_schema() -> SchemaView {
        formatted_schema("integer"@, "uint16"@)
    }

    fn name() -> (name: String) {
        String::from_str("integer(uint16)")
    }

    fn schema_ref() -> (schema: Schema) {
        Schema::new_with_format("integer", "uint16")
    }
}

impl ParseFromParameter for u16 {
    open spec fn parameter_outcome(text: Seq<char>) -> Result<u16, Seq<char>> {
        u16_parameter_outcome(text)
    }

    fn parse_from_parameter(text: &str) -> (outcome: Result<u16, String>) {
        u16_from_parameter(text)
    }
}

impl ParseFromJSON for u16 {
    open spec fn json_outcome(value: serde_json::Value) -> Result<u16, Seq<char>> {
        u16_json_outcome(value)
    }

    fn parse_from_json(value: &serde_json::Value) -> (outcome: Result<u16, String>) {
        u16_from_json(value)
    }
}

/// What `poem_openapi` makes of a parameter text as `u32`: the value, or the
/// message of its error.
pub uninterp spec fn u32_parameter_outcome(text: Seq<char>) -> Result<u32, Seq<char>>;

/// What `poem_openapi` makes of a JSON value as `u32`: the value, or the
/// message of its error.
pub uninterp spec fn u32_json_outcome(value: serde_json::Value) -> Result<u32, Seq<char>>;

/// `<u32 as poem_openapi::types::ParseFromParameter>::parse_from_parameter`,
/// with the error reduced to its message. Assumed: the outcome depends on the
/// text alone.
#[verifier::external_body]
fn u32_from_parameter(text: &str) -> (outcome: Result<u32, String>)
    ensures
        outcome_view(outcome) == u32_parameter_outcome(text@),
{
    match <u32 as poem_openapi::types::ParseFromParameter>::parse_from_parameter(text) {
        Ok(value) => Ok(value),
        Err(error) => Err(error.into_message()),
    }
}

/// `<u32 as poem_openapi::types::ParseFromJSON>::parse_from_json` on a copy of
/// the value, with the error reduced to its message. Assumed: the outcome
/// depends on the value alone.
#[verifier::external_body]
fn u32_from_json(value: &serde_json::Value) -> (outcome: Result<u32, String>)
    ensures
        outcome_view(outcome) == u32_json_outcome(*value),
{
    match <u32 as poem_openapi::types::ParseFromJSON>::parse_from_json(Some(value.clone())) {
        Ok(value) => Ok(value),
        Err(error) => Err(error.into_message()),
    }
}

impl ElementType for u32 {
    open spec fn spec_name() -> Seq<char> {
        "integer(uint32)"@
    }

    open spec fn spec_schema() -> SchemaView {
        formatted_schema("integer"@, "uint32"@)
    }

    fn name() -> (name: String) {
        String::from_str("integer(uint32)")
    }

    fn schema_ref() -> (schema: Schema) {
        Schema::new_with_format("integer", "uint32")
    }
}

impl ParseFromParameter for u32 {
    open spec fn parameter_outcome(text: Seq<char>) -> Result<u32, Seq<char>> {
        u32_parameter_outcome(text)
    }

    fn parse_from_parameter(text: &str) -> (outcome: Result<u32, String>) {
        u32_from_parameter(text)
    }
}

impl ParseFromJSON for u32 {
    open spec fn json_outcome(value: serde_json::Value) -> Result<u32, Seq<char>> {
        u32_json_outcome(value)
    }

    fn parse_from_json(value: &serde_json::Value) -> (outcome: Result<u32, String>) {
        u32_from_json(value)
    }
}

/// What `poem_openapi` makes of a parameter text as `u64`: the value, or the
/// message of its error.
pub uninterp spec fn u64_parameter_outcome(text: Seq<char>) -> Result<u64, Seq<char>>;

/// What `poem_openapi` makes of a JSON value as `u64`: the value, or the
/// message of its error.
pub uninterp spec fn u64_json_outcome(value: serde_json::Value) -> Result<u64, Seq<char>>;

/// `<u64 as poem_openapi::types::ParseFromParameter>::parse_from_parameter`,
/// with the error reduced to its message. Assumed: the outcome depends on the
/// text alone.
#[verifier::external_body]
fn u64_from_parameter(text: &str) -> (outcome: Result<u64, String>)
    ensures
        outcome_view(outcome) == u64_parameter_outcome(text@),
{
    match <u64 as poem_openapi::types::ParseFromParameter>::parse_from_parameter(text) {
        Ok(value) => Ok(value),
        Err(error) => Err(error.into_message()),
    }
}

/// `<u64 as poem_openapi::types::ParseFromJSON>::parse_from_json` on a copy of
/// the value, with the error reduced to its message. Assumed: the outcome
/// depends on the value alone.
#[verifier::external_body]
fn u64_from_json(value: &serde_json::Value) -> (outcome: Result<u64, String>)
    ensures
        outcome_view(outcome) == u64_json_outcome(*value),
{
    match <u64 as poem_openapi::types::ParseFromJSON>::parse_from_json(Some(value.clone())) {
        Ok(value) => Ok(value),
        Err(error) => Err(error.into_message()),
    }
}

impl ElementType for u64 {
    open spec fn spec_name() -> Seq<char> {
        "integer(uint64)"@
    }

    open spec fn spec_schema() -> SchemaView {
        formatted_schema("integer"@, "uint64"@)
    }

    fn name() -> (name: String) {
        String::from_str("integer(uint64)")
    }

    fn schema_ref() -> (schema: Schema) {
        Schema::new_with_format("integer", "uint64")
    }
}

impl ParseFromParameter for u64 {
    open spec fn parameter_outcome(text: Seq<char>) -> Result<u64, Seq<char>> {
        u64_parameter_outcome(text)
    }

    fn parse_from_parameter(text: &str) -> (outcome: Result<u64, String>) {
        u64_from_parameter(text)
    }
}

impl ParseFromJSON for u64 {
    open spec fn json_outcome(value: serde_json::Value) -> Result<u64, Seq<char>> {
        u64_json_outcome(value)
    }

    fn parse_from_json(value: &serde_json::Value) -> (outcome: Result<u64, String>) {
        u64_from_json(value)
    }
}

} // verus!
