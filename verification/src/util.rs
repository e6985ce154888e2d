//! The schema shared by the adapters with a hard capacity.

use vstd::prelude::*;
use vstd::string::*;

use crate::element::ElementType;
use crate::schema::{array_schema, Schema, SchemaView};
use crate::text::{decimal, decimal_text};

verus! {

/// The schema of a list of one to `capacity` elements: that of an array of
/// `capacity` elements, relabelled, with the bounds on the number of elements
/// set to 1 and `capacity`.
pub open spec fn fixed_capacity_schema(
    element: SchemaView,
    element_name: Seq<char>,
    capacity: nat,
) -> SchemaView {
    SchemaView {
        title: Some("ArrayVec<"@ + element_name + ">"@),
        description: Some("1 to "@ + decimal(capacity) + " items of type "@ + element_name),
        min_items: Some(1),
        max_items: Some(capacity),
        min_length: Some(1),
        max_length: Some(capacity),
        ..array_schema(element, capacity)
    }
}

/// The schema of a list of one to `SIZE` elements of type `T`.
pub fn fixed_capacity_schema_ref<T: ElementType, const SIZE: usize>() -> (schema: Schema)
    ensures
        schema@ == fixed_capacity_schema(T::spec_schema(), T::spec_name(), SIZE as nat),
        schema@.min_items == Some(1nat),
        schema@.max_items == Some(SIZE as nat),
        schema@.items == Some(Box::new(T::spec_schema())),
{
    let mut schema = Schema::array_of(T::schema_ref(), SIZE);
    schema.min_length = Some(1);
    schema.min_items = Some(1);
    schema.max_items = Some(SIZE);
    schema.max_length = Some(SIZE);

    let element_name = T::name();
    let mut title = String::from_str("ArrayVec<");
    title.append(element_name.as_str());
    title.append(">");
    schema.title = Some(title);

    let mut description = String::from_str("1 to ");
    let capacity = decimal_text(SIZE);
    description.append(capacity.as_str());
    description.append(" items of type ");
    description.append(element_name.as_str());
    schema.description = Some(description);

    schema
}

} // verus!
