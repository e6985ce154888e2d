//! The schema fragment by which a type describes itself to API consumers.

use vstd::prelude::*;
use vstd::string::*;

verus! {

/// A schema fragment: the kind of value, how it is labelled, what its
/// elements are, and the bounds on their number.
#[derive(Debug, PartialEq, Eq)]
pub struct Schema {
    /// The kind of value: `"array"`, `"integer"`, ...
    pub ty: String,
    /// A refinement of the kind, such as `"int32"`.
    pub format: Option<String>,
    pub title: Option<String>,
    pub description: Option<String>,
    pub nullable: bool,
    /// The schema of each element, for an array.
    pub items: Option<Box<Schema>>,
    pub min_items: Option<usize>,
    pub max_items: Option<usize>,
    pub min_length: Option<usize>,
    pub max_length: Option<usize>,
}

/// A [`Schema`] as a mathematical value.
pub struct SchemaView {
    pub ty: Seq<char>,
    pub format: Option<Seq<char>>,
    pub title: Option<Seq<char>>,
    pub description: Option<Seq<char>>,
    pub nullable: bool,
    pub items: Option<Box<SchemaView>>,
    pub min_items: Option<nat>,
    pub max_items: Option<nat>,
    pub min_length: Option<nat>,
    pub max_length: Option<nat>,
}

/// The view of an optional text.
pub open spec fn text_view(text: Option<String>) -> Option<Seq<char>> {
    match text {
        Some(t) => Some(t@),
        None => None,
    }
}

/// The view of an optional count.
pub open spec fn count_view(count: Option<usize>) -> Option<nat> {
    match count {
        Some(c) => Some(c as nat),
        None => None,
    }
}

/// What a schema says, level by level.
pub open spec fn schema_view(schema: Schema) -> SchemaView
    decreases schema,
{
    SchemaView {
        ty: schema.ty@,
        format: text_view(schema.format),
        title: text_view(schema.title),
        description: text_view(schema.description),
        nullable: schema.nullable,
        items: match schema.items {
            Some(inner) => Some(Box::new(schema_view(*inner))),
            None => None,
        },
        min_items: count_view(schema.min_items),
        max_items: count_view(schema.max_items),
        min_length: count_view(schema.min_length),
        max_length: count_view(schema.max_length),
    }
}

impl View for Schema {
    type V = SchemaView;

    open spec fn view(&self) -> SchemaView {
        schema_view(*self)
    }
}

/// The schema that says only what kind of value it describes.
pub open spec fn plain_schema(ty: Seq<char>) -> SchemaView {
    SchemaView {
        ty,
        format: None,
        title: None,
        description: None,
        nullable: false,
        items: None,
        min_items: None,
        max_items: None,
        min_length: None,
        max_length: None,
    }
}

/// The schema of a kind of value in a given format.
pub open spec fn formatted_schema(ty: Seq<char>, format: Seq<char>) -> SchemaView {
    SchemaView { format: Some(format), ..plain_schema(ty) }
}

/// The schema of a list of any length whose elements follow `element`.
pub open spec fn list_schema(element: SchemaView) -> SchemaView {
    SchemaView { items: Some(Box::new(element)), ..plain_schema("array"@) }
}

/// The schema of an array of exactly `len` elements that follow `element`.
pub open spec fn array_schema(element: SchemaView, len: nat) -> SchemaView {
    SchemaView { min_length: Some(len), max_length: Some(len), ..list_schema(element) }
}

impl Schema {
    /// A schema that says only what kind of value it describes.
    pub fn new(ty: &str) -> (schema: Schema)
        ensures
            schema@ == plain_schema(ty@),
    {
        Schema {
            ty: String::from_str(ty),
            format: None,
            title: None,
            description: None,
            nullable: false,
            items: None,
            min_items: None,
            max_items: None,
            min_length: None,
            max_length: None,
        }
    }

    /// A schema of a kind of value in a given format.
    pub fn new_with_format(ty: &str, format: &str) -> (schema: Schema)
        ensures
            schema@ == formatted_schema(ty@, format@),
    {
        let mut schema = Schema::new(ty);
        schema.format = Some(String::from_str(format));
        schema
    }

    /// The schema of a list of any length whose elements follow `element`.
    pub fn list_of(element: Schema) -> (schema: Schema)
        ensures
            schema@ == list_schema(element@),
    {
        let mut schema = Schema::new("array");
        schema.items = Some(Box::new(element));
        schema
    }

    /// The schema of an array of exactly `len` elements that follow `element`.
    pub fn array_of(element: Schema, len: usize) -> (schema: Schema)
        ensures
            schema@ == array_schema(element@, len as nat),
    {
        let mut schema = Schema::list_of(element);
        schema.min_length = Some(len);
        schema.max_length = Some(len);
        schema
    }
}

/// A copy of an optional text.
fn copy_text(text: &Option<String>) -> (copy: Option<String>)
    ensures
        text_view(copy) == text_view(*text),
{
    match text {
        Some(t) => Some(t.clone()),
        None => None,
    }
}

impl Clone for Schema {
    fn clone(&self) -> (copy: Schema)
        ensures
            copy@ == self@,
        decreases self,
    {
        Schema {
            ty: self.ty.clone(),
            format: copy_text(&self.format),
            title: copy_text(&self.title),
            description: copy_text(&self.description),
            nullable: self.nullable,
            items: match &self.items {
                Some(inner) => Some(Box::new((**inner).clone())),
                None => None,
            },
            min_items: self.min_items,
            max_items: self.max_items,
            min_length: self.min_length,
            max_length: self.max_length,
        }
    }
}

} // verus!
