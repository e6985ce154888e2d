//! The adapter for a growable vector such as `smallvec::SmallVec`, which
//! starts inline and moves to the heap: any number of elements, of which the
//! schema asks for at least one.
//!
//! The adapter keeps its elements in a `Vec` and hands them over with
//! `into_inner`.

use vstd::prelude::*;
use vstd::string::*;

use crate::element::{ElementType, ParseFromJSON, ParseFromParameter};
use crate::error::{ParseError, ParseErrorView};
use crate::gather::{
    all_json_valid, all_parameters_valid, gather, json_attempts, lemma_gather_failure_stays,
    lemma_gather_step, lemma_json_succeeds_exactly_when, lemma_parameters_succeed_exactly_when,
    list_from_json, list_from_parameter, list_from_parameters, list_view, parameter_attempts,
    push_parsed, push_parsed_json, texts_of,
};
use crate::json::{json_array_items, json_text};
use crate::schema::{list_schema, Schema, SchemaView};

verus! {

/// A list of any number of elements that can stand as a parameter or a body
/// field of an API: it parses itself and describes itself. `SIZE` is the
/// number of elements that the vector it stands for keeps inline; it bounds
/// nothing.
#[derive(Debug)]
pub struct PoemSmallVec<T, const SIZE: usize> {
    items: Vec<T>,
}

impl<T, const SIZE: usize> View for PoemSmallVec<T, SIZE> {
    type V = Seq<T>;

    closed spec fn view(&self) -> Seq<T> {
        self.items@
    }
}

/// The schema of a list of at least one element: that of a list of any
/// length, relabelled, with the lower bound on the number of elements set to
/// 1 and no upper bound.
pub open spec fn at_least_one_schema(element: SchemaView, element_name: Seq<char>) -> SchemaView {
    SchemaView {
        title: Some("Vec<"@ + element_name + ">"@),
        description: Some("at least 1 item of type "@ + element_name),
        min_items: Some(1),
        min_length: Some(1),
        ..list_schema(element)
    }
}

impl<T, const SIZE: usize> PoemSmallVec<T, SIZE> {
    /// The empty list.
    #[inline]
    pub fn new() -> (list: Self)
        ensures
            list@ == Seq::<T>::empty(),
    {
        PoemSmallVec { items: Vec::new() }
    }

    /// The elements, in order.
    #[inline]
    pub fn as_slice(&self) -> (elements: &[T])
        ensures
            elements@ == self@,
    {
        self.items.as_slice()
    }

    /// The list of the given elements, in their order.
    pub fn from_vec(items: Vec<T>) -> (list: Self)
        ensures
            list@ == items@,
    {
        PoemSmallVec { items }
    }

    /// Gives up the elements, in order.
    pub fn into_inner(self) -> (elements: Vec<T>)
        ensures
            elements@ == self@,
    {
        self.items
    }
}

impl<T, const SIZE: usize> Default for PoemSmallVec<T, SIZE> {
    fn default() -> (list: Self)
        ensures
            list@ == Seq::<T>::empty(),
    {
        Self::new()
    }
}

impl<T, const SIZE: usize> std::ops::Deref for PoemSmallVec<T, SIZE> {
    type Target = [T];

    #[inline]
    fn deref(&self) -> (elements: &[T])
        ensures
            elements@ == self@,
    {
        self.items.as_slice()
    }
}

impl<T: ElementType, const SIZE: usize> PoemSmallVec<T, SIZE> {
    /// A list is a required value: it may be empty, never absent.
    pub const IS_REQUIRED: bool = true;

    /// The name of the list type: that of a list of `T`.
    pub fn name() -> (name: String)
        ensures
            name@ == "list_"@ + T::spec_name(),
    {
        let mut name = String::from_str("list_");
        let element_name = T::name();
        name.append(element_name.as_str());
        name
    }

    /// The schema of the list: at least one element of type `T`. Nothing
    /// keeps a list from being empty; the schema tells consumers to expect
    /// one element or more.
    pub fn schema_ref() -> (schema: Schema)
        ensures
            schema@ == at_least_one_schema(T::spec_schema(), T::spec_name()),
            schema@.min_items == Some(1nat),
            schema@.max_items is None,
            schema@.items == Some(Box::new(T::spec_schema())),
    {
        let mut schema = Schema::list_of(T::schema_ref());
        schema.min_items = Some(1);
        schema.min_length = Some(1);

        let element_name = T::name();
        let mut title = String::from_str("Vec<");
        title.append(element_name.as_str());
        title.append(">");
        schema.title = Some(title);

        let mut description = String::from_str("at least 1 item of type ");
        description.append(element_name.as_str());
        schema.description = Some(description);

        schema
    }

    /// The value that validators look at: the list itself.
    pub fn as_raw_value(&self) -> (raw: Option<&Self>)
        ensures
            raw == Some(self),
    {
        Some(self)
    }
}

impl<T: ParseFromParameter, const SIZE: usize> PoemSmallVec<T, SIZE> {
    /// Parses a single parameter as a list of one element.
    pub fn parse_from_parameter(value: &str) -> (result: Result<Self, ParseError>)
        ensures
            list_view(result) == list_from_parameter::<T>(value@, None),
            result is Ok <==> T::parameter_outcome(value@) is Ok,
    {
        let mut list: Vec<T> = Vec::new();
        let outcome = T::parse_from_parameter(value);
        match push_parsed(&mut list, value, outcome, None) {
            Ok(()) => Ok(PoemSmallVec { items: list }),
            Err(error) => Err(error),
        }
    }

    /// Parses each parameter as one element, in order. The first element that
    /// does not parse ends the parse.
    pub fn parse_from_parameters(values: Vec<&str>) -> (result: Result<Self, ParseError>)
        ensures
            list_view(result) == list_from_parameters::<T>(texts_of(values@), None),
            result is Ok <==> all_parameters_valid::<T>(texts_of(values@)),
    {
        proof {
            lemma_parameters_succeed_exactly_when::<T>(texts_of(values@), None);
        }
        let ghost attempts = parameter_attempts::<T>(texts_of(values@));
        let ghost target = T::spec_name();
        let mut list: Vec<T> = Vec::new();
        let mut i: usize = 0;
        while i < values.len()
            invariant
                i <= values.len(),
                attempts == parameter_attempts::<T>(texts_of(values@)),
                target == T::spec_name(),
                gather(attempts.take(i as int), target, None) == Ok::<Seq<T>, ParseErrorView>(
                    list@,
                ),
            decreases values.len() - i,
        {
            let outcome = T::parse_from_parameter(values[i]);
            let pushed = push_parsed(&mut list, values[i], outcome, None);
            proof {
                lemma_gather_step(attempts, target, None, i as int);
            }
            match pushed {
                Ok(()) => {},
                Err(error) => {
                    proof {
                        lemma_gather_failure_stays(attempts, target, None, i + 1);
                    }
                    return Err(error);
                },
            }
            i += 1;
        }
        proof {
            assert(attempts.take(i as int) =~= attempts);
        }
        Ok(PoemSmallVec { items: list })
    }
}

impl<T: ParseFromJSON, const SIZE: usize> PoemSmallVec<T, SIZE> {
    /// Parses a JSON array, element by element and in order. An absent value
    /// counts as `null`; whatever is not an array is a type mismatch.
    pub fn parse_from_json(value: Option<serde_json::Value>) -> (result: Result<Self, ParseError>)
        ensures
            list_view(result) == list_from_json::<T>(value, None),
            result is Ok <==> {
                &&& value is Some
                &&& json_array_items(value->Some_0) matches Some(elements)
                &&& all_json_valid::<T>(elements)
            },
    {
        proof {
            lemma_json_succeeds_exactly_when::<T>(value, None);
        }
        let present = match value {
            Some(present) => present,
            None => {
                return Err(ParseError::TypeMismatch { actual: String::from_str("null") });
            },
        };
        match present.as_array() {
            Some(parts) => {
                let ghost attempts = json_attempts::<T>(parts@);
                let ghost target = T::spec_name();
                let mut list: Vec<T> = Vec::new();
                let mut i: usize = 0;
                while i < parts.len()
                    invariant
                        i <= parts.len(),
                        value == Some(present),
                        json_array_items(present) == Some(parts@),
                        attempts == json_attempts::<T>(parts@),
                        target == T::spec_name(),
                        gather(attempts.take(i as int), target, None) == Ok::<
                            Seq<T>,
                            ParseErrorView,
                        >(list@),
                    decreases parts.len() - i,
                {
                    let part = &parts[i];
                    let outcome = T::parse_from_json(part);
                    let pushed = push_parsed_json(&mut list, part, outcome, None);
                    proof {
                        lemma_gather_step(attempts, target, None, i as int);
                    }
                    match pushed {
                        Ok(()) => {},
                        Err(error) => {
                            proof {
                                lemma_gather_failure_stays(attempts, target, None, i + 1);
                            }
                            return Err(error);
                        },
                    }
                    i += 1;
                }
                proof {
                    assert(attempts.take(i as int) =~= attempts);
                }
                Ok(PoemSmallVec { items: list })
            },
            None => Err(ParseError::TypeMismatch { actual: json_text(&present) }),
        }
    }
}

} // verus!
