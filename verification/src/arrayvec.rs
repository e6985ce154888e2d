//! The adapter for a fixed-capacity vector such as `arrayvec::ArrayVec`: at
//! most `SIZE` elements, and a parse that offers more fails.
//!
//! The adapter keeps its elements in a `Vec` whose length never exceeds
//! `SIZE`, and hands them over with `into_inner`; a caller that wants them in
//! a fixed-capacity vector moves them there, and they fit.

use vstd::prelude::*;
use vstd::string::*;

use crate::element::{ElementType, ParseFromJSON, ParseFromParameter};
use crate::error::{ParseError, ParseErrorView};
use crate::gather::{
    all_json_valid, all_parameters_valid, gather, in_place, json_attempts,
    lemma_gather_failure_stays, lemma_gather_step, lemma_json_succeeds_exactly_when,
    lemma_parameters_succeed_exactly_when, list_from_json, list_from_parameter,
    list_from_parameters, list_view, parameter_attempts, push_parsed, push_parsed_json,
    take_attempt, texts_of, Attempt,
};
use crate::json::{json_array_items, json_text};
use crate::schema::Schema;
use crate::util::{fixed_capacity_schema, fixed_capacity_schema_ref};

verus! {

/// A list of at most `SIZE` elements that can stand as a parameter or a body
/// field of an API: it parses itself and describes itself.
#[derive(Debug)]
pub struct PoemArrayVec<T, const SIZE: usize> {
    items: Vec<T>,
}

impl<T, const SIZE: usize> View for PoemArrayVec<T, SIZE> {
    type V = Seq<T>;

    closed spec fn view(&self) -> Seq<T> {
        self.items@
    }
}

impl<T, const SIZE: usize> PoemArrayVec<T, SIZE> {
    #[verifier::type_invariant]
    spec fn within_capacity(&self) -> bool {
        self.items@.len() <= SIZE
    }

    /// The empty list.
    #[inline]
    pub fn new() -> (list: Self)
        ensures
            list@ == Seq::<T>::empty(),
    {
        PoemArrayVec { items: Vec::new() }
    }

    /// The elements, in order.
    #[inline]
    pub fn as_slice(&self) -> (elements: &[T])
        ensures
            elements@ == self@,
            elements@.len() <= SIZE,
    {
        proof {
            use_type_invariant(self);
        }
        self.items.as_slice()
    }

    /// The list of the given elements, in their order, if there are no more
    /// of them than the list can hold.
    pub fn from_vec(items: Vec<T>) -> (result: Result<Self, ParseError>)
        ensures
            items@.len() <= SIZE ==> list_view(result) == Ok::<Seq<T>, ParseErrorView>(items@),
            items@.len() > SIZE ==> list_view(result) == Err::<Seq<T>, ParseErrorView>(
                ParseErrorView::CapacityExceeded { capacity: SIZE as nat },
            ),
    {
        if items.len() <= SIZE {
            Ok(PoemArrayVec { items })
        } else {
            Err(ParseError::CapacityExceeded { capacity: SIZE })
        }
    }

    /// Gives up the elements, in order.
    pub fn into_inner(self) -> (elements: Vec<T>)
        ensures
            elements@ == self@,
            elements@.len() <= SIZE,
    {
        proof {
            use_type_invariant(&self);
        }
        self.items
    }
}

impl<T, const SIZE: usize> Default for PoemArrayVec<T, SIZE> {
    fn default() -> (list: Self)
        ensures
            list@ == Seq::<T>::empty(),
    {
        Self::new()
    }
}

impl<T, const SIZE: usize> std::ops::Deref for PoemArrayVec<T, SIZE> {
    type Target = [T];

    #[inline]
    fn deref(&self) -> (elements: &[T])
        ensures
            elements@ == self@,
    {
        self.items.as_slice()
    }
}

impl<T: ElementType, const SIZE: usize> PoemArrayVec<T, SIZE> {
    /// A list is a required value: it may be empty, never absent.
    pub const IS_REQUIRED: bool = true;

    /// The name of the list type: that of an array of `T`.
    pub fn name() -> (name: String)
        ensures
            name@ == "array_"@ + T::spec_name(),
    {
        let mut name = String::from_str("array_");
        let element_name = T::name();
        name.append(element_name.as_str());
        name
    }

    /// The schema of the list: one to `SIZE` elements of type `T`.
    pub fn schema_ref() -> (schema: Schema)
        ensures
            schema@ == fixed_capacity_schema(T::spec_schema(), T::spec_name(), SIZE as nat),
            schema@.min_items == Some(1nat),
            schema@.max_items == Some(SIZE as nat),
            schema@.items == Some(Box::new(T::spec_schema())),
    {
        fixed_capacity_schema_ref::<T, SIZE>()
    }

    /// The value that validators look at: the list itself.
    pub fn as_raw_value(&self) -> (raw: Option<&Self>)
        ensures
            raw == Some(self),
    {
        Some(self)
    }
}

impl<T: ParseFromParameter, const SIZE: usize> PoemArrayVec<T, SIZE> {
    /// Parses a single parameter as a list of one element.
    pub fn parse_from_parameter(value: &str) -> (result: Result<Self, ParseError>)
        ensures
            list_view(result) == list_from_parameter::<T>(value@, Some(SIZE as nat)),
            result is Ok <==> T::parameter_outcome(value@) is Ok && SIZE > 0,
    {
        let mut arr: Vec<T> = Vec::new();
        match parse_param::<T, SIZE>(value, &mut arr) {
            Ok(()) => Ok(PoemArrayVec { items: arr }),
            Err(error) => Err(error),
        }
    }

    /// Parses each parameter as one element, in order. The first element that
    /// does not parse, or for which no room is left, ends the parse.
    pub fn parse_from_parameters(values: Vec<&str>) -> (result: Result<Self, ParseError>)
        ensures
            list_view(result) == list_from_parameters::<T>(texts_of(values@), Some(SIZE as nat)),
            result is Ok <==> all_parameters_valid::<T>(texts_of(values@)) && values@.len() <= SIZE,
    {
        proof {
            lemma_parameters_succeed_exactly_when::<T>(texts_of(values@), Some(SIZE as nat));
        }
        let ghost attempts = parameter_attempts::<T>(texts_of(values@));
        let ghost target = T::spec_name();
        let ghost capacity = Some(SIZE as nat);
        let mut arr: Vec<T> = Vec::new();
        let mut i: usize = 0;
        while i < values.len()
            invariant
                i <= values.len(),
                attempts == parameter_attempts::<T>(texts_of(values@)),
                target == T::spec_name(),
                capacity == Some(SIZE as nat),
                gather(attempts.take(i as int), target, capacity) == Ok::<
                    Seq<T>,
                    ParseErrorView,
                >(arr@),
                arr@.len() <= SIZE,
            decreases values.len() - i,
        {
            let outcome = parse_param::<T, SIZE>(values[i], &mut arr);
            proof {
                lemma_gather_step(attempts, target, capacity, i as int);
            }
            match outcome {
                Ok(()) => {},
                Err(error) => {
                    proof {
                        lemma_gather_failure_stays(attempts, target, capacity, i + 1);
                        lemma_parameters_succeed_exactly_when::<T>(texts_of(values@), capacity);
                    }
                    return Err(error);
                },
            }
            i += 1;
        }
        proof {
            assert(attempts.take(i as int) =~= attempts);
        }
        Ok(PoemArrayVec { items: arr })
    }
}

/// Parses one parameter and appends the element to `vec`, which holds at
/// most `N` elements. On failure `vec` is left as it was.
pub fn parse_param<T: ParseFromParameter, const N: usize>(value: &str, vec: &mut Vec<T>) -> (result:
    Result<(), ParseError>)
    ensures
        in_place(result, final(vec)@) == take_attempt(
            old(vec)@,
            Attempt { raw: value@, outcome: T::parameter_outcome(value@) },
            T::spec_name(),
            Some(N as nat),
        ),
        result is Err ==> final(vec)@ == old(vec)@,
{
    let outcome = T::parse_from_parameter(value);
    push_parsed(vec, value, outcome, Some(N))
}

impl<T: ParseFromJSON, const SIZE: usize> PoemArrayVec<T, SIZE> {
    /// Parses a JSON array, element by element and in order. An absent value
    /// counts as `null`; whatever is not an array is a type mismatch.
    pub fn parse_from_json(value: Option<serde_json::Value>) -> (result: Result<Self, ParseError>)
        ensures
            list_view(result) == list_from_json::<T>(value, Some(SIZE as nat)),
            result is Ok <==> {
                &&& value is Some
                &&& json_array_items(value->Some_0) matches Some(elements)
                &&& all_json_valid::<T>(elements)
                &&& elements.len() <= SIZE
            },
    {
        proof {
            lemma_json_succeeds_exactly_when::<T>(value, Some(SIZE as nat));
        }
        let present = match value {
            Some(present) => present,
            None => {
                return Err(ParseError::TypeMismatch { actual: String::from_str("null") });
            },
        };
        match present.as_array() {
            Some(parts) => {
                let ghost attempts = json_attempts::<T>(parts@);
                let ghost target = T::spec_name();
                let ghost capacity = Some(SIZE as nat);
                let mut arr: Vec<T> = Vec::new();
                let mut i: usize = 0;
                while i < parts.len()
                    invariant
                        i <= parts.len(),
                        value == Some(present),
                        json_array_items(present) == Some(parts@),
                        attempts == json_attempts::<T>(parts@),
                        target == T::spec_name(),
                        capacity == Some(SIZE as nat),
                        gather(attempts.take(i as int), target, capacity) == Ok::<
                            Seq<T>,
                            ParseErrorView,
                        >(arr@),
                        arr@.len() <= SIZE,
                    decreases parts.len() - i,
                {
                    let part = &parts[i];
                    let outcome = T::parse_from_json(part);
                    let pushed = push_parsed_json(&mut arr, part, outcome, Some(SIZE));
                    proof {
                        lemma_gather_step(attempts, target, capacity, i as int);
                    }
                    match pushed {
                        Ok(()) => {},
                        Err(error) => {
                            proof {
                                lemma_gather_failure_stays(attempts, target, capacity, i + 1);
                                lemma_json_succeeds_exactly_when::<T>(value, capacity);
                            }
                            return Err(error);
                        },
                    }
                    i += 1;
                }
                proof {
                    assert(attempts.take(i as int) =~= attempts);
                }
                Ok(PoemArrayVec { items: arr })
            },
            None => Err(ParseError::TypeMismatch { actual: json_text(&present) }),
        }
    }
}

} // verus!
