//! Why a list could not be parsed.

use vstd::prelude::*;
use vstd::string::*;

use crate::text::{decimal, decimal_text};

verus! {

/// A failed parse. Nothing is recovered locally: the first failure ends the
/// call, and what had been gathered until then is dropped.
#[derive(Debug, Clone, PartialEq, Eq)]
pub enum ParseError {
    /// One element could not be converted: its raw input (the parameter text,
    /// or the compact JSON text of the value), the name of the target element type,
    /// and what the element's own parser reported.
    Element { raw: String, target: String, message: String },
    /// One more element than the adapter can hold was offered.
    CapacityExceeded { capacity: usize },
    /// The JSON value was not an array; `actual` is its compact JSON text.
    TypeMismatch { actual: String },
}

/// A [`ParseError`] as a mathematical value.
pub enum ParseErrorView {
    Element { raw: Seq<char>, target: Seq<char>, message: Seq<char> },
    CapacityExceeded { capacity: nat },
    TypeMismatch { actual: Seq<char> },
}

impl View for ParseError {
    type V = ParseErrorView;

    open spec fn view(&self) -> ParseErrorView {
        match self {
            ParseError::Element { raw, target, message } => ParseErrorView::Element {
                raw: raw@,
                target: target@,
                message: message@,
            },
            ParseError::CapacityExceeded { capacity } => ParseErrorView::CapacityExceeded {
                capacity: *capacity as nat,
            },
            ParseError::TypeMismatch { actual } => ParseErrorView::TypeMismatch { actual: actual@ },
        }
    }
}

/// The text shown for an error.
pub open spec fn message_text(error: ParseErrorView) -> Seq<char> {
    match error {
        ParseErrorView::Element { raw, target, message } => message
            + " (occurred while parsing \""@ + raw + "\" as \""@ + target + "\")"@,
        ParseErrorView::CapacityExceeded { capacity } => "too many items (max "@ + decimal(capacity)
            + ")"@,
        ParseErrorView::TypeMismatch { actual } => "expected an array, found "@ + actual,
    }
}

impl ParseError {
    /// The text shown for this error.
    pub fn message(&self) -> (text: String)
        ensures
            text@ == message_text(self@),
    {
        match self {
            ParseError::Element { raw, target, message } => {
                let mut text = message.clone();
                text.append(" (occurred while parsing \"");
                text.append(raw.as_str());
                text.append("\" as \"");
                text.append(target.as_str());
                text.append("\")");
                text
            },
            ParseError::CapacityExceeded { capacity } => {
                let mut text = String::from_str("too many items (max ");
                let digits = decimal_text(*capacity);
                text.append(digits.as_str());
                text.append(")");
                text
            },
            ParseError::TypeMismatch { actual } => {
                let mut text = String::from_str("expected an array, found ");
                text.append(actual.as_str());
                text
            },
        }
    }

    /// Whether this is the failure of a single element.
    pub fn is_element(&self) -> (b: bool)
        ensures
            b == (self@ is Element),
    {
        match self {
            ParseError::Element { .. } => true,
            _ => false,
        }
    }

    /// Whether an element was refused for want of room.
    pub fn is_capacity_exceeded(&self) -> (b: bool)
        ensures
            b == (self@ is CapacityExceeded),
    {
        match self {
            ParseError::CapacityExceeded { .. } => true,
            _ => false,
        }
    }

    /// Whether the input was not an array.
    pub fn is_type_mismatch(&self) -> (b: bool)
        ensures
            b == (self@ is TypeMismatch),
    {
        match self {
            ParseError::TypeMismatch { .. } => true,
            _ => false,
        }
    }
}

} // verus!
