//! List adapters for web-API parameters and bodies.
//!
//! An adapter is a list of elements that parses itself from the text of one
//! parameter, from the texts of several, or from a JSON array, and describes
//! itself by a schema that bounds the number of its elements. There are
//! three of them:
//!
//! - [`PoemArrayVec`] and [`PoemHeaplessVec`] hold at most a fixed number of
//!   elements, and a parse that offers one more fails;
//! - [`PoemSmallVec`] holds any number of elements.
//!
//! All three gather their elements in the same way, which [`gather`] defines
//! and proves laws about: elements are taken in input order, and the first
//! one that does not parse, or for which no room is left, ends the parse
//! with an error that says which it was.
//!
//! What an element type has to provide is in [`element`]. The integer types
//! in [`integers`] are parsed by `poem_openapi`, and JSON values are those of
//! `serde_json` ([`json`]). Of these outside functions the crate assumes what
//! the items marked `external_body`, `assume_specification` and `uninterp`
//! state, and nothing more; everything else is proved.

pub mod arrayvec;
pub mod element;
pub mod error;
pub mod gather;
pub mod heapless;
pub mod integers;
pub mod json;
pub mod schema;
pub mod smallvec;
pub mod text;
pub mod util;

pub use crate::arrayvec::PoemArrayVec;
pub use crate::element::{ElementType, ParseFromJSON, ParseFromParameter};
pub use crate::error::{ParseError, ParseErrorView};
pub use crate::heapless::PoemHeaplessVec;
pub use crate::schema::{Schema, SchemaView};
pub use crate::smallvec::PoemSmallVec;
pub use crate::text::decimal_text;
