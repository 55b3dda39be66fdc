//! Serialize and deserialize values to and from plain text strings.
//!
//! The library decides which data shapes have an unambiguous plain-string
//! form, renders those shapes, and parses plain strings back into primitive
//! values and unit enum variants.  Only shapes whose entire content maps
//! losslessly to a single text token are representable; everything that would
//! need delimiters or several tokens is rejected with a defined error rather
//! than approximated.
//!
//! [`ser`] holds the serializer and the rendering rules, [`de`] the
//! deserializer with its parsing and variant-matching rules, [`text`] the
//! textual forms of the primitive values together with their round-trip laws,
//! and [`error`] the shared error type.

pub mod de;
pub mod error;
pub mod ser;
pub mod text;

pub use de::PlainDeserializer;
pub use error::Error;
pub use ser::{PlainSerializer, Shape, to_string};
