//! The error type shared by serialization and deserialization.

use vstd::prelude::*;

verus! {

/// Errors created from this crate.
///
/// Serialization of a shape with no plain-string form fails with
/// `ImpossibleSerialization`; every other failure (in particular a
/// deserialization parse failure) carries a human-readable description in
/// `Message`.
#[derive(Debug, Clone, PartialEq, Eq)]
pub enum Error {
    /// An impossible / unsupported operation was attempted.
    ImpossibleSerialization,
    /// An arbitrary error message.
    Message(String),
}

/// The description of an error: the carried message, or a fixed sentence for
/// a shape that cannot be serialized.
pub open spec fn spec_description(e: Error) -> Seq<char> {
    match e {
        Error::ImpossibleSerialization => "value cannot be serialized to a plain value"@,
        Error::Message(msg) => msg@,
    }
}

impl Error {
    /// Wraps an arbitrary message, as a value's own conversion logic may
    /// raise one.
    pub fn custom(msg: String) -> (e: Error)
        ensures
            e == Error::Message(msg),
    {
        Error::Message(msg)
    }

    /// A human-readable description of the error.
    pub fn description(&self) -> (r: &str)
        ensures
            r@ == spec_description(*self),
    {
        match self {
            Error::ImpossibleSerialization => "value cannot be serialized to a plain value",
            Error::Message(msg) => msg.as_str(),
        }
    }

    /// The full display form: the description under the crate's fixed prefix.
    pub fn display_string(&self) -> (r: String)
        ensures
            r@ == "plain serialization error: "@ + spec_description(*self),
    {
        let mut s = String::from_str("plain serialization error: ");
        s.append(self.description());
        s
    }
}

} // verus!
