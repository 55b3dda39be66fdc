//! The plain-text deserializer: interprets one borrowed string as exactly the
//! value being requested — never as a delimited sub-structure.
//!
//! The deserializer owns the entire remaining input and is spent by the one
//! entry point that is invoked; there is no cursor.  Primitive entry points
//! parse the whole string with the standard textual grammar of the target
//! type; the enum entry point matches the whole string, case-sensitively,
//! against the variant names in declaration order.

use vstd::prelude::*;

use crate::error::Error;
use crate::text::{parse_bool, parse_char, parse_i64, parse_u64, spec_parse_bool, spec_parse_char,
    spec_parse_i16, spec_parse_i32, spec_parse_i64, spec_parse_i8, spec_parse_u16, spec_parse_u32,
    spec_parse_u64, spec_parse_u8, str_eq};

verus! {

/// A simple deserializer that works off a plain string.
pub struct PlainDeserializer<'de> {
    input: &'de str,
}

impl<'de> View for PlainDeserializer<'de> {
    type V = Seq<char>;

    closed spec fn view(&self) -> Seq<char> {
        self.input@
    }
}

/// The message reported when a string does not parse as the requested type:
/// it names the offending text and the expected type.
pub open spec fn invalid_value_text(text: Seq<char>, expected: Seq<char>) -> Seq<char> {
    "invalid value `"@ + text + "`, expected "@ + expected
}

/// A variant name between backquotes.
pub open spec fn quoted(name: Seq<char>) -> Seq<char> {
    "`"@ + name + "`"@
}

/// The list of expected variant names: one name alone; two names joined by
/// `or`; more names comma-joined, ending in `or` before the last one.
pub open spec fn expected_variants_text(names: Seq<Seq<char>>) -> Seq<char>
    decreases names.len(),
{
    if names.len() == 0 {
        "there are no variants"@
    } else if names.len() == 1 {
        quoted(names[0])
    } else if names.len() == 2 {
        quoted(names[0]) + " or "@ + quoted(names[1])
    } else {
        quoted(names[0]) + ", "@ + expected_variants_text(names.drop_first())
    }
}

/// The message reported when no variant name matches the input.  Consumers
/// pattern-match on this format; it is a compatibility contract.
pub open spec fn unknown_variant_text(input: Seq<char>, names: Seq<Seq<char>>) -> Seq<char> {
    "unknown variant `"@ + input + "`, expected "@ + expected_variants_text(names)
}

/// The index of the first variant name equal to the input, if any.
pub open spec fn variant_index(input: Seq<char>, names: Seq<Seq<char>>) -> Option<int>
    decreases names.len(),
{
    if names.len() == 0 {
        None
    } else if names[0] == input {
        Some(0int)
    } else {
        match variant_index(input, names.drop_first()) {
            Some(i) => Some(i + 1),
            None => None,
        }
    }
}

/// Matching finds exactly the first equal name.
pub proof fn lemma_variant_index_first_match(input: Seq<char>, names: Seq<Seq<char>>, i: int)
    requires
        0 <= i < names.len(),
        names[i] == input,
        forall|j: int| 0 <= j < i ==> names[j] != input,
    ensures
        variant_index(input, names) == Some(i),
    decreases names.len(),
{
    if i > 0 {
        lemma_variant_index_first_match(input, names.drop_first(), i - 1);
    }
}

/// Matching fails exactly when no name equals the input.
pub proof fn lemma_variant_index_no_match(input: Seq<char>, names: Seq<Seq<char>>)
    requires
        forall|j: int| 0 <= j < names.len() ==> names[j] != input,
    ensures
        variant_index(input, names) is None,
    decreases names.len(),
{
    if names.len() > 0 {
        lemma_variant_index_no_match(input, names.drop_first());
    }
}

/// Round trip for unit enum variants: whatever rename policy produced the
/// names, as long as they are pairwise distinct, the name rendered for
/// variant `i` matches back to exactly index `i`.
pub proof fn lemma_variant_name_round_trip(names: Seq<Seq<char>>, i: int)
    requires
        0 <= i < names.len(),
        forall|j: int, k: int| 0 <= j < k < names.len() ==> names[j] != names[k],
    ensures
        variant_index(names[i], names) == Some(i),
{
    assert forall|j: int| 0 <= j < i implies names[j] != names[i] by {
        assert(0 <= j < i < names.len());
    }
    lemma_variant_index_first_match(names[i], names, i);
}

/// Builds the invalid-value message for an input and an expectation.
fn invalid_value_error(text: &str, expected: &str) -> (e: Error)
    ensures
        e matches Error::Message(m) && m@ == invalid_value_text(text@, expected@),
{
    let mut s = String::from_str("invalid value `");
    s.append(text);
    s.append("`, expected ");
    s.append(expected);
    proof {
        assert(s@ =~= invalid_value_text(text@, expected@));
    }
    Error::Message(s)
}

/// A variant name between backquotes.
fn quoted_name(name: &str) -> (r: String)
    ensures
        r@ == quoted(name@),
{
    let mut s = String::from_str("`");
    s.append(name);
    s.append("`");
    proof {
        assert(s@ =~= quoted(name@));
    }
    s
}

/// The expected-variants list for the names from `start` on.
fn expected_variants_from(names: &[&str], start: usize) -> (r: String)
    requires
        start <= names.len(),
    ensures
        r@ == expected_variants_text(names.deep_view().skip(start as int)),
    decreases names.len() - start,
{
    let ghost tail = names.deep_view().skip(start as int);
    let remaining = names.len() - start;
    if remaining == 0 {
        String::from_str("there are no variants")
    } else if remaining == 1 {
        let q = quoted_name(names[start]);
        proof {
            assert(tail[0] == names.deep_view()[start as int]);
        }
        q
    } else if remaining == 2 {
        let mut s = quoted_name(names[start]);
        s.append(" or ");
        let second = quoted_name(names[start + 1]);
        s.append(second.as_str());
        proof {
            assert(tail[0] == names.deep_view()[start as int]);
            assert(tail[1] == names.deep_view()[start as int + 1]);
            assert(s@ =~= expected_variants_text(tail));
        }
        s
    } else {
        let mut s = quoted_name(names[start]);
        s.append(", ");
        let rest = expected_variants_from(names, start + 1);
        s.append(rest.as_str());
        proof {
            assert(tail[0] == names.deep_view()[start as int]);
            assert(tail.drop_first() =~= names.deep_view().skip(start as int + 1));
            assert(s@ =~= expected_variants_text(tail));
        }
        s
    }
}

/// Builds the unknown-variant message for an input and the full name list.
fn unknown_variant_error(input: &str, names: &[&str]) -> (e: Error)
    ensures
        e matches Error::Message(m) && m@ == unknown_variant_text(input@, names.deep_view()),
{
    let mut s = String::from_str("unknown variant `");
    s.append(input);
    s.append("`, expected ");
    let list = expected_variants_from(names, 0);
    s.append(list.as_str());
    proof {
        assert(names.deep_view().skip(0) =~= names.deep_view());
        assert(s@ =~= unknown_variant_text(input@, names.deep_view()));
    }
    Error::Message(s)
}

impl<'de> PlainDeserializer<'de> {
    /// A deserializer over the whole of the given string.
    pub fn new(input: &'de str) -> (d: Self)
        ensures
            d@ == input@,
    {
        PlainDeserializer { input }
    }

    /// Parses the input as a boolean.
    pub fn deserialize_bool(self) -> (r: Result<bool, Error>)
        ensures
            spec_parse_bool(self@) matches Some(v) ==> r == Ok::<bool, Error>(v),
            spec_parse_bool(self@) is None ==> (r matches Err(Error::Message(m))
                && m@ == invalid_value_text(self@, "a boolean"@)),
    {
        match parse_bool(self.input) {
            Some(v) => Ok(v),
            None => Err(invalid_value_error(self.input, "a boolean")),
        }
    }

    /// Parses the input as an 8-bit unsigned integer.
    pub fn deserialize_u8(self) -> (r: Result<u8, Error>)
        ensures
            spec_parse_u8(self@) matches Some(v) ==> r == Ok::<u8, Error>(v),
            spec_parse_u8(self@) is None ==> (r matches Err(Error::Message(m))
                && m@ == invalid_value_text(self@, "u8"@)),
    {
        match parse_u64(self.input) {
            Some(v) => if v <= u8::MAX as u64 {
                Ok(v as u8)
            } else {
                Err(invalid_value_error(self.input, "u8"))
            },
            None => Err(invalid_value_error(self.input, "u8")),
        }
    }

    /// Parses the input as a 16-bit unsigned integer.
    pub fn deserialize_u16(self) -> (r: Result<u16, Error>)
        ensures
            spec_parse_u16(self@) matches Some(v) ==> r == Ok::<u16, Error>(v),
            spec_parse_u16(self@) is None ==> (r matches Err(Error::Message(m))
                && m@ == invalid_value_text(self@, "u16"@)),
    {
        match parse_u64(self.input) {
            Some(v) => if v <= u16::MAX as u64 {
                Ok(v as u16)
            } else {
                Err(invalid_value_error(self.input, "u16"))
            },
            None => Err(invalid_value_error(self.input, "u16")),
        }
    }

    /// Parses the input as a 32-bit unsigned integer.
    pub fn deserialize_u32(self) -> (r: Result<u32, Error>)
        ensures
            spec_parse_u32(self@) matches Some(v) ==> r == Ok::<u32, Error>(v),
            spec_parse_u32(self@) is None ==> (r matches Err(Error::Message(m))
                && m@ == invalid_value_text(self@, "u32"@)),
    {
        match parse_u64(self.input) {
            Some(v) => if v <= u32::MAX as u64 {
                Ok(v as u32)
            } else {
                Err(invalid_value_error(self.input, "u32"))
            },
            None => Err(invalid_value_error(self.input, "u32")),
        }
    }

    /// Parses the input as a 64-bit unsigned integer.
    pub fn deserialize_u64(self) -> (r: Result<u64, Error>)
        ensures
            spec_parse_u64(self@) matches Some(v) ==> r == Ok::<u64, Error>(v),
            spec_parse_u64(self@) is None ==> (r matches Err(Error::Message(m))
                && m@ == invalid_value_text(self@, "u64"@)),
    {
        match parse_u64(self.input) {
            Some(v) => Ok(v),
            None => Err(invalid_value_error(self.input, "u64")),
        }
    }

    /// Parses the input as an 8-bit signed integer.
    pub fn deserialize_i8(self) -> (r: Result<i8, Error>)
        ensures
            spec_parse_i8(self@) matches Some(v) ==> r == Ok::<i8, Error>(v),
            spec_parse_i8(self@) is None ==> (r matches Err(Error::Message(m))
                && m@ == invalid_value_text(self@, "i8"@)),
    {
        match parse_i64(self.input) {
            Some(v) => if i8::MIN as i64 <= v && v <= i8::MAX as i64 {
                Ok(v as i8)
            } else {
                Err(invalid_value_error(self.input, "i8"))
            },
            None => Err(invalid_value_error(self.input, "i8")),
        }
    }

    /// Parses the input as a 16-bit signed integer.
    pub fn deserialize_i16(self) -> (r: Result<i16, Error>)
        ensures
            spec_parse_i16(self@) matches Some(v) ==> r == Ok::<i16, Error>(v),
            spec_parse_i16(self@) is None ==> (r matches Err(Error::Message(m))
                && m@ == invalid_value_text(self@, "i16"@)),
    {
        match parse_i64(self.input) {
            Some(v) => if i16::MIN as i64 <= v && v <= i16::MAX as i64 {
                Ok(v as i16)
            } else {
                Err(invalid_value_error(self.input, "i16"))
            },
            None => Err(invalid_value_error(self.input, "i16")),
        }
    }

    /// Parses the input as a 32-bit signed integer.
    pub fn deserialize_i32(self) -> (r: Result<i32, Error>)
        ensures
            spec_parse_i32(self@) matches Some(v) ==> r == Ok::<i32, Error>(v),
            spec_parse_i32(self@) is None ==> (r matches Err(Error::Message(m))
                && m@ == invalid_value_text(self@, "i32"@)),
    {
        match parse_i64(self.input) {
            Some(v) => if i32::MIN as i64 <= v && v <= i32::MAX as i64 {
                Ok(v as i32)
            } else {
                Err(invalid_value_error(self.input, "i32"))
            },
            None => Err(invalid_value_error(self.input, "i32")),
        }
    }

    /// Parses the input as a 64-bit signed integer.
    pub fn deserialize_i64(self) -> (r: Result<i64, Error>)
        ensures
            spec_parse_i64(self@) matches Some(v) ==> r == Ok::<i64, Error>(v),
            spec_parse_i64(self@) is None ==> (r matches Err(Error::Message(m))
                && m@ == invalid_value_text(self@, "i64"@)),
    {
        match parse_i64(self.input) {
            Some(v) => Ok(v),
            None => Err(invalid_value_error(self.input, "i64")),
        }
    }

    /// Parses the input as a character: the whole input must be one character.
    pub fn deserialize_char(self) -> (r: Result<char, Error>)
        ensures
            spec_parse_char(self@) matches Some(v) ==> r == Ok::<char, Error>(v),
            spec_parse_char(self@) is None ==> (r matches Err(Error::Message(m))
                && m@ == invalid_value_text(self@, "a character"@)),
    {
        match parse_char(self.input) {
            Some(v) => Ok(v),
            None => Err(invalid_value_error(self.input, "a character")),
        }
    }

    /// The input itself, passed through unmodified.
    pub fn deserialize_str(self) -> (r: &'de str)
        ensures
            r@ == self@,
    {
        self.input
    }

    /// The input itself, as an owned string.
    pub fn deserialize_string(self) -> (r: String)
        ensures
            r@ == self@,
    {
        String::from_str(self.input)
    }

    /// The unit value.  A unit is only ever requested for an empty input:
    /// deserializing `()` from a non-empty string is a caller contract that
    /// this deserializer assumes rather than checks.
    pub fn deserialize_unit(self) -> (r: Result<(), Error>)
        requires
            self@.len() == 0,
        ensures
            r == Ok::<(), Error>(()),
    {
        Ok(())
    }

    /// The optional decision: an empty input is the absent value; anything
    /// else hands the deserializer on, to parse the wrapped value from the
    /// same string.
    pub fn deserialize_option(self) -> (r: Option<Self>)
        ensures
            self@.len() == 0 ==> r is None,
            self@.len() != 0 ==> r == Some(self),
    {
        if self.input.is_empty() {
            None
        } else {
            Some(self)
        }
    }

    /// A newtype wrapper is transparent: the wrapped field is deserialized
    /// from the same string.
    pub fn deserialize_newtype_struct(self, name: &str) -> (r: Self)
        ensures
            r == self,
    {
        self
    }

    /// Matches the input, case-sensitively, against the variant names in
    /// declaration order, and returns the index of the first match.  When no
    /// name matches, the error message enumerates the expected names.
    pub fn deserialize_enum(self, variants: &[&str]) -> (r: Result<usize, Error>)
        ensures
            variant_index(self@, variants.deep_view()) matches Some(i) ==> r matches Ok(k) && k
                as int == i,
            r matches Ok(k) ==> k < variants@.len() && variants.deep_view()[k as int] == self@,
            variant_index(self@, variants.deep_view()) is None ==> (r matches Err(
                Error::Message(m),
            ) && m@ == unknown_variant_text(self@, variants.deep_view())),
    {
        let input = self.input;
        let n = variants.len();
        let mut i: usize = 0;
        while i < n
            invariant
                n == variants@.len(),
                0 <= i <= n,
                input@ == self@,
                forall|j: int| 0 <= j < i ==> variants.deep_view()[j] != input@,
            decreases n - i,
        {
            if str_eq(input, variants[i]) {
                proof {
                    assert(variants.deep_view()[i as int] == input@);
                    lemma_variant_index_first_match(input@, variants.deep_view(), i as int);
                }
                return Ok(i);
            }
            proof {
                assert(variants.deep_view()[i as int] == variants@[i as int]@);
            }
            i += 1;
        }
        proof {
            lemma_variant_index_no_match(input@, variants.deep_view());
        }
        Err(unknown_variant_error(input, variants))
    }
}

} // verus!
