//! The plain-text serializer: the one place that decides which data shapes
//! have an unambiguous plain-string form, and how those shapes are rendered.
//!
//! A value's structure is taken as a [`Shape`] tree, mirroring the data model
//! of a structured-serialization protocol: primitives, strings, unit, options,
//! enum variants, newtype wrappers, and the composite shapes (sequences,
//! tuples, maps, structs and data-carrying variants).  Rendering either
//! produces exactly one string or fails with
//! [`Error::ImpossibleSerialization`]; there is never partial output.

use vstd::prelude::*;

use crate::error::Error;
use crate::text::{bool_text, bool_to_text, char_to_text, dec_digits_of, i64_to_dec, int_text,
    u64_to_dec};

verus! {

/// A simple serializer that can dump out strings.
#[derive(Clone, Copy)]
pub struct PlainSerializer;

/// The structure of a value, as a structured-serialization protocol would
/// announce it to a sink.
///
/// Only the content that rendering can depend on is carried: the composite
/// shapes are rejected whatever they hold, so they carry nothing.
pub enum Shape {
    Bool(bool),
    U8(u8),
    U16(u16),
    U32(u32),
    U64(u64),
    I8(i8),
    I16(i16),
    I32(i32),
    I64(i64),
    Char(char),
    Str(String),
    Unit,
    Absent,
    Present(Box<Shape>),
    UnitStruct,
    UnitVariant(String),
    NewtypeStruct(Box<Shape>),
    NewtypeVariant,
    Bytes,
    Sequence,
    Tuple,
    TupleStruct,
    TupleVariant,
    Mapping,
    Struct,
    StructVariant,
}

/// Whether a shape has a plain-string form at all.
pub open spec fn is_representable(shape: Shape) -> bool
    decreases shape,
{
    match shape {
        Shape::Bool(_) => true,
        Shape::U8(_) => true,
        Shape::U16(_) => true,
        Shape::U32(_) => true,
        Shape::U64(_) => true,
        Shape::I8(_) => true,
        Shape::I16(_) => true,
        Shape::I32(_) => true,
        Shape::I64(_) => true,
        Shape::Char(_) => true,
        Shape::Str(_) => true,
        Shape::Unit => true,
        Shape::Absent => true,
        Shape::Present(inner) => is_representable(*inner),
        Shape::UnitVariant(_) => true,
        Shape::NewtypeStruct(inner) => is_representable(*inner),
        _ => false,
    }
}

/// The plain-string rendering of a shape: `Some` text for the representable
/// shapes, `None` for the rejected ones.
pub open spec fn spec_render(shape: Shape) -> Option<Seq<char>>
    decreases shape,
{
    match shape {
        Shape::Bool(v) => Some(bool_text(v)),
        Shape::U8(v) => Some(dec_digits_of(v as nat)),
        Shape::U16(v) => Some(dec_digits_of(v as nat)),
        Shape::U32(v) => Some(dec_digits_of(v as nat)),
        Shape::U64(v) => Some(dec_digits_of(v as nat)),
        Shape::I8(v) => Some(int_text(v as int)),
        Shape::I16(v) => Some(int_text(v as int)),
        Shape::I32(v) => Some(int_text(v as int)),
        Shape::I64(v) => Some(int_text(v as int)),
        Shape::Char(c) => Some(seq![c]),
        Shape::Str(s) => Some(s@),
        Shape::Unit => Some(Seq::<char>::empty()),
        Shape::Absent => Some(Seq::<char>::empty()),
        Shape::Present(inner) => spec_render(*inner),
        Shape::UnitVariant(name) => Some(name@),
        Shape::NewtypeStruct(inner) => spec_render(*inner),
        _ => None,
    }
}

/// A shape is rendered exactly when it is representable.
pub proof fn lemma_render_iff_representable(shape: Shape)
    ensures
        spec_render(shape) is Some <==> is_representable(shape),
    decreases shape,
{
    match shape {
        Shape::Present(inner) => lemma_render_iff_representable(*inner),
        Shape::NewtypeStruct(inner) => lemma_render_iff_representable(*inner),
        _ => {},
    }
}

/// Rejection completeness: a shape with no plain-string form — a byte array,
/// a unit struct, a data-carrying variant, a sequence, a tuple, a map or a
/// struct, anywhere in the tree — is never rendered, not even partially.
pub proof fn lemma_rejected_shapes_never_render(shape: Shape)
    requires
        !is_representable(shape),
    ensures
        spec_render(shape) is None,
{
    lemma_render_iff_representable(shape);
}

/// Newtype transparency: a single-field wrapper renders exactly as its one
/// field does.
pub proof fn lemma_newtype_transparent(inner: Box<Shape>)
    ensures
        spec_render(Shape::NewtypeStruct(inner)) == spec_render(*inner),
{
}

/// A present optional renders exactly as the wrapped value does.
pub proof fn lemma_present_transparent(inner: Box<Shape>)
    ensures
        spec_render(Shape::Present(inner)) == spec_render(*inner),
{
}

/// Takes a value's shape and dumps out a plain string.
///
/// This renders the shape with the [`PlainSerializer`] and returns the one
/// string it produces.  The shape must be a simple one (a primitive, a
/// string, a unit enum variant, or an option or newtype wrapper around one);
/// everything else fails with [`Error::ImpossibleSerialization`] and no
/// output.
pub fn to_string(value: &Shape) -> (r: Result<String, Error>)
    ensures
        spec_render(*value) matches Some(t) ==> r matches Ok(s) && s@ == t,
        spec_render(*value) is None ==> r == Err::<String, Error>(Error::ImpossibleSerialization),
    decreases *value, 0nat,
{
    let serializer = PlainSerializer;
    match value {
        Shape::Bool(v) => serializer.serialize_bool(*v),
        Shape::U8(v) => serializer.serialize_u8(*v),
        Shape::U16(v) => serializer.serialize_u16(*v),
        Shape::U32(v) => serializer.serialize_u32(*v),
        Shape::U64(v) => serializer.serialize_u64(*v),
        Shape::I8(v) => serializer.serialize_i8(*v),
        Shape::I16(v) => serializer.serialize_i16(*v),
        Shape::I32(v) => serializer.serialize_i32(*v),
        Shape::I64(v) => serializer.serialize_i64(*v),
        Shape::Char(c) => serializer.serialize_char(*c),
        Shape::Str(s) => serializer.serialize_str(s.as_str()),
        Shape::Unit => serializer.serialize_unit(),
        Shape::Absent => serializer.serialize_none(),
        Shape::Present(inner) => to_string(inner),
        Shape::UnitVariant(name) => serializer.serialize_unit_variant("", 0, name.as_str()),
        Shape::NewtypeStruct(inner) => to_string(inner),
        _ => Err(Error::ImpossibleSerialization),
    }
}

impl PlainSerializer {
    /// Renders a boolean as `true` or `false`.
    pub fn serialize_bool(self, v: bool) -> (r: Result<String, Error>)
        ensures
            r matches Ok(s) && s@ == bool_text(v),
    {
        Ok(bool_to_text(v))
    }

    /// Renders an unsigned integer in decimal.
    pub fn serialize_u8(self, v: u8) -> (r: Result<String, Error>)
        ensures
            r matches Ok(s) && s@ == dec_digits_of(v as nat),
    {
        Ok(u64_to_dec(v as u64))
    }

    /// Renders an unsigned integer in decimal.
    pub fn serialize_u16(self, v: u16) -> (r: Result<String, Error>)
        ensures
            r matches Ok(s) && s@ == dec_digits_of(v as nat),
    {
        Ok(u64_to_dec(v as u64))
    }

    /// Renders an unsigned integer in decimal.
    pub fn serialize_u32(self, v: u32) -> (r: Result<String, Error>)
        ensures
            r matches Ok(s) && s@ == dec_digits_of(v as nat),
    {
        Ok(u64_to_dec(v as u64))
    }

    /// Renders an unsigned integer in decimal.
    pub fn serialize_u64(self, v: u64) -> (r: Result<String, Error>)
        ensures
            r matches Ok(s) && s@ == dec_digits_of(v as nat),
    {
        Ok(u64_to_dec(v))
    }

    /// Renders a signed integer in decimal.
    pub fn serialize_i8(self, v: i8) -> (r: Result<String, Error>)
        ensures
            r matches Ok(s) && s@ == int_text(v as int),
    {
        Ok(i64_to_dec(v as i64))
    }

    /// Renders a signed integer in decimal.
    pub fn serialize_i16(self, v: i16) -> (r: Result<String, Error>)
        ensures
            r matches Ok(s) && s@ == int_text(v as int),
    {
        Ok(i64_to_dec(v as i64))
    }

    /// Renders a signed integer in decimal.
    pub fn serialize_i32(self, v: i32) -> (r: Result<String, Error>)
        ensures
            r matches Ok(s) && s@ == int_text(v as int),
    {
        Ok(i64_to_dec(v as i64))
    }

    /// Renders a signed integer in decimal.
    pub fn serialize_i64(self, v: i64) -> (r: Result<String, Error>)
        ensures
            r matches Ok(s) && s@ == int_text(v as int),
    {
        Ok(i64_to_dec(v))
    }

    /// Renders a character as the one-character string.
    pub fn serialize_char(self, v: char) -> (r: Result<String, Error>)
        ensures
            r matches Ok(s) && s@ == seq![v],
    {
        Ok(char_to_text(v))
    }

    /// Renders a string slice as itself, unmodified.
    pub fn serialize_str(self, v: &str) -> (r: Result<String, Error>)
        ensures
            r matches Ok(s) && s@ == v@,
    {
        Ok(String::from_str(v))
    }

    /// Byte arrays have no plain-string form.
    pub fn serialize_bytes(self, value: &[u8]) -> (r: Result<String, Error>)
        ensures
            r == Err::<String, Error>(Error::ImpossibleSerialization),
    {
        Err(Error::ImpossibleSerialization)
    }

    /// Renders the unit value as the empty string.
    pub fn serialize_unit(self) -> (r: Result<String, Error>)
        ensures
            r matches Ok(s) && s@ == Seq::<char>::empty(),
    {
        Ok(String::new())
    }

    /// Unit structs have no plain-string form.
    pub fn serialize_unit_struct(self, name: &str) -> (r: Result<String, Error>)
        ensures
            r == Err::<String, Error>(Error::ImpossibleSerialization),
    {
        Err(Error::ImpossibleSerialization)
    }

    /// Renders a unit enum variant as its serialization name, verbatim.
    pub fn serialize_unit_variant(self, name: &str, variant_index: u32, variant: &str) -> (r:
        Result<String, Error>)
        ensures
            r matches Ok(s) && s@ == variant@,
    {
        Ok(String::from_str(variant))
    }

    /// Renders a newtype wrapper as its one field.
    pub fn serialize_newtype_struct(self, name: &str, value: &Shape) -> (r: Result<String, Error>)
        ensures
            spec_render(*value) matches Some(t) ==> r matches Ok(s) && s@ == t,
            spec_render(*value) is None ==> r == Err::<String, Error>(
                Error::ImpossibleSerialization,
            ),
        decreases *value, 1nat,
    {
        to_string(value)
    }

    /// Newtype enum variants have no plain-string form.
    pub fn serialize_newtype_variant(self, name: &str, variant_index: u32, variant: &str) -> (r:
        Result<String, Error>)
        ensures
            r == Err::<String, Error>(Error::ImpossibleSerialization),
    {
        Err(Error::ImpossibleSerialization)
    }

    /// Renders an absent optional as the empty string.
    pub fn serialize_none(self) -> (r: Result<String, Error>)
        ensures
            r matches Ok(s) && s@ == Seq::<char>::empty(),
    {
        Ok(String::new())
    }

    /// Renders a present optional as the wrapped value.
    pub fn serialize_some(self, value: &Shape) -> (r: Result<String, Error>)
        ensures
            spec_render(*value) matches Some(t) ==> r matches Ok(s) && s@ == t,
            spec_render(*value) is None ==> r == Err::<String, Error>(
                Error::ImpossibleSerialization,
            ),
        decreases *value, 1nat,
    {
        to_string(value)
    }

    /// Sequences have no plain-string form.
    pub fn serialize_seq(self, len: Option<usize>) -> (r: Result<String, Error>)
        ensures
            r == Err::<String, Error>(Error::ImpossibleSerialization),
    {
        Err(Error::ImpossibleSerialization)
    }

    /// Tuples have no plain-string form.
    pub fn serialize_tuple(self, len: usize) -> (r: Result<String, Error>)
        ensures
            r == Err::<String, Error>(Error::ImpossibleSerialization),
    {
        Err(Error::ImpossibleSerialization)
    }

    /// Tuple structs have no plain-string form.
    pub fn serialize_tuple_struct(self, name: &str, len: usize) -> (r: Result<String, Error>)
        ensures
            r == Err::<String, Error>(Error::ImpossibleSerialization),
    {
        Err(Error::ImpossibleSerialization)
    }

    /// Tuple enum variants have no plain-string form.
    pub fn serialize_tuple_variant(
        self,
        name: &str,
        variant_index: u32,
        variant: &str,
        len: usize,
    ) -> (r: Result<String, Error>)
        ensures
            r == Err::<String, Error>(Error::ImpossibleSerialization),
    {
        Err(Error::ImpossibleSerialization)
    }

    /// Maps have no plain-string form.
    pub fn serialize_map(self, len: Option<usize>) -> (r: Result<String, Error>)
        ensures
            r == Err::<String, Error>(Error::ImpossibleSerialization),
    {
        Err(Error::ImpossibleSerialization)
    }

    /// Structs with named fields have no plain-string form.
    pub fn serialize_struct(self, name: &str, len: usize) -> (r: Result<String, Error>)
        ensures
            r == Err::<String, Error>(Error::ImpossibleSerialization),
    {
        Err(Error::ImpossibleSerialization)
    }

    /// Struct enum variants have no plain-string form.
    pub fn serialize_struct_variant(
        self,
        name: &str,
        variant_index: u32,
        variant: &str,
        len: usize,
    ) -> (r: Result<String, Error>)
        ensures
            r == Err::<String, Error>(Error::ImpossibleSerialization),
    {
        Err(Error::ImpossibleSerialization)
    }
}

} // verus!
