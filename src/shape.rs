use vstd::prelude::*;

use crate::value::Value;

verus! {

/// A shape that a caller asks the decoder for.
///
/// Borrowed and owned text (and bytes) are one shape here: the decoder
/// answers both with the empty form. Element types of sequences and maps are
/// left out, since no element is ever made for them.
#[derive(Debug)]
pub enum Shape {
    /// A request that leaves the shape to the data.
    Any,
    Bool,
    I8,
    I16,
    I32,
    I64,
    I128,
    U8,
    U16,
    U32,
    U64,
    U128,
    Char,
    Str,
    Bytes,
    Optional,
    Unit,
    UnitStruct,
    NewtypeStruct(Box<Shape>),
    Sequence,
    Dict,
    Tuple(Vec<Shape>),
    TupleStruct(Vec<Shape>),
    /// A record, as the shapes of its fields in declaration order.
    Struct(Vec<Shape>),
    /// An enum, as the payload shapes of its variants in declaration order.
    Enum(Vec<VariantShape>),
    /// The identifier of a field or a variant.
    Identifier,
    /// A value that the caller throws away.
    IgnoredAny,
}

/// The payload shape of one enum variant.
#[derive(Debug)]
pub enum VariantShape {
    Unit,
    Newtype(Shape),
    Tuple(Vec<Shape>),
    Struct(Vec<Shape>),
}

/// `xs` holds, slot by slot, the empty values of the shapes `ss`.
pub open spec fn slots_decode_to(xs: Vec<Value>, ss: Vec<Shape>) -> bool
    decreases ss, 1nat,
{
    &&& xs.len() == ss.len()
    &&& forall|i: int| 0 <= i < ss.len() ==> decodes_to(#[trigger] xs[i], ss[i])
}

/// Every shape of `ss` can be synthesized.
pub open spec fn slots_decodable(ss: Vec<Shape>) -> bool
    decreases ss, 1nat,
{
    forall|i: int| 0 <= i < ss.len() ==> decodable(#[trigger] ss[i])
}

/// `v` is the canonical empty value of shape `s`: false, zero, the null
/// character, empty text or bytes, an absent option, unit, an empty sequence
/// or map, a composite of empty slots, or the first variant of an enum with an
/// empty payload.
pub open spec fn decodes_to(v: Value, s: Shape) -> bool
    decreases s, 0nat,
{
    match s {
        Shape::Any => v == Value::Unit,
        Shape::Bool => v == Value::Bool(false),
        Shape::I8 => v == Value::I8(0),
        Shape::I16 => v == Value::I16(0),
        Shape::I32 => v == Value::I32(0),
        Shape::I64 => v == Value::I64(0),
        Shape::I128 => v == Value::I128(0),
        Shape::U8 => v == Value::U8(0),
        Shape::U16 => v == Value::U16(0),
        Shape::U32 => v == Value::U32(0),
        Shape::U64 => v == Value::U64(0),
        Shape::U128 => v == Value::U128(0),
        Shape::Char => v == Value::Char('\0'),
        Shape::Str => v matches Value::Str(t) && t@.len() == 0,
        Shape::Bytes => v matches Value::Bytes(b) && b@.len() == 0,
        Shape::Optional => v == Value::Absent,
        Shape::Unit => v == Value::Unit,
        Shape::UnitStruct => v == Value::UnitStruct,
        Shape::NewtypeStruct(inner) => v matches Value::NewtypeStruct(x) && decodes_to(*x, *inner),
        Shape::Sequence => v matches Value::Sequence(xs) && xs.len() == 0,
        Shape::Dict => v matches Value::Dict(entries) && entries.len() == 0,
        Shape::Tuple(ss) => v matches Value::Tuple(xs) && slots_decode_to(xs, ss),
        Shape::TupleStruct(ss) => v matches Value::TupleStruct(xs) && slots_decode_to(xs, ss),
        Shape::Struct(ss) => v matches Value::Struct(xs) && slots_decode_to(xs, ss),
        Shape::Enum(variants) => 0 < variants.len() && match variants[0] {
            VariantShape::Unit => v == Value::UnitVariant(0),
            VariantShape::Newtype(inner) => v matches Value::NewtypeVariant(0, x) && decodes_to(
                *x,
                inner,
            ),
            VariantShape::Tuple(ss) => v matches Value::TupleVariant(0, xs) && slots_decode_to(xs, ss),
            VariantShape::Struct(ss) => v matches Value::StructVariant(0, xs) && slots_decode_to(
                xs,
                ss,
            ),
        },
        Shape::Identifier => v == Value::U8(0),
        Shape::IgnoredAny => v == Value::Unit,
    }
}

/// The decoder can synthesize shape `s`: every enum that `s` reaches through
/// the slots it fills has a first variant.
pub open spec fn decodable(s: Shape) -> bool
    decreases s, 0nat,
{
    match s {
        Shape::NewtypeStruct(inner) => decodable(*inner),
        Shape::Tuple(ss) => slots_decodable(ss),
        Shape::TupleStruct(ss) => slots_decodable(ss),
        Shape::Struct(ss) => slots_decodable(ss),
        Shape::Enum(variants) => 0 < variants.len() && match variants[0] {
            VariantShape::Unit => true,
            VariantShape::Newtype(inner) => decodable(inner),
            VariantShape::Tuple(ss) => slots_decodable(ss),
            VariantShape::Struct(ss) => slots_decodable(ss),
        },
        _ => true,
    }
}

} // verus!
