use vstd::prelude::*;

use crate::shape::{decodable, decodes_to, slots_decodable, slots_decode_to, Shape, VariantShape};
use crate::value::{is_nothing_value, slots_nothing, Value};

verus! {

/// Each value of `xs` has the shape at the same place in `ss`.
pub open spec fn slots_conform(xs: Vec<Value>, ss: Vec<Shape>) -> bool
    decreases ss, 1nat,
{
    &&& xs.len() == ss.len()
    &&& forall|i: int| 0 <= i < ss.len() ==> conforms(#[trigger] xs[i], ss[i])
}

/// `v` is a value of shape `s`. A request that leaves the shape to the data,
/// or throws the value away, admits any value.
pub open spec fn conforms(v: Value, s: Shape) -> bool
    decreases s, 0nat,
{
    match s {
        Shape::Any => true,
        Shape::Bool => v is Bool,
        Shape::I8 => v is I8,
        Shape::I16 => v is I16,
        Shape::I32 => v is I32,
        Shape::I64 => v is I64,
        Shape::I128 => v is I128,
        Shape::U8 => v is U8,
        Shape::U16 => v is U16,
        Shape::U32 => v is U32,
        Shape::U64 => v is U64,
        Shape::U128 => v is U128,
        Shape::Char => v is Char,
        Shape::Str => v is Str,
        Shape::Bytes => v is Bytes,
        Shape::Optional => v is Absent || v is Present,
        Shape::Unit => v is Unit,
        Shape::UnitStruct => v is UnitStruct,
        Shape::NewtypeStruct(inner) => v matches Value::NewtypeStruct(x) && conforms(*x, *inner),
        Shape::Sequence => v is Sequence,
        Shape::Dict => v is Dict,
        Shape::Tuple(ss) => v matches Value::Tuple(xs) && slots_conform(xs, ss),
        Shape::TupleStruct(ss) => v matches Value::TupleStruct(xs) && slots_conform(xs, ss),
        Shape::Struct(ss) => v matches Value::Struct(xs) && slots_conform(xs, ss),
        Shape::Enum(variants) => match v {
            Value::UnitVariant(i) => i < variants.len() && variants[i as int] is Unit,
            Value::NewtypeVariant(i, x) => i < variants.len() && match variants[i as int] {
                VariantShape::Newtype(inner) => conforms(*x, inner),
                _ => false,
            },
            Value::TupleVariant(i, xs) => i < variants.len() && match variants[i as int] {
                VariantShape::Tuple(ss) => slots_conform(xs, ss),
                _ => false,
            },
            Value::StructVariant(i, xs) => i < variants.len() && match variants[i as int] {
                VariantShape::Struct(ss) => slots_conform(xs, ss),
                _ => false,
            },
            _ => false,
        },
        Shape::Identifier => v is U8,
        Shape::IgnoredAny => true,
    }
}

/// The slots of `xs` make, one by one, the choices of `first_choices`.
pub open spec fn slots_first_choices(xs: Vec<Value>, ss: Vec<Shape>) -> bool
    decreases ss, 1nat,
{
    forall|i: int| 0 <= i < ss.len() && i < xs.len() ==> first_choices(#[trigger] xs[i], ss[i])
}

/// Wherever shape `s` leaves a choice open, `v` makes the one the decoder
/// makes: every enum in it holds its first variant, and every value that `s`
/// leaves to the data or throws away is unit.
pub open spec fn first_choices(v: Value, s: Shape) -> bool
    decreases s, 0nat,
{
    match s {
        Shape::Any => v is Unit,
        Shape::IgnoredAny => v is Unit,
        Shape::NewtypeStruct(inner) => v matches Value::NewtypeStruct(x) ==> first_choices(
            *x,
            *inner,
        ),
        Shape::Tuple(ss) => v matches Value::Tuple(xs) ==> slots_first_choices(xs, ss),
        Shape::TupleStruct(ss) => v matches Value::TupleStruct(xs) ==> slots_first_choices(xs, ss),
        Shape::Struct(ss) => v matches Value::Struct(xs) ==> slots_first_choices(xs, ss),
        Shape::Enum(variants) => 0 < variants.len() && match v {
            Value::UnitVariant(i) => i == 0,
            Value::NewtypeVariant(i, x) => i == 0 && match variants[0] {
                VariantShape::Newtype(inner) => first_choices(*x, inner),
                _ => true,
            },
            Value::TupleVariant(i, xs) => i == 0 && match variants[0] {
                VariantShape::Tuple(ss) => slots_first_choices(xs, ss),
                _ => true,
            },
            Value::StructVariant(i, xs) => i == 0 && match variants[0] {
                VariantShape::Struct(ss) => slots_first_choices(xs, ss),
                _ => true,
            },
            _ => true,
        },
        _ => true,
    }
}

/// A sequence or a map is nothing exactly when it has no element: what its
/// elements hold plays no part.
pub proof fn lemma_collection_nothing_iff_empty(xs: Vec<Value>, entries: Vec<(Value, Value)>)
    ensures
        is_nothing_value(Value::Sequence(xs)) <==> xs.len() == 0,
        is_nothing_value(Value::Dict(entries)) <==> entries.len() == 0,
{
}

/// A fixed-arity composite, of any of its kinds and variant indices, is
/// nothing exactly when each of its slots is nothing.
pub proof fn lemma_composite_nothing_iff_slots(xs: Vec<Value>, index: u32)
    ensures
        is_nothing_value(Value::Tuple(xs)) <==> slots_nothing(xs),
        is_nothing_value(Value::TupleStruct(xs)) <==> slots_nothing(xs),
        is_nothing_value(Value::TupleVariant(index, xs)) <==> slots_nothing(xs),
        is_nothing_value(Value::Struct(xs)) <==> slots_nothing(xs),
        is_nothing_value(Value::StructVariant(index, xs)) <==> slots_nothing(xs),
{
}

/// Whatever the decoder makes for a shape is nothing, and is of that shape:
/// encoding it succeeds.
pub proof fn lemma_decoded_is_nothing(v: Value, s: Shape)
    requires
        decodes_to(v, s),
    ensures
        is_nothing_value(v),
        conforms(v, s),
    decreases s,
{
    match s {
        Shape::NewtypeStruct(inner) => {
            let x = v->NewtypeStruct_0;
            lemma_decoded_is_nothing(*x, *inner);
        },
        Shape::Tuple(ss) => {
            lemma_decoded_slots_are_nothing(v->Tuple_0, ss);
        },
        Shape::TupleStruct(ss) => {
            lemma_decoded_slots_are_nothing(v->TupleStruct_0, ss);
        },
        Shape::Struct(ss) => {
            lemma_decoded_slots_are_nothing(v->Struct_0, ss);
        },
        Shape::Enum(variants) => {
            match variants[0] {
                VariantShape::Unit => {},
                VariantShape::Newtype(inner) => {
                    lemma_decoded_is_nothing(*v->NewtypeVariant_1, inner);
                },
                VariantShape::Tuple(ss) => {
                    lemma_decoded_slots_are_nothing(v->TupleVariant_1, ss);
                },
                VariantShape::Struct(ss) => {
                    lemma_decoded_slots_are_nothing(v->StructVariant_1, ss);
                },
            }
        },
        _ => {},
    }
}

/// Slot by slot, what the decoder makes for a list of shapes is nothing and
/// of those shapes.
pub proof fn lemma_decoded_slots_are_nothing(xs: Vec<Value>, ss: Vec<Shape>)
    requires
        slots_decode_to(xs, ss),
    ensures
        slots_nothing(xs),
        slots_conform(xs, ss),
    decreases ss,
{
    assert forall|i: int| 0 <= i < xs.len() implies is_nothing_value(#[trigger] xs[i]) && conforms(
        xs[i],
        ss[i],
    ) by {
        lemma_decoded_is_nothing(xs[i], ss[i]);
    }
}

/// Round trip: a value of shape `s` that encodes as nothing is exactly what
/// the decoder makes for `s`, wherever `s` leaves no choice that the value
/// makes otherwise than the decoder.
pub proof fn lemma_round_trip(v: Value, s: Shape)
    requires
        conforms(v, s),
        is_nothing_value(v),
        first_choices(v, s),
    ensures
        decodable(s),
        decodes_to(v, s),
    decreases s,
{
    match s {
        Shape::NewtypeStruct(inner) => {
            lemma_round_trip(*v->NewtypeStruct_0, *inner);
        },
        Shape::Tuple(ss) => {
            lemma_round_trip_slots(v->Tuple_0, ss);
        },
        Shape::TupleStruct(ss) => {
            lemma_round_trip_slots(v->TupleStruct_0, ss);
        },
        Shape::Struct(ss) => {
            lemma_round_trip_slots(v->Struct_0, ss);
        },
        Shape::Enum(variants) => {
            match variants[0] {
                VariantShape::Unit => {},
                VariantShape::Newtype(inner) => {
                    lemma_round_trip(*v->NewtypeVariant_1, inner);
                },
                VariantShape::Tuple(ss) => {
                    lemma_round_trip_slots(v->TupleVariant_1, ss);
                },
                VariantShape::Struct(ss) => {
                    lemma_round_trip_slots(v->StructVariant_1, ss);
                },
            }
        },
        _ => {},
    }
}

/// Round trip, slot by slot, for the slots of a fixed-arity composite.
pub proof fn lemma_round_trip_slots(xs: Vec<Value>, ss: Vec<Shape>)
    requires
        slots_conform(xs, ss),
        slots_nothing(xs),
        slots_first_choices(xs, ss),
    ensures
        slots_decodable(ss),
        slots_decode_to(xs, ss),
    decreases ss,
{
    assert forall|i: int| 0 <= i < ss.len() implies decodable(#[trigger] ss[i]) && decodes_to(
        xs[i],
        ss[i],
    ) by {
        lemma_round_trip(xs[i], ss[i]);
    }
}

} // verus!
