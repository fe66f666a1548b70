use vstd::prelude::*;

verus! {

/// A value of the structured-data model, as the encoder's dispatch sees it.
///
/// Variant indices of enum values are kept; names of types, fields and
/// variants are not, since neither direction looks at them.
#[derive(Debug)]
pub enum Value {
    Bool(bool),
    I8(i8),
    I16(i16),
    I32(i32),
    I64(i64),
    I128(i128),
    U8(u8),
    U16(u16),
    U32(u32),
    U64(u64),
    U128(u128),
    Char(char),
    Str(String),
    Bytes(Vec<u8>),
    /// An optional value that is absent.
    Absent,
    /// An optional value that is present.
    Present(Box<Value>),
    Unit,
    UnitStruct,
    UnitVariant(u32),
    NewtypeStruct(Box<Value>),
    NewtypeVariant(u32, Box<Value>),
    /// A sequence whose length is not part of its type.
    Sequence(Vec<Value>),
    /// A map, as its entries in order.
    Dict(Vec<(Value, Value)>),
    Tuple(Vec<Value>),
    TupleStruct(Vec<Value>),
    TupleVariant(u32, Vec<Value>),
    /// A record, as its visited fields in declaration order.
    Struct(Vec<Value>),
    StructVariant(u32, Vec<Value>),
}

/// Every slot of a fixed-arity composite is nothing.
pub open spec fn slots_nothing(xs: Vec<Value>) -> bool
    decreases xs, 1nat,
{
    forall|i: int| 0 <= i < xs.len() ==> is_nothing_value(#[trigger] xs[i])
}

/// The recursive definition of "nothing": false, zero, the null character,
/// empty text or bytes, an absent option, any unit form, a newtype around
/// nothing, a sequence or map with no elements, or a fixed-arity composite
/// whose every slot is nothing.
pub open spec fn is_nothing_value(v: Value) -> bool
    decreases v, 0nat,
{
    match v {
        Value::Bool(b) => !b,
        Value::I8(n) => n == 0,
        Value::I16(n) => n == 0,
        Value::I32(n) => n == 0,
        Value::I64(n) => n == 0,
        Value::I128(n) => n == 0,
        Value::U8(n) => n == 0,
        Value::U16(n) => n == 0,
        Value::U32(n) => n == 0,
        Value::U64(n) => n == 0,
        Value::U128(n) => n == 0,
        Value::Char(c) => c == '\0',
        Value::Str(s) => s@.len() == 0,
        Value::Bytes(b) => b@.len() == 0,
        Value::Absent => true,
        Value::Present(_) => false,
        Value::Unit => true,
        Value::UnitStruct => true,
        Value::UnitVariant(_) => true,
        Value::NewtypeStruct(inner) => is_nothing_value(*inner),
        Value::NewtypeVariant(_, inner) => is_nothing_value(*inner),
        Value::Sequence(xs) => xs.len() == 0,
        Value::Dict(entries) => entries.len() == 0,
        Value::Tuple(xs) => slots_nothing(xs),
        Value::TupleStruct(xs) => slots_nothing(xs),
        Value::TupleVariant(_, xs) => slots_nothing(xs),
        Value::Struct(xs) => slots_nothing(xs),
        Value::StructVariant(_, xs) => slots_nothing(xs),
    }
}

} // verus!
