use vstd::prelude::*;

use crate::value::{is_nothing_value, slots_nothing, Value};
use crate::Nothing;

verus! {

/// The encoder's error: the value met is not nothing.
#[derive(Clone, Copy, Debug, Default, PartialEq, Eq, Structural, PartialOrd, Ord, Hash)]
pub struct NothingSerializeError;

impl NothingSerializeError {
    /// The text that describes this error.
    pub fn message(&self) -> (r: &'static str)
        ensures
            r@ == "Not nothing"@,
    {
        "Not nothing"
    }

    /// Builds the error from a failure raised by nested logic; its detail is dropped.
    pub fn custom(_detail: &str) -> (r: NothingSerializeError)
        ensures
            r == NothingSerializeError,
    {
        NothingSerializeError
    }
}

impl Nothing {
    /// Succeeds exactly when `v` is false.
    pub fn serialize_bool(self, v: bool) -> (r: Result<(), NothingSerializeError>)
        ensures
            r is Ok <==> !v,
    {
        if v {
            Err(NothingSerializeError)
        } else {
            Ok(())
        }
    }

    /// Succeeds exactly when `v` is zero.
    pub fn serialize_i8(self, v: i8) -> (r: Result<(), NothingSerializeError>)
        ensures
            r is Ok <==> v == 0,
    {
        if v != 0 {
            Err(NothingSerializeError)
        } else {
            Ok(())
        }
    }

    /// Succeeds exactly when `v` is zero.
    pub fn serialize_i16(self, v: i16) -> (r: Result<(), NothingSerializeError>)
        ensures
            r is Ok <==> v == 0,
    {
        if v != 0 {
            Err(NothingSerializeError)
        } else {
            Ok(())
        }
    }

    /// Succeeds exactly when `v` is zero.
    pub fn serialize_i32(self, v: i32) -> (r: Result<(), NothingSerializeError>)
        ensures
            r is Ok <==> v == 0,
    {
        if v != 0 {
            Err(NothingSerializeError)
        } else {
            Ok(())
        }
    }

    /// Succeeds exactly when `v` is zero.
    pub fn serialize_i64(self, v: i64) -> (r: Result<(), NothingSerializeError>)
        ensures
            r is Ok <==> v == 0,
    {
        if v != 0 {
            Err(NothingSerializeError)
        } else {
            Ok(())
        }
    }

    /// Succeeds exactly when `v` is zero.
    pub fn serialize_i128(self, v: i128) -> (r: Result<(), NothingSerializeError>)
        ensures
            r is Ok <==> v == 0,
    {
        if v != 0 {
            Err(NothingSerializeError)
        } else {
            Ok(())
        }
    }

    /// Succeeds exactly when `v` is zero.
    pub fn serialize_u8(self, v: u8) -> (r: Result<(), NothingSerializeError>)
        ensures
            r is Ok <==> v == 0,
    {
        if v != 0 {
            Err(NothingSerializeError)
        } else {
            Ok(())
        }
    }

    /// Succeeds exactly when `v` is zero.
    pub fn serialize_u16(self, v: u16) -> (r: Result<(), NothingSerializeError>)
        ensures
            r is Ok <==> v == 0,
    {
        if v != 0 {
            Err(NothingSerializeError)
        } else {
            Ok(())
        }
    }

    /// Succeeds exactly when `v` is zero.
    pub fn serialize_u32(self, v: u32) -> (r: Result<(), NothingSerializeError>)
        ensures
            r is Ok <==> v == 0,
    {
        if v != 0 {
            Err(NothingSerializeError)
        } else {
            Ok(())
        }
    }

    /// Succeeds exactly when `v` is zero.
    pub fn serialize_u64(self, v: u64) -> (r: Result<(), NothingSerializeError>)
        ensures
            r is Ok <==> v == 0,
    {
        if v != 0 {
            Err(NothingSerializeError)
        } else {
            Ok(())
        }
    }

    /// Succeeds exactly when `v` is zero.
    pub fn serialize_u128(self, v: u128) -> (r: Result<(), NothingSerializeError>)
        ensures
            r is Ok <==> v == 0,
    {
        if v != 0 {
            Err(NothingSerializeError)
        } else {
            Ok(())
        }
    }

    /// Succeeds exactly when `v` is the null character.
    pub fn serialize_char(self, v: char) -> (r: Result<(), NothingSerializeError>)
        ensures
            r is Ok <==> v == '\0',
    {
        if v != '\0' {
            Err(NothingSerializeError)
        } else {
            Ok(())
        }
    }

    /// Succeeds exactly when `v` is the empty string.
    pub fn serialize_str(self, v: &str) -> (r: Result<(), NothingSerializeError>)
        ensures
            r is Ok <==> v@.len() == 0,
    {
        if v.is_empty() {
            Ok(())
        } else {
            Err(NothingSerializeError)
        }
    }

    /// Succeeds exactly when `v` holds no byte.
    pub fn serialize_bytes(self, v: &[u8]) -> (r: Result<(), NothingSerializeError>)
        ensures
            r is Ok <==> v@.len() == 0,
    {
        if v.len() == 0 {
            Ok(())
        } else {
            Err(NothingSerializeError)
        }
    }

    /// An absent optional value is nothing.
    pub fn serialize_none(self) -> (r: Result<(), NothingSerializeError>)
        ensures
            r is Ok,
    {
        Ok(())
    }

    /// A present optional value is never nothing, whatever it holds.
    pub fn serialize_some(self) -> (r: Result<(), NothingSerializeError>)
        ensures
            r is Err,
    {
        Err(NothingSerializeError)
    }

    /// The unit value is nothing.
    pub fn serialize_unit(self) -> (r: Result<(), NothingSerializeError>)
        ensures
            r is Ok,
    {
        Ok(())
    }

    /// A unit-shaped record is nothing.
    pub fn serialize_unit_struct(self, _name: &str) -> (r: Result<(), NothingSerializeError>)
        ensures
            r is Ok,
    {
        Ok(())
    }

    /// A unit enum variant is nothing, whichever variant it is.
    pub fn serialize_unit_variant(self, _name: &str, _index: u32, _variant: &str) -> (r: Result<
        (),
        NothingSerializeError,
    >)
        ensures
            r is Ok,
    {
        Ok(())
    }

    /// An element handed to a sequence is never accepted: a sequence is
    /// nothing only when it has no element, whatever the element holds.
    pub fn serialize_seq_element(&mut self) -> (r: Result<(), NothingSerializeError>)
        ensures
            r is Err,
            *final(self) == *old(self),
    {
        Err(NothingSerializeError)
    }

    /// A key handed to a map is never accepted.
    pub fn serialize_key(&mut self) -> (r: Result<(), NothingSerializeError>)
        ensures
            r is Err,
            *final(self) == *old(self),
    {
        Err(NothingSerializeError)
    }

    /// A value handed to a map is never accepted.
    pub fn serialize_value(&mut self) -> (r: Result<(), NothingSerializeError>)
        ensures
            r is Err,
            *final(self) == *old(self),
    {
        Err(NothingSerializeError)
    }

    /// A record field that its type skips is not visited and so accepted.
    pub fn skip_field(&mut self, _key: &str) -> (r: Result<(), NothingSerializeError>)
        ensures
            r is Ok,
            *final(self) == *old(self),
    {
        Ok(())
    }

    /// Closing a composite whose parts were all accepted succeeds.
    pub fn end(self) -> (r: Result<(), NothingSerializeError>)
        ensures
            r is Ok,
    {
        Ok(())
    }

    /// A sequence handed over as an iterator: succeeds exactly when the
    /// iterator yielded no first element.
    pub fn collect_seq(self, has_first: bool) -> (r: Result<(), NothingSerializeError>)
        ensures
            r is Ok <==> !has_first,
    {
        if has_first {
            Err(NothingSerializeError)
        } else {
            Ok(())
        }
    }

    /// A map handed over as an iterator of entries: succeeds exactly when
    /// the iterator yielded no first entry.
    pub fn collect_map(self, has_first: bool) -> (r: Result<(), NothingSerializeError>)
        ensures
            r is Ok <==> !has_first,
    {
        if has_first {
            Err(NothingSerializeError)
        } else {
            Ok(())
        }
    }

    /// One piece of a rendered text: accepted exactly when it is empty, so
    /// that rendering stops at the first character it emits.
    pub fn collect_str_piece(self, piece: &str) -> (r: Result<(), NothingSerializeError>)
        ensures
            r is Ok <==> piece@.len() == 0,
    {
        self.serialize_str(piece)
    }

    /// Encodes the slots of a fixed-arity composite in declaration order,
    /// stopping at the first one that is not nothing.
    pub fn serialize_fields(self, xs: &Vec<Value>) -> (r: Result<(), NothingSerializeError>)
        ensures
            r is Ok <==> slots_nothing(*xs),
        decreases xs, 1nat,
    {
        let mut i: usize = 0;
        while i < xs.len()
            invariant
                i <= xs.len(),
                forall|j: int| 0 <= j < i ==> is_nothing_value(#[trigger] xs[j]),
            decreases xs.len() - i,
        {
            let slot = self.serialize(&xs[i]);
            if slot.is_err() {
                return Err(NothingSerializeError);
            }
            i = i + 1;
        }
        Ok(())
    }

    /// Encodes `v`: succeeds exactly when `v` is nothing.
    pub fn serialize(self, v: &Value) -> (r: Result<(), NothingSerializeError>)
        ensures
            r is Ok <==> is_nothing_value(*v),
        decreases v, 0nat,
    {
        match v {
            Value::Bool(b) => self.serialize_bool(*b),
            Value::I8(n) => self.serialize_i8(*n),
            Value::I16(n) => self.serialize_i16(*n),
            Value::I32(n) => self.serialize_i32(*n),
            Value::I64(n) => self.serialize_i64(*n),
            Value::I128(n) => self.serialize_i128(*n),
            Value::U8(n) => self.serialize_u8(*n),
            Value::U16(n) => self.serialize_u16(*n),
            Value::U32(n) => self.serialize_u32(*n),
            Value::U64(n) => self.serialize_u64(*n),
            Value::U128(n) => self.serialize_u128(*n),
            Value::Char(c) => self.serialize_char(*c),
            Value::Str(s) => self.serialize_str(s.as_str()),
            Value::Bytes(b) => self.serialize_bytes(b.as_slice()),
            Value::Absent => self.serialize_none(),
            Value::Present(_) => self.serialize_some(),
            Value::Unit => self.serialize_unit(),
            Value::UnitStruct => self.serialize_unit_struct(""),
            Value::UnitVariant(index) => self.serialize_unit_variant("", *index, ""),
            Value::NewtypeStruct(inner) => self.serialize(inner),
            Value::NewtypeVariant(_, inner) => self.serialize(inner),
            Value::Sequence(xs) => self.collect_seq(xs.len() > 0),
            Value::Dict(entries) => self.collect_map(entries.len() > 0),
            Value::Tuple(xs) => self.serialize_fields(xs),
            Value::TupleStruct(xs) => self.serialize_fields(xs),
            Value::TupleVariant(_, xs) => self.serialize_fields(xs),
            Value::Struct(xs) => self.serialize_fields(xs),
            Value::StructVariant(_, xs) => self.serialize_fields(xs),
        }
    }
}

} // verus!
