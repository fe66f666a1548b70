use vstd::prelude::*;

use crate::shape::{decodable, decodes_to, slots_decodable, slots_decode_to, Shape, VariantShape};
use crate::value::Value;
use crate::Nothing;

verus! {

/// The decoder's error: a value was asked for that cannot be made empty.
#[derive(Clone, Copy, Debug, PartialEq, Eq, Structural, Hash)]
pub struct NothingDeserializeError;

impl NothingDeserializeError {
    /// The text that describes this error.
    pub fn message(&self) -> (r: &'static str)
        ensures
            r@ == "Something expected"@,
    {
        "Something expected"
    }

    /// Builds the error from a failure raised by nested logic; its detail is dropped.
    pub fn custom(_detail: &str) -> (r: NothingDeserializeError)
        ensures
            r == NothingDeserializeError,
    {
        NothingDeserializeError
    }
}

/// A cursor over a fixed number of empty elements, for the composites whose
/// arity is known: tuples, tuple-like records and variants, and records.
#[derive(Debug)]
pub struct FewNothing {
    len: usize,
}

impl FewNothing {
    /// The number of elements not yet handed out.
    pub closed spec fn remaining(&self) -> nat {
        self.len as nat
    }

    /// A cursor that will hand out `len` elements.
    pub fn new(len: usize) -> (r: FewNothing)
        ensures
            r.remaining() == len,
    {
        FewNothing { len }
    }

    /// Takes one element slot: true, and one fewer left, while any is left;
    /// false once the cursor is exhausted.
    pub fn next_slot(&mut self) -> (r: bool)
        ensures
            r <==> old(self).remaining() > 0,
            final(self).remaining() == if r {
                (old(self).remaining() - 1) as nat
            } else {
                old(self).remaining()
            },
    {
        if self.len > 0 {
            self.len = self.len - 1;
            true
        } else {
            false
        }
    }

    /// The next element, synthesized as the empty value of `shape`, or
    /// `None` once the cursor is exhausted.
    pub fn next_element(&mut self, shape: &Shape) -> (r: Result<Option<Value>, NothingDeserializeError>)
        ensures
            old(self).remaining() == 0 ==> r matches Ok(None),
            old(self).remaining() > 0 ==> (r is Ok <==> decodable(*shape)),
            old(self).remaining() > 0 ==> (r matches Ok(Some(v)) ==> decodes_to(v, *shape)),
            old(self).remaining() > 0 ==> !(r matches Ok(None)),
            final(self).remaining() == if old(self).remaining() > 0 {
                (old(self).remaining() - 1) as nat
            } else {
                0
            },
        decreases shape, 1nat,
    {
        if self.next_slot() {
            match Nothing.deserialize(shape) {
                Ok(v) => Ok(Some(v)),
                Err(e) => Err(e),
            }
        } else {
            Ok(None)
        }
    }

    /// The exact number of elements left.
    pub fn size_hint(&self) -> (r: Option<usize>)
        ensures
            r matches Some(n) && n == self.remaining(),
    {
        Some(self.len)
    }
}

impl Nothing {
    /// A request that leaves the shape to the data is answered with unit.
    pub fn deserialize_any(self) -> (r: ())
    {
        ()
    }

    /// A request for a boolean is answered with false.
    pub fn deserialize_bool(self) -> (r: bool)
        ensures
            r == false,
    {
        false
    }

    /// A request for a `i8` is answered with zero.
    pub fn deserialize_i8(self) -> (r: i8)
        ensures
            r == 0,
    {
        0
    }

    /// A request for a `i16` is answered with zero.
    pub fn deserialize_i16(self) -> (r: i16)
        ensures
            r == 0,
    {
        0
    }

    /// A request for a `i32` is answered with zero.
    pub fn deserialize_i32(self) -> (r: i32)
        ensures
            r == 0,
    {
        0
    }

    /// A request for a `i64` is answered with zero.
    pub fn deserialize_i64(self) -> (r: i64)
        ensures
            r == 0,
    {
        0
    }

    /// A request for a `i128` is answered with zero.
    pub fn deserialize_i128(self) -> (r: i128)
        ensures
            r == 0,
    {
        0
    }

    /// A request for a `u8` is answered with zero.
    pub fn deserialize_u8(self) -> (r: u8)
        ensures
            r == 0,
    {
        0
    }

    /// A request for a `u16` is answered with zero.
    pub fn deserialize_u16(self) -> (r: u16)
        ensures
            r == 0,
    {
        0
    }

    /// A request for a `u32` is answered with zero.
    pub fn deserialize_u32(self) -> (r: u32)
        ensures
            r == 0,
    {
        0
    }

    /// A request for a `u64` is answered with zero.
    pub fn deserialize_u64(self) -> (r: u64)
        ensures
            r == 0,
    {
        0
    }

    /// A request for a `u128` is answered with zero.
    pub fn deserialize_u128(self) -> (r: u128)
        ensures
            r == 0,
    {
        0
    }

    /// A request for a character is answered with the null character.
    pub fn deserialize_char(self) -> (r: char)
        ensures
            r == '\0',
    {
        '\0'
    }

    /// A request for borrowed or owned text is answered with the empty string.
    pub fn deserialize_str(self) -> (r: &'static str)
        ensures
            r@.len() == 0,
    {
        let r: &'static str = "";
        proof {
            reveal_strlit("");
        }
        r
    }

    /// A request for borrowed or owned bytes is answered with no bytes.
    pub fn deserialize_bytes(self) -> (r: &'static [u8])
        ensures
            r@.len() == 0,
    {
        let r: &'static [u8] = &[];
        r
    }

    /// A request for an identifier of a field or variant is answered with
    /// zero, which selects the first one declared.
    pub fn deserialize_identifier(self) -> (r: u8)
        ensures
            r == 0,
    {
        0
    }

    /// A request for a tuple, or a tuple-like record, of `len` elements is
    /// answered with a cursor over `len` empty elements.
    pub fn deserialize_tuple(self, len: usize) -> (r: FewNothing)
        ensures
            r.remaining() == len,
    {
        FewNothing::new(len)
    }

    /// A request for a record with `fields` fields is answered with a cursor
    /// over that many empty elements.
    pub fn deserialize_struct(self, fields: usize) -> (r: FewNothing)
        ensures
            r.remaining() == fields,
    {
        FewNothing::new(fields)
    }

    /// As a sequence, nothing has no element.
    pub fn next_element(&mut self) -> (r: Result<Option<Value>, NothingDeserializeError>)
        ensures
            r matches Ok(None),
            *final(self) == *old(self),
    {
        Ok(None)
    }

    /// As a sequence or a map, nothing holds exactly zero elements.
    pub fn size_hint(&self) -> (r: Option<usize>)
        ensures
            r == Some(0usize),
    {
        Some(0)
    }

    /// As a map, nothing has no key.
    pub fn next_key(&mut self) -> (r: Result<Option<Value>, NothingDeserializeError>)
        ensures
            r matches Ok(None),
            *final(self) == *old(self),
    {
        Ok(None)
    }

    /// A map value asked for with no key before it breaks the protocol and fails.
    pub fn next_value(&mut self) -> (r: Result<Value, NothingDeserializeError>)
        ensures
            r is Err,
            *final(self) == *old(self),
    {
        Err(NothingDeserializeError)
    }

    /// As a map, nothing has no entry.
    pub fn next_entry(&mut self) -> (r: Result<Option<(Value, Value)>, NothingDeserializeError>)
        ensures
            r matches Ok(None),
            *final(self) == *old(self),
    {
        Ok(None)
    }

    /// The payload of a unit variant needs nothing.
    pub fn unit_variant(self) -> (r: Result<(), NothingDeserializeError>)
        ensures
            r is Ok,
    {
        Ok(())
    }

    /// The payload of a tuple variant of `len` elements: a cursor over `len`
    /// empty elements.
    pub fn tuple_variant(self, len: usize) -> (r: FewNothing)
        ensures
            r.remaining() == len,
    {
        FewNothing::new(len)
    }

    /// The payload of a record variant with `fields` fields: a cursor over
    /// that many empty elements.
    pub fn struct_variant(self, fields: usize) -> (r: FewNothing)
        ensures
            r.remaining() == fields,
    {
        FewNothing::new(fields)
    }

    /// Pulls from `few` one empty element for each shape of `ss`, in order.
    pub fn deserialize_slots(self, few: &mut FewNothing, ss: &Vec<Shape>) -> (r: Result<
        Vec<Value>,
        NothingDeserializeError,
    >)
        requires
            old(few).remaining() == ss.len(),
        ensures
            r is Ok <==> slots_decodable(*ss),
            r matches Ok(xs) ==> slots_decode_to(xs, *ss),
        decreases ss, 0nat,
    {
        let mut xs: Vec<Value> = Vec::new();
        let mut i: usize = 0;
        while i < ss.len()
            invariant
                i <= ss.len(),
                few.remaining() == ss.len() - i,
                xs.len() == i,
                forall|j: int| 0 <= j < i ==> decodable(#[trigger] ss[j]),
                forall|j: int| 0 <= j < i ==> decodes_to(#[trigger] xs[j], ss[j]),
            decreases ss.len() - i,
        {
            match few.next_element(&ss[i]) {
                Ok(Some(v)) => {
                    xs.push(v);
                },
                Ok(None) => {
                    proof {
                        assert(false);
                    }
                    return Err(NothingDeserializeError);
                },
                Err(e) => {
                    return Err(e);
                },
            }
            i = i + 1;
        }
        Ok(xs)
    }

    /// Synthesizes the empty value of `shape`. Fails exactly when an enum
    /// that the value needs has no variant to select.
    pub fn deserialize(self, shape: &Shape) -> (r: Result<Value, NothingDeserializeError>)
        ensures
            r is Ok <==> decodable(*shape),
            r matches Ok(v) ==> decodes_to(v, *shape),
        decreases shape, 0nat,
    {
        match shape {
            Shape::Any => {
                self.deserialize_any();
                Ok(Value::Unit)
            },
            Shape::Bool => Ok(Value::Bool(self.deserialize_bool())),
            Shape::I8 => Ok(Value::I8(self.deserialize_i8())),
            Shape::I16 => Ok(Value::I16(self.deserialize_i16())),
            Shape::I32 => Ok(Value::I32(self.deserialize_i32())),
            Shape::I64 => Ok(Value::I64(self.deserialize_i64())),
            Shape::I128 => Ok(Value::I128(self.deserialize_i128())),
            Shape::U8 => Ok(Value::U8(self.deserialize_u8())),
            Shape::U16 => Ok(Value::U16(self.deserialize_u16())),
            Shape::U32 => Ok(Value::U32(self.deserialize_u32())),
            Shape::U64 => Ok(Value::U64(self.deserialize_u64())),
            Shape::U128 => Ok(Value::U128(self.deserialize_u128())),
            Shape::Char => Ok(Value::Char(self.deserialize_char())),
            Shape::Str => Ok(Value::Str(self.deserialize_str().to_string())),
            Shape::Bytes => Ok(Value::Bytes(vstd::slice::slice_to_vec(self.deserialize_bytes()))),
            Shape::Optional => Ok(Value::Absent),
            Shape::Unit => Ok(Value::Unit),
            Shape::UnitStruct => Ok(Value::UnitStruct),
            Shape::NewtypeStruct(inner) => match self.deserialize(inner) {
                Ok(x) => Ok(Value::NewtypeStruct(Box::new(x))),
                Err(e) => Err(e),
            },
            Shape::Sequence => Ok(Value::Sequence(Vec::new())),
            Shape::Dict => Ok(Value::Dict(Vec::new())),
            Shape::Tuple(ss) => {
                let mut few = self.deserialize_tuple(ss.len());
                match self.deserialize_slots(&mut few, ss) {
                    Ok(xs) => Ok(Value::Tuple(xs)),
                    Err(e) => Err(e),
                }
            },
            Shape::TupleStruct(ss) => {
                let mut few = self.deserialize_tuple(ss.len());
                match self.deserialize_slots(&mut few, ss) {
                    Ok(xs) => Ok(Value::TupleStruct(xs)),
                    Err(e) => Err(e),
                }
            },
            Shape::Struct(ss) => {
                let mut few = self.deserialize_struct(ss.len());
                match self.deserialize_slots(&mut few, ss) {
                    Ok(xs) => Ok(Value::Struct(xs)),
                    Err(e) => Err(e),
                }
            },
            Shape::Enum(variants) => {
                let index = self.deserialize_identifier();
                if variants.len() == 0 {
                    return Err(NothingDeserializeError);
                }
                match &variants[index as usize] {
                    VariantShape::Unit => match self.unit_variant() {
                        Ok(()) => Ok(Value::UnitVariant(0)),
                        Err(e) => Err(e),
                    },
                    VariantShape::Newtype(inner) => match self.deserialize(inner) {
                        Ok(x) => Ok(Value::NewtypeVariant(0, Box::new(x))),
                        Err(e) => Err(e),
                    },
                    VariantShape::Tuple(ss) => {
                        let mut few = self.tuple_variant(ss.len());
                        match self.deserialize_slots(&mut few, ss) {
                            Ok(xs) => Ok(Value::TupleVariant(0, xs)),
                            Err(e) => Err(e),
                        }
                    },
                    VariantShape::Struct(ss) => {
                        let mut few = self.struct_variant(ss.len());
                        match self.deserialize_slots(&mut few, ss) {
                            Ok(xs) => Ok(Value::StructVariant(0, xs)),
                            Err(e) => Err(e),
                        }
                    },
                }
            },
            Shape::Identifier => Ok(Value::U8(self.deserialize_identifier())),
            Shape::IgnoredAny => Ok(Value::Unit),
        }
    }
}

} // verus!
