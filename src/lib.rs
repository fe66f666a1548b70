use vstd::prelude::*;

pub mod de;
pub mod laws;
pub mod ser;
pub mod shape;
pub mod value;

pub use de::{FewNothing, NothingDeserializeError};
pub use ser::NothingSerializeError;
pub use shape::{Shape, VariantShape};
pub use value::Value;

use value::is_nothing_value;

verus! {

/// The stateless marker that stands for "nothing": every instance is the same.
#[derive(Clone, Copy, Debug, Default, PartialEq, Eq, Structural, PartialOrd, Ord, Hash)]
pub struct Nothing;

/// True exactly when `v` is nothing, that is when encoding it succeeds.
pub fn is_nothing(v: &Value) -> (r: bool)
    ensures
        r == is_nothing_value(*v),
{
    Nothing.serialize(v).is_ok()
}

} // verus!
