//! The opt-in capability of being copied to the GPU as raw bytes.
use vstd::prelude::*;

verus! {

/// Marks scalar types with a fixed size and no padding, whose values a
/// shader can read byte for byte. Records are opted in where their layout
/// is fixed, next to the code that builds their bytes.
pub trait Gpu {}

impl Gpu for u16 {}

impl Gpu for u32 {}

/// A read-only byte view of a value or of a contiguous run of values, in the
/// layout that the GPU reads.
pub trait Raw {
    fn get_raw(&self) -> &[u8];
}

} // verus!
