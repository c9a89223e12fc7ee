//! Element types that may live in device memory.

use vstd::prelude::*;

verus! {

/// An element type that can be held in device memory and moved between host
/// and device by plain memory transfer.
///
/// The trait carries the two facts the buffer layer depends on: the element's
/// footprint in device memory, in bytes, and the value whose bytes are all
/// zero, which is what a zero-fill of the backing memory produces. A type of
/// footprint zero never occupies device memory at all: no allocation backs a
/// buffer of such elements.
pub trait DeviceCopy: Copy + Sized {
    /// The element's footprint in device memory, in bytes.
    spec fn spec_size_of() -> usize;

    /// The value whose representation is all-zero bytes.
    spec fn spec_zero() -> Self;

    /// Returns the element footprint, in bytes.
    fn size_of() -> (n: usize)
        ensures
            n == Self::spec_size_of(),
    ;

    /// Returns the all-zero-bytes value.
    fn zero() -> (z: Self)
        ensures
            z == Self::spec_zero(),
    ;
}

impl DeviceCopy for u8 {
    open spec fn spec_size_of() -> usize {
        1
    }

    open spec fn spec_zero() -> u8 {
        0
    }

    fn size_of() -> usize {
        1
    }

    fn zero() -> u8 {
        0
    }
}

impl DeviceCopy for u32 {
    open spec fn spec_size_of() -> usize {
        4
    }

    open spec fn spec_zero() -> u32 {
        0
    }

    fn size_of() -> usize {
        4
    }

    fn zero() -> u32 {
        0
    }
}

impl DeviceCopy for u64 {
    open spec fn spec_size_of() -> usize {
        8
    }

    open spec fn spec_zero() -> u64 {
        0
    }

    fn size_of() -> usize {
        8
    }

    fn zero() -> u64 {
        0
    }
}

impl DeviceCopy for i32 {
    open spec fn spec_size_of() -> usize {
        4
    }

    open spec fn spec_zero() -> i32 {
        0
    }

    fn size_of() -> usize {
        4
    }

    fn zero() -> i32 {
        0
    }
}

impl DeviceCopy for i64 {
    open spec fn spec_size_of() -> usize {
        8
    }

    open spec fn spec_zero() -> i64 {
        0
    }

    fn size_of() -> usize {
        8
    }

    fn zero() -> i64 {
        0
    }
}

/// An element type with no footprint: a buffer of these is never backed by a
/// device allocation, and allocating one yields the null handle.
#[derive(Clone, Copy, Debug, PartialEq, Eq, Structural)]
pub struct ZeroSizedType;

impl DeviceCopy for ZeroSizedType {
    open spec fn spec_size_of() -> usize {
        0
    }

    open spec fn spec_zero() -> ZeroSizedType {
        ZeroSizedType
    }

    fn size_of() -> usize {
        0
    }

    fn zero() -> ZeroSizedType {
        ZeroSizedType
    }
}

} // verus!
