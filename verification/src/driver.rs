//! The device driver's memory primitives, over a modeled device.
//!
//! The device of this crate is a model: its memory is simulated inside the
//! host process, and a non-null [`DevicePointer`] owns the cells of exactly
//! one simulated allocation. The primitives keep the interface of a real
//! driver — allocate a number of elements, free a handle, zero an
//! allocation, transfer elements in each direction — and each is verified
//! against the contract such a driver documents. The modeled driver itself
//! never fails an allocation or a free; the fallible signatures are part of
//! the interface, and the callers above handle both outcomes.

use crate::device_copy::DeviceCopy;
use crate::error::CudaError;
use crate::error::CudaResult;
use vstd::arithmetic::div_mod::lemma_fundamental_div_mod;
use vstd::arithmetic::mul::lemma_mul_inequality;
use vstd::prelude::*;
use vstd::slice::slice_to_vec;

verus! {

/// An opaque, element-typed handle to at most one device allocation.
///
/// The null handle addresses no allocation and is the sentinel for "no
/// backing memory". A non-null handle is the sole owner of one allocation:
/// ownership is exclusive, so freeing twice or aliasing a live allocation is
/// ruled out by construction.
pub struct DevicePointer<T: DeviceCopy> {
    mem: Option<Vec<T>>,
}

impl<T: DeviceCopy> DevicePointer<T> {
    /// Whether this handle is the null sentinel.
    pub closed spec fn spec_is_null(self) -> bool {
        self.mem is None
    }

    /// The null handle: addresses no allocation.
    pub fn null() -> (p: Self)
        ensures
            p.spec_is_null(),
    {
        DevicePointer { mem: None }
    }

    /// Tests for the null sentinel.
    pub fn is_null(&self) -> (b: bool)
        ensures
            b == self.spec_is_null(),
    {
        self.mem.is_none()
    }
}

impl<T: DeviceCopy> View for DevicePointer<T> {
    type V = Seq<T>;

    /// The elements of the allocation this handle owns; empty for null.
    closed spec fn view(&self) -> Seq<T> {
        match self.mem {
            Option::None => Seq::empty(),
            Option::Some(cells) => cells@,
        }
    }
}

/// A null handle addresses no allocation, so it holds no elements.
pub proof fn lemma_null_view<T: DeviceCopy>(p: DevicePointer<T>)
    requires
        p.spec_is_null(),
    ensures
        p@.len() == 0,
{
}

/// For a positive element footprint, the exec overflow test `size <= MAX / elem`
/// decides exactly whether `size * elem` fits in `usize`.
proof fn lemma_byte_size_fits(size: int, elem: int)
    requires
        0 <= size,
        0 < elem,
    ensures
        size * elem <= usize::MAX <==> size <= usize::MAX as int / elem,
{
    let m = usize::MAX as int;
    let q = m / elem;
    lemma_fundamental_div_mod(m, elem);
    if size <= q {
        lemma_mul_inequality(size, q, elem);
    } else {
        lemma_mul_inequality(q + 1, size, elem);
        assert((q + 1) * elem == q * elem + elem) by (nonlinear_arith);
    }
}

/// A vector of `n` all-zero-bytes elements.
fn zero_vec<T: DeviceCopy>(n: usize) -> (v: Vec<T>)
    ensures
        v@ == Seq::new(n as nat, |i: int| T::spec_zero()),
{
    let z = T::zero();
    let mut v: Vec<T> = Vec::new();
    while v.len() < n
        invariant
            z == T::spec_zero(),
            v@.len() <= n,
            forall|j: int| 0 <= j < v@.len() ==> v@[j] == T::spec_zero(),
        decreases n - v@.len(),
    {
        v.push(z);
    }
    proof {
        assert(v@ =~= Seq::new(n as nat, |i: int| T::spec_zero()));
    }
    v
}

/// Allocates room for `size` elements of `T` on the device.
///
/// The driver refuses a request of zero bytes — a zero count or a
/// zero-footprint element — and a byte size that cannot be represented in
/// `usize`, reporting `InvalidAllocationSize` rather than wrapping. An
/// allocation never partially succeeds. The contents of fresh memory are
/// unspecified: nothing is promised of them until they are written.
pub fn device_malloc<T: DeviceCopy>(size: usize) -> (r: CudaResult<DevicePointer<T>>)
    ensures
        match r {
            Ok(p) => size > 0 && T::spec_size_of() > 0 && size * T::spec_size_of() <= usize::MAX
                && !p.spec_is_null() && p@.len() == size,
            Err(e) => e == CudaError::InvalidAllocationSize && (size == 0 || T::spec_size_of()
                == 0 || size * T::spec_size_of() > usize::MAX),
        },
{
    let elem = T::size_of();
    if size == 0 || elem == 0 {
        return Err(CudaError::InvalidAllocationSize);
    }
    proof {
        lemma_byte_size_fits(size as int, elem as int);
    }
    if size > usize::MAX / elem {
        return Err(CudaError::InvalidAllocationSize);
    }
    let cells: Vec<T> = zero_vec(size);
    Ok(DevicePointer { mem: Some(cells) })
}

/// Returns an allocation to the driver, consuming the handle.
///
/// The handle must be live — freeing the null handle, or a handle already
/// freed, is undefined at a real driver, and ownership makes the latter
/// impossible here. On failure the driver would hand the still-live handle
/// back with the error; the modeled driver's free always succeeds.
pub fn device_free<T: DeviceCopy>(ptr: DevicePointer<T>) -> (r: Result<
    (),
    (CudaError, DevicePointer<T>),
>)
    requires
        !ptr.spec_is_null(),
    ensures
        r is Ok,
{
    let DevicePointer { mem: _ } = ptr;
    Ok(())
}

/// Overwrites every byte of a live allocation with zero, so every element
/// becomes the all-zero-bytes value.
pub fn device_set_zero<T: DeviceCopy>(ptr: &mut DevicePointer<T>) -> (r: CudaResult<()>)
    requires
        !old(ptr).spec_is_null(),
    ensures
        r is Ok,
        !final(ptr).spec_is_null(),
        final(ptr)@ == Seq::new(old(ptr)@.len(), |i: int| T::spec_zero()),
{
    match &mut ptr.mem {
        Option::Some(cells) => {
            let n = cells.len();
            let zeros: Vec<T> = zero_vec(n);
            *cells = zeros;
        },
        Option::None => {},
    }
    Ok(())
}

/// Device-to-host transfer of a whole allocation's worth of elements.
/// The lengths must already agree; the driver never checks them.
pub fn device_copy_dtoh<T: DeviceCopy>(src: &DevicePointer<T>, dst: &mut [T]) -> (r: CudaResult<
    (),
>)
    requires
        old(dst)@.len() == src@.len(),
    ensures
        r is Ok,
        final(dst)@ == src@,
{
    match &src.mem {
        Option::Some(cells) => {
            let n = cells.len();
            let mut i: usize = 0;
            while i < n
                invariant
                    i <= n,
                    n == cells@.len(),
                    cells@ == src@,
                    dst@.len() == src@.len(),
                    forall|j: int| 0 <= j < i ==> dst@[j] == src@[j],
                decreases n - i,
            {
                let val = cells[i];
                dst[i] = val;
                i = i + 1;
            }
            proof {
                assert(dst@ =~= src@);
            }
        },
        Option::None => {
            proof {
                assert(dst@ =~= src@);
            }
        },
    }
    Ok(())
}

/// Host-to-device transfer into a live allocation.
/// The lengths must already agree; the driver never checks them.
pub fn device_copy_htod<T: DeviceCopy>(src: &[T], dst: &mut DevicePointer<T>) -> (r: CudaResult<
    (),
>)
    requires
        src@.len() == old(dst)@.len(),
    ensures
        r is Ok,
        final(dst).spec_is_null() == old(dst).spec_is_null(),
        final(dst)@ == src@,
{
    match &mut dst.mem {
        Option::Some(cells) => {
            *cells = slice_to_vec(src);
        },
        Option::None => {
            proof {
                assert(Seq::<T>::empty() =~= src@);
            }
        },
    }
    Ok(())
}

/// Device-to-device transfer between two allocations.
/// The lengths must already agree; the driver never checks them.
pub fn device_copy_dtod<T: DeviceCopy>(src: &DevicePointer<T>, dst: &mut DevicePointer<T>) -> (r:
    CudaResult<()>)
    requires
        src@.len() == old(dst)@.len(),
    ensures
        r is Ok,
        final(dst).spec_is_null() == old(dst).spec_is_null(),
        final(dst)@ == src@,
{
    match &mut dst.mem {
        Option::Some(cells) => {
            match &src.mem {
                Option::Some(source_cells) => {
                    *cells = slice_to_vec(source_cells.as_slice());
                },
                Option::None => {
                    proof {
                        assert(cells@ =~= src@);
                    }
                },
            }
        },
        Option::None => {
            proof {
                assert(Seq::<T>::empty() =~= src@);
            }
        },
    }
    Ok(())
}

} // verus!
