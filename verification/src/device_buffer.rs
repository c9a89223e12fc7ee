//! Fixed-capacity, exclusively-owned buffers of device memory.

use crate::device_copy::DeviceCopy;
use crate::driver::device_copy_dtod;
use crate::driver::device_copy_dtoh;
use crate::driver::device_copy_htod;
use crate::driver::device_free;
use crate::driver::device_malloc;
use crate::driver::device_set_zero;
use crate::driver::lemma_null_view;
use crate::driver::DevicePointer;
use crate::error::CudaError;
use crate::error::CudaResult;
use crate::error::DropResult;
use crate::stream::Stream;
use vstd::prelude::*;

verus! {

/// A fixed-size device-side buffer: the sole owner of one device allocation,
/// or of none at all.
///
/// A buffer either holds a non-null handle to exactly one live allocation of
/// `capacity` elements, or holds the null handle because nothing backs it —
/// which is the case exactly when the capacity is zero or the element type
/// has no footprint. Storage is reclaimed exactly once: implicitly when the
/// value goes out of scope (best-effort, reporting nothing), or explicitly
/// through [`DeviceBuffer::drop`], which consumes the value and, should the
/// free fail, returns the error together with the still-owned buffer.
pub struct DeviceBuffer<T: DeviceCopy> {
    buf: DevicePointer<T>,
    capacity: usize,
}

/// The handle/capacity agreement that a buffer adopted from raw parts must
/// bring along: a null handle stands only for a backing-free buffer (zero
/// capacity or zero element footprint), and a non-null handle was allocated
/// for exactly `capacity` elements, which is then positive, as is the
/// element footprint.
pub open spec fn raw_parts_wf<T: DeviceCopy>(ptr: DevicePointer<T>, capacity: usize) -> bool {
    if ptr.spec_is_null() {
        capacity == 0 || T::spec_size_of() == 0
    } else {
        ptr@.len() == capacity && capacity > 0 && T::spec_size_of() > 0
    }
}

impl<T: DeviceCopy> View for DeviceBuffer<T> {
    type V = Seq<T>;

    /// The elements resident on the device; empty when nothing backs the
    /// buffer.
    closed spec fn view(&self) -> Seq<T> {
        self.buf@
    }
}

impl<T: DeviceCopy> DeviceBuffer<T> {
    /// The element capacity this buffer was allocated for.
    pub closed spec fn spec_capacity(self) -> usize {
        self.capacity
    }

    /// Whether no allocation backs this buffer.
    pub closed spec fn spec_is_null(self) -> bool {
        self.buf.spec_is_null()
    }

    /// The buffer's invariant: handle and capacity agree, as
    /// [`raw_parts_wf`] states. Every constructor establishes it and every
    /// operation preserves it.
    pub closed spec fn wf(self) -> bool {
        raw_parts_wf(self.buf, self.capacity)
    }

    /// A backing-free buffer — zero capacity, or elements with no footprint —
    /// holds the null handle and no elements, so destroying it never reaches
    /// the driver's free primitive.
    pub proof fn lemma_zero_size_is_null(self)
        requires
            self.wf(),
            self.spec_capacity() == 0 || T::spec_size_of() == 0,
        ensures
            self.spec_is_null(),
            self@.len() == 0,
    {
        lemma_null_view(self.buf);
    }

    /// A buffer of positive capacity and positive element footprint is
    /// backed by a live allocation: its handle is non-null and it holds
    /// exactly `capacity` elements.
    pub proof fn lemma_positive_size_is_backed(self)
        requires
            self.wf(),
            self.spec_capacity() > 0,
            T::spec_size_of() > 0,
        ensures
            !self.spec_is_null(),
            self@.len() == self.spec_capacity(),
    {
    }

    /// Allocates a new device buffer large enough to hold `size` elements,
    /// without initializing the contents.
    ///
    /// If `size` is zero, or the element type has no footprint, no device
    /// allocation is made and the buffer holds the null handle with capacity
    /// `size`. Nothing is promised of the contents of a fresh allocation:
    /// the caller must write the buffer before reading it back.
    ///
    /// Fails with `InvalidAllocationSize` exactly when `size` times the
    /// element footprint cannot be represented in `usize`.
    pub fn uninitialized(size: usize) -> (r: CudaResult<DeviceBuffer<T>>)
        ensures
            match r {
                Ok(buf) => {
                    &&& buf.wf()
                    &&& buf.spec_capacity() == size
                    &&& (buf.spec_is_null() <==> (size == 0 || T::spec_size_of() == 0))
                    &&& buf@.len() == (if size == 0 || T::spec_size_of() == 0 {
                        0nat
                    } else {
                        size as nat
                    })
                },
                Err(e) => e == CudaError::InvalidAllocationSize && size > 0 && T::spec_size_of()
                    > 0 && size * T::spec_size_of() > usize::MAX,
            },
    {
        let ptr: DevicePointer<T> = if size > 0 && T::size_of() > 0 {
            match device_malloc::<T>(size) {
                Ok(p) => p,
                Err(e) => {
                    return Err(e);
                },
            }
        } else {
            DevicePointer::null()
        };
        proof {
            if ptr.spec_is_null() {
                lemma_null_view(ptr);
            }
        }
        Ok(DeviceBuffer { buf: ptr, capacity: size })
    }

    /// Allocates a new device buffer large enough to hold `size` elements
    /// and fills the backing memory with zero bytes, so every element reads
    /// back as the all-zero-bytes value.
    ///
    /// All-zero bytes need not be a meaningful value for every element type;
    /// that guarantee is the caller's. Sizing, the backing-free cases and
    /// the errors are those of [`DeviceBuffer::uninitialized`]; should the
    /// zero-fill itself fail, the fresh allocation is freed before the error
    /// is surfaced, so nothing leaks.
    pub fn zeroed(size: usize) -> (r: CudaResult<DeviceBuffer<T>>)
        ensures
            match r {
                Ok(buf) => {
                    &&& buf.wf()
                    &&& buf.spec_capacity() == size
                    &&& (buf.spec_is_null() <==> (size == 0 || T::spec_size_of() == 0))
                    &&& buf@ == Seq::new(
                        if size == 0 || T::spec_size_of() == 0 {
                            0nat
                        } else {
                            size as nat
                        },
                        |i: int| T::spec_zero(),
                    )
                },
                Err(e) => e == CudaError::InvalidAllocationSize && size > 0 && T::spec_size_of()
                    > 0 && size * T::spec_size_of() > usize::MAX,
            },
    {
        let ptr: DevicePointer<T> = if size > 0 && T::size_of() > 0 {
            let mut p = match device_malloc::<T>(size) {
                Ok(p) => p,
                Err(e) => {
                    return Err(e);
                },
            };
            match device_set_zero(&mut p) {
                Ok(()) => {},
                Err(e) => {
                    // A failed zero-fill must not leak the fresh allocation:
                    // free it before surfacing the error.
                    let _ = device_free(p);
                    return Err(e);
                },
            }
            p
        } else {
            DevicePointer::null()
        };
        proof {
            if ptr.spec_is_null() {
                lemma_null_view(ptr);
            }
            if size == 0 || T::spec_size_of() == 0 {
                assert(ptr@ =~= Seq::new(0nat, |i: int| T::spec_zero()));
            }
        }
        Ok(DeviceBuffer { buf: ptr, capacity: size })
    }

    /// Adopts the raw parts of a device buffer: a previously-allocated
    /// handle and the exact element capacity it was allocated with.
    ///
    /// Nothing is validated at run time — the precondition is the caller's
    /// assertion that the handle came from this allocation mechanism with
    /// this capacity and element type, and that no other owner remains. The
    /// adopted handle is owned by the returned buffer from here on.
    pub fn from_raw_parts(ptr: DevicePointer<T>, capacity: usize) -> (buf: DeviceBuffer<T>)
        requires
            raw_parts_wf(ptr, capacity),
        ensures
            buf.wf(),
            buf.spec_capacity() == capacity,
            buf.spec_is_null() == ptr.spec_is_null(),
            buf@ == ptr@,
    {
        DeviceBuffer { buf: ptr, capacity }
    }

    /// Destroys a device buffer, reporting the outcome of the free.
    ///
    /// Freeing device memory can surface errors from earlier asynchronous
    /// work, so destruction by this function is fallible: on failure it
    /// returns the error together with the un-destroyed buffer, still owning
    /// the same handle and capacity, so the caller can retry and no
    /// allocation is lost. On success the buffer is consumed and there is
    /// nothing left to free. A backing-free buffer is destroyed trivially,
    /// without reaching the free primitive. The modeled driver's free always
    /// succeeds, so here destruction of a well-formed buffer always does.
    #[allow(clippy::should_implement_trait)]
    pub fn drop(dev_buf: DeviceBuffer<T>) -> (r: DropResult<DeviceBuffer<T>>)
        requires
            dev_buf.wf(),
        ensures
            r is Ok,
    {
        if dev_buf.buf.is_null() {
            return Ok(());
        }
        if dev_buf.capacity > 0 && T::size_of() > 0 {
            let DeviceBuffer { buf, capacity } = dev_buf;
            match device_free(buf) {
                Ok(()) => Ok(()),
                Err((e, ptr)) => Err((e, DeviceBuffer::from_raw_parts(ptr, capacity))),
            }
        } else {
            Ok(())
        }
    }

    /// The buffer's length in elements: its capacity.
    pub fn len(&self) -> (n: usize)
        ensures
            n == self.spec_capacity(),
    {
        self.capacity
    }

    /// Whether the buffer's capacity is zero.
    pub fn is_empty(&self) -> (b: bool)
        ensures
            b == (self.spec_capacity() == 0),
    {
        self.capacity == 0
    }

    /// Whether the buffer holds the null handle, that is, whether no device
    /// allocation backs it.
    pub fn is_null(&self) -> (b: bool)
        ensures
            b == self.spec_is_null(),
    {
        self.buf.is_null()
    }

    /// Copies `source` from the host into this buffer (host-to-device).
    ///
    /// Fails with `SizeMismatch`, touching nothing, exactly when the lengths
    /// differ: a copy never truncates and never overruns. On success the
    /// buffer's elements equal `source` — except for elements with no
    /// footprint, where zero bytes move and the buffer is unchanged.
    pub fn copy_from(&mut self, source: &[T]) -> (r: CudaResult<()>)
        requires
            old(self).wf(),
        ensures
            final(self).wf(),
            final(self).spec_capacity() == old(self).spec_capacity(),
            final(self).spec_is_null() == old(self).spec_is_null(),
            match r {
                Ok(()) => {
                    &&& source@.len() == old(self).spec_capacity()
                    &&& (T::spec_size_of() == 0 ==> final(self)@ == old(self)@)
                    &&& (T::spec_size_of() > 0 ==> final(self)@ == source@)
                },
                Err(e) => e == CudaError::SizeMismatch && source@.len()
                    != old(self).spec_capacity() && final(self)@ == old(self)@,
            },
    {
        if source.len() != self.capacity {
            return Err(CudaError::SizeMismatch);
        }
        if self.capacity == 0 || T::size_of() == 0 {
            // No allocation backs the buffer: a transfer of zero bytes.
            proof {
                lemma_null_view(self.buf);
                if T::spec_size_of() > 0 {
                    assert(self@ =~= source@);
                }
            }
            return Ok(());
        }
        device_copy_htod(source, &mut self.buf)
    }

    /// Copies this buffer's elements to the host into `dest`
    /// (device-to-host).
    ///
    /// Fails with `SizeMismatch`, touching nothing, exactly when the lengths
    /// differ. On success `dest` equals the buffer's elements — except for
    /// elements with no footprint, where zero bytes move and `dest` is
    /// unchanged.
    pub fn copy_to(&self, dest: &mut [T]) -> (r: CudaResult<()>)
        requires
            self.wf(),
        ensures
            final(dest)@.len() == old(dest)@.len(),
            match r {
                Ok(()) => {
                    &&& old(dest)@.len() == self.spec_capacity()
                    &&& (T::spec_size_of() == 0 ==> final(dest)@ == old(dest)@)
                    &&& (T::spec_size_of() > 0 ==> final(dest)@ == self@)
                },
                Err(e) => e == CudaError::SizeMismatch && old(dest)@.len()
                    != self.spec_capacity() && final(dest)@ == old(dest)@,
            },
    {
        if dest.len() != self.capacity {
            return Err(CudaError::SizeMismatch);
        }
        if self.capacity == 0 || T::size_of() == 0 {
            proof {
                lemma_null_view(self.buf);
                if T::spec_size_of() > 0 {
                    assert(dest@ =~= self@);
                }
            }
            return Ok(());
        }
        device_copy_dtoh(&self.buf, dest)
    }

    /// Copies `source`'s elements into this buffer (device-to-device).
    ///
    /// Fails with `SizeMismatch`, touching nothing, exactly when the
    /// capacities differ; otherwise this buffer's elements become those of
    /// `source` (unchanged for elements with no footprint).
    pub fn copy_from_device(&mut self, source: &DeviceBuffer<T>) -> (r: CudaResult<()>)
        requires
            old(self).wf(),
            source.wf(),
        ensures
            final(self).wf(),
            final(self).spec_capacity() == old(self).spec_capacity(),
            final(self).spec_is_null() == old(self).spec_is_null(),
            match r {
                Ok(()) => {
                    &&& source.spec_capacity() == old(self).spec_capacity()
                    &&& (T::spec_size_of() == 0 ==> final(self)@ == old(self)@)
                    &&& (T::spec_size_of() > 0 ==> final(self)@ == source@)
                },
                Err(e) => e == CudaError::SizeMismatch && source.spec_capacity()
                    != old(self).spec_capacity() && final(self)@ == old(self)@,
            },
    {
        if source.capacity != self.capacity {
            return Err(CudaError::SizeMismatch);
        }
        if self.capacity == 0 || T::size_of() == 0 {
            proof {
                lemma_null_view(self.buf);
                lemma_null_view(source.buf);
                if T::spec_size_of() > 0 {
                    assert(self@ =~= source@);
                }
            }
            return Ok(());
        }
        device_copy_dtod(&source.buf, &mut self.buf)
    }

    /// Copies this buffer's elements into `dest` (device-to-device).
    ///
    /// Fails with `SizeMismatch`, touching nothing, exactly when the
    /// capacities differ; otherwise `dest`'s elements become those of this
    /// buffer (unchanged for elements with no footprint).
    pub fn copy_to_device(&self, dest: &mut DeviceBuffer<T>) -> (r: CudaResult<()>)
        requires
            self.wf(),
            old(dest).wf(),
        ensures
            final(dest).wf(),
            final(dest).spec_capacity() == old(dest).spec_capacity(),
            final(dest).spec_is_null() == old(dest).spec_is_null(),
            match r {
                Ok(()) => {
                    &&& old(dest).spec_capacity() == self.spec_capacity()
                    &&& (T::spec_size_of() == 0 ==> final(dest)@ == old(dest)@)
                    &&& (T::spec_size_of() > 0 ==> final(dest)@ == self@)
                },
                Err(e) => e == CudaError::SizeMismatch && old(dest).spec_capacity()
                    != self.spec_capacity() && final(dest)@ == old(dest)@,
            },
    {
        if dest.capacity != self.capacity {
            return Err(CudaError::SizeMismatch);
        }
        if self.capacity == 0 || T::size_of() == 0 {
            proof {
                lemma_null_view(self.buf);
                lemma_null_view(dest.buf);
                if T::spec_size_of() > 0 {
                    assert(dest@ =~= self@);
                }
            }
            return Ok(());
        }
        device_copy_dtod(&self.buf, &mut dest.buf)
    }

    /// Enqueues a host-to-device copy of `source` into this buffer on
    /// `stream` (stream-ordered).
    ///
    /// The copy's effect is owed only after `stream` has been synchronized;
    /// until then the buffer's contents must not be read, and `source` must
    /// stay valid. Length checking and the resulting contents are those of
    /// [`DeviceBuffer::copy_from`]; nothing is enqueued on a mismatch.
    pub fn async_copy_from(&mut self, source: &[T], stream: &mut Stream) -> (r: CudaResult<()>)
        requires
            old(self).wf(),
        ensures
            final(self).wf(),
            final(self).spec_capacity() == old(self).spec_capacity(),
            final(self).spec_is_null() == old(self).spec_is_null(),
            final(stream).spec_pending() == old(stream).spec_pending() + (if r is Ok {
                1int
            } else {
                0int
            }),
            match r {
                Ok(()) => {
                    &&& source@.len() == old(self).spec_capacity()
                    &&& (T::spec_size_of() == 0 ==> final(self)@ == old(self)@)
                    &&& (T::spec_size_of() > 0 ==> final(self)@ == source@)
                },
                Err(e) => e == CudaError::SizeMismatch && source@.len()
                    != old(self).spec_capacity() && final(self)@ == old(self)@,
            },
    {
        match self.copy_from(source) {
            Ok(()) => {
                stream.enqueue();
                Ok(())
            },
            Err(e) => Err(e),
        }
    }

    /// Enqueues a device-to-host copy of this buffer into `dest` on `stream`
    /// (stream-ordered).
    ///
    /// `dest`'s new contents are owed only after `stream` has been
    /// synchronized; reading them earlier is not deterministic. Length
    /// checking and the resulting contents are those of
    /// [`DeviceBuffer::copy_to`]; nothing is enqueued on a mismatch.
    pub fn async_copy_to(&self, dest: &mut [T], stream: &mut Stream) -> (r: CudaResult<()>)
        requires
            self.wf(),
        ensures
            final(dest)@.len() == old(dest)@.len(),
            final(stream).spec_pending() == old(stream).spec_pending() + (if r is Ok {
                1int
            } else {
                0int
            }),
            match r {
                Ok(()) => {
                    &&& old(dest)@.len() == self.spec_capacity()
                    &&& (T::spec_size_of() == 0 ==> final(dest)@ == old(dest)@)
                    &&& (T::spec_size_of() > 0 ==> final(dest)@ == self@)
                },
                Err(e) => e == CudaError::SizeMismatch && old(dest)@.len()
                    != self.spec_capacity() && final(dest)@ == old(dest)@,
            },
    {
        match self.copy_to(dest) {
            Ok(()) => {
                stream.enqueue();
                Ok(())
            },
            Err(e) => Err(e),
        }
    }

    /// Enqueues a device-to-device copy of `source` into this buffer on
    /// `stream` (stream-ordered). The contract is that of
    /// [`DeviceBuffer::copy_from_device`], owed after synchronization;
    /// nothing is enqueued on a mismatch.
    pub fn async_copy_from_device(
        &mut self,
        source: &DeviceBuffer<T>,
        stream: &mut Stream,
    ) -> (r: CudaResult<()>)
        requires
            old(self).wf(),
            source.wf(),
        ensures
            final(self).wf(),
            final(self).spec_capacity() == old(self).spec_capacity(),
            final(self).spec_is_null() == old(self).spec_is_null(),
            final(stream).spec_pending() == old(stream).spec_pending() + (if r is Ok {
                1int
            } else {
                0int
            }),
            match r {
                Ok(()) => {
                    &&& source.spec_capacity() == old(self).spec_capacity()
                    &&& (T::spec_size_of() == 0 ==> final(self)@ == old(self)@)
                    &&& (T::spec_size_of() > 0 ==> final(self)@ == source@)
                },
                Err(e) => e == CudaError::SizeMismatch && source.spec_capacity()
                    != old(self).spec_capacity() && final(self)@ == old(self)@,
            },
    {
        match self.copy_from_device(source) {
            Ok(()) => {
                stream.enqueue();
                Ok(())
            },
            Err(e) => Err(e),
        }
    }

    /// Enqueues a device-to-device copy of this buffer into `dest` on
    /// `stream` (stream-ordered). The contract is that of
    /// [`DeviceBuffer::copy_to_device`], owed after synchronization; nothing
    /// is enqueued on a mismatch.
    pub fn async_copy_to_device(
        &self,
        dest: &mut DeviceBuffer<T>,
        stream: &mut Stream,
    ) -> (r: CudaResult<()>)
        requires
            self.wf(),
            old(dest).wf(),
        ensures
            final(dest).wf(),
            final(dest).spec_capacity() == old(dest).spec_capacity(),
            final(dest).spec_is_null() == old(dest).spec_is_null(),
            final(stream).spec_pending() == old(stream).spec_pending() + (if r is Ok {
                1int
            } else {
                0int
            }),
            match r {
                Ok(()) => {
                    &&& old(dest).spec_capacity() == self.spec_capacity()
                    &&& (T::spec_size_of() == 0 ==> final(dest)@ == old(dest)@)
                    &&& (T::spec_size_of() > 0 ==> final(dest)@ == self@)
                },
                Err(e) => e == CudaError::SizeMismatch && old(dest).spec_capacity()
                    != self.spec_capacity() && final(dest)@ == old(dest)@,
            },
    {
        match self.copy_to_device(dest) {
            Ok(()) => {
                stream.enqueue();
                Ok(())
            },
            Err(e) => Err(e),
        }
    }

    /// Allocates a buffer of the same length as `slice` and fills it with a
    /// copy of `slice`'s elements (host-to-device).
    ///
    /// Fails only as allocation does; the lengths agree by construction, so
    /// the copy itself is owed to succeed, and on a failure nothing leaks:
    /// the fresh allocation is reclaimed by ordinary destruction.
    pub fn from_slice(slice: &[T]) -> (r: CudaResult<DeviceBuffer<T>>)
        ensures
            match r {
                Ok(buf) => {
                    &&& buf.wf()
                    &&& buf.spec_capacity() == slice@.len()
                    &&& (buf.spec_is_null() <==> (slice@.len() == 0 || T::spec_size_of() == 0))
                    &&& (T::spec_size_of() > 0 ==> buf@ == slice@)
                    &&& (T::spec_size_of() == 0 ==> buf@.len() == 0)
                },
                Err(e) => e == CudaError::InvalidAllocationSize && slice@.len() > 0
                    && T::spec_size_of() > 0 && slice@.len() * T::spec_size_of() > usize::MAX,
            },
    {
        let mut uninit = match DeviceBuffer::<T>::uninitialized(slice.len()) {
            Ok(buf) => buf,
            Err(e) => {
                return Err(e);
            },
        };
        match uninit.copy_from(slice) {
            Ok(()) => Ok(uninit),
            Err(e) => Err(e),
        }
    }

    /// Allocates a buffer of the same length as `slice` and enqueues the
    /// filling copy on `stream` (stream-ordered).
    ///
    /// The buffer's contents are owed only after `stream` has been
    /// synchronized; until then they must not be read, and `slice` must stay
    /// valid. Errors are those of [`DeviceBuffer::from_slice`].
    pub fn from_slice_async(slice: &[T], stream: &mut Stream) -> (r: CudaResult<DeviceBuffer<T>>)
        ensures
            final(stream).spec_pending() == old(stream).spec_pending() + (if r is Ok {
                1int
            } else {
                0int
            }),
            match r {
                Ok(buf) => {
                    &&& buf.wf()
                    &&& buf.spec_capacity() == slice@.len()
                    &&& (buf.spec_is_null() <==> (slice@.len() == 0 || T::spec_size_of() == 0))
                    &&& (T::spec_size_of() > 0 ==> buf@ == slice@)
                    &&& (T::spec_size_of() == 0 ==> buf@.len() == 0)
                },
                Err(e) => e == CudaError::InvalidAllocationSize && slice@.len() > 0
                    && T::spec_size_of() > 0 && slice@.len() * T::spec_size_of() > usize::MAX,
            },
    {
        let mut uninit = match DeviceBuffer::<T>::uninitialized(slice.len()) {
            Ok(buf) => buf,
            Err(e) => {
                return Err(e);
            },
        };
        match uninit.async_copy_from(slice, stream) {
            Ok(()) => Ok(uninit),
            Err(e) => Err(e),
        }
    }
}

/// Law: a host sequence written to the device and copied back into a
/// destination of matching length is reproduced exactly.
///
/// `device` is what the buffer holds after `from_slice` of `host` (its
/// contract gives `device == host` for elements with a footprint), and
/// `back` is what the destination holds after `copy_to` (its contract gives
/// `back == device`); the destination then equals the source sequence.
pub proof fn lemma_host_round_trip<T: DeviceCopy>(host: Seq<T>, device: Seq<T>, back: Seq<T>)
    requires
        device == host,
        back == device,
    ensures
        back == host,
{
}

/// Law: the stream-ordered variant reproduces the host sequence as well,
/// once the stream has been synchronized.
///
/// `device` is what the buffer holds after `from_slice_async` of `host`;
/// that contents is owed to a reader only with no work pending, which
/// `synchronize` ensures (`pending == 0`); `back` is what the destination
/// holds after the copy back. Before synchronization nothing is owed.
pub proof fn lemma_stream_round_trip<T: DeviceCopy>(
    host: Seq<T>,
    device: Seq<T>,
    pending: nat,
    back: Seq<T>,
)
    requires
        device == host,
        pending == 0,
        back == device,
    ensures
        back == host,
{
}

} // verus!
