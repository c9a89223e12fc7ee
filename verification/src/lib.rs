//! Exclusively-owned, fixed-capacity buffers of accelerator-device memory.
//!
//! The crate models a co-processor whose memory lives outside the host's
//! address space and is reached through driver primitives: allocate a given
//! number of elements, free an allocation, zero it, and transfer elements
//! between host and device. [`DeviceBuffer`] wraps exactly one such
//! allocation, owns it exclusively, and releases it exactly once: implicitly
//! when the value goes out of scope, or explicitly through the fallible
//! [`DeviceBuffer::drop`], which hands ownership back on failure instead of
//! leaking the allocation.

pub mod device_buffer;
pub mod device_copy;
pub mod driver;
pub mod error;
pub mod stream;

pub use device_buffer::DeviceBuffer;
pub use device_copy::DeviceCopy;
pub use device_copy::ZeroSizedType;
pub use driver::DevicePointer;
pub use error::CudaError;
pub use error::CudaResult;
pub use error::DropResult;
pub use stream::Stream;
