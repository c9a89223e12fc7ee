use cust::CudaError;
use cust::DeviceBuffer;
use cust::DevicePointer;
use cust::Stream;
use cust::ZeroSizedType;

#[test]
fn uninitialized_positive_size_is_backed() {
    let buf = DeviceBuffer::<u64>::uninitialized(4).unwrap();
    assert_eq!(buf.len(), 4);
    assert!(!buf.is_null());
}

#[test]
fn uninitialized_zero_size_is_null() {
    let buf = DeviceBuffer::<u64>::uninitialized(0).unwrap();
    assert_eq!(buf.len(), 0);
    assert!(buf.is_null());
    assert!(buf.is_empty());
    assert!(DeviceBuffer::drop(buf).is_ok());
}

#[test]
fn zero_sized_element_is_null() {
    let buf = DeviceBuffer::<ZeroSizedType>::uninitialized(5).unwrap();
    assert_eq!(buf.len(), 5);
    assert!(buf.is_null());
    assert!(DeviceBuffer::drop(buf).is_ok());
}

#[test]
fn zero_sized_element_copies_are_length_checked() {
    let buf = DeviceBuffer::<ZeroSizedType>::uninitialized(5).unwrap();
    let mut right = [ZeroSizedType; 5];
    assert_eq!(buf.copy_to(&mut right), Ok(()));
    let mut wrong = [ZeroSizedType; 4];
    assert_eq!(buf.copy_to(&mut wrong), Err(CudaError::SizeMismatch));
}

#[test]
fn oversized_allocation_is_refused() {
    assert!(matches!(
        DeviceBuffer::<u64>::uninitialized(usize::MAX),
        Err(CudaError::InvalidAllocationSize)
    ));
    assert!(matches!(
        DeviceBuffer::<u64>::zeroed(usize::MAX / 2),
        Err(CudaError::InvalidAllocationSize)
    ));
}

#[test]
fn write_then_read_back_capacity_six() {
    let mut buf = DeviceBuffer::<u64>::uninitialized(6).unwrap();
    buf.copy_from(&[0u64, 1, 2, 3, 4, 5]).unwrap();
    let mut end = [9u64; 6];
    buf.copy_to(&mut end).unwrap();
    assert_eq!(end, [0u64, 1, 2, 3, 4, 5]);
}

#[test]
fn mismatched_download_leaves_destination_untouched() {
    let buf = DeviceBuffer::from_slice(&[0u64, 1, 2, 3, 4, 5]).unwrap();
    let mut end = [7u64, 7, 7, 7, 7];
    assert_eq!(buf.copy_to(&mut end), Err(CudaError::SizeMismatch));
    assert_eq!(end, [7u64, 7, 7, 7, 7]);
}

#[test]
fn async_round_trip_after_synchronize() {
    let mut stream = Stream::new();
    let start = [0u64, 1, 2, 3, 4];
    let buf = DeviceBuffer::from_slice_async(&start, &mut stream).unwrap();
    stream.synchronize().unwrap();
    let mut end = [0u64; 5];
    buf.async_copy_to(&mut end, &mut stream).unwrap();
    stream.synchronize().unwrap();
    assert_eq!(start, end);
}

#[test]
fn zeroed_reads_back_as_zero() {
    let buf = DeviceBuffer::<u64>::zeroed(5).unwrap();
    let mut host_values = [1u64, 2, 3, 4, 5];
    buf.copy_to(&mut host_values).unwrap();
    assert_eq!([0u64, 0, 0, 0, 0], host_values);
}

#[test]
fn explicit_drop_succeeds_on_healthy_buffer() {
    let buf = DeviceBuffer::from_slice(&[10u64, 20, 30]).unwrap();
    assert!(DeviceBuffer::drop(buf).is_ok());
}

#[test]
fn device_to_device_round_trip() {
    let source = DeviceBuffer::from_slice(&[3u64, 1, 4, 1, 5]).unwrap();
    let mut middle = DeviceBuffer::<u64>::zeroed(5).unwrap();
    source.copy_to_device(&mut middle).unwrap();
    let mut back = DeviceBuffer::<u64>::zeroed(5).unwrap();
    back.copy_from_device(&middle).unwrap();
    let mut end = [0u64; 5];
    back.copy_to(&mut end).unwrap();
    assert_eq!(end, [3u64, 1, 4, 1, 5]);
}

#[test]
fn async_device_to_device_round_trip() {
    let mut stream = Stream::new();
    let source = DeviceBuffer::from_slice_async(&[8u64, 6, 7], &mut stream).unwrap();
    let mut middle = DeviceBuffer::<u64>::zeroed(3).unwrap();
    source.async_copy_to_device(&mut middle, &mut stream).unwrap();
    let mut back = DeviceBuffer::<u64>::zeroed(3).unwrap();
    back.async_copy_from_device(&middle, &mut stream).unwrap();
    stream.synchronize().unwrap();
    let mut end = [0u64; 3];
    back.copy_to(&mut end).unwrap();
    assert_eq!(end, [8u64, 6, 7]);
}

#[test]
fn from_raw_parts_adopts_null_handle() {
    let buf = DeviceBuffer::<u64>::from_raw_parts(DevicePointer::null(), 0);
    assert!(buf.is_null());
    assert_eq!(buf.len(), 0);
    assert!(DeviceBuffer::drop(buf).is_ok());
}

#[test]
fn from_raw_parts_adopts_zero_sized_capacity() {
    let buf = DeviceBuffer::<ZeroSizedType>::from_raw_parts(DevicePointer::null(), 7);
    assert!(buf.is_null());
    assert_eq!(buf.len(), 7);
    assert!(DeviceBuffer::drop(buf).is_ok());
}

#[test]
fn synchronize_on_idle_stream_succeeds() {
    let mut stream = Stream::new();
    assert_eq!(stream.synchronize(), Ok(()));
}

#[test]
fn mismatched_upload_leaves_device_untouched() {
    let mut buf = DeviceBuffer::from_slice(&[1u64, 2, 3]).unwrap();
    assert_eq!(buf.copy_from(&[9u64, 9]), Err(CudaError::SizeMismatch));
    let mut end = [0u64; 3];
    buf.copy_to(&mut end).unwrap();
    assert_eq!(end, [1u64, 2, 3]);
}

#[test]
fn from_slice_of_empty_slice_is_null() {
    let empty: [u64; 0] = [];
    let buf = DeviceBuffer::from_slice(&empty).unwrap();
    assert!(buf.is_null());
    assert_eq!(buf.len(), 0);
}
