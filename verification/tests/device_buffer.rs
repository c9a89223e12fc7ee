use cust::CudaError;
use cust::DeviceBuffer;
use cust::Stream;

#[test]
fn test_from_slice_drop() {
    let buf = DeviceBuffer::from_slice(&[0u64, 1, 2, 3, 4, 5]).unwrap();
    drop(buf);
}

#[test]
fn test_copy_to_from_device() {
    let start = [0u64, 1, 2, 3, 4, 5];
    let mut end = [0u64, 0, 0, 0, 0, 0];
    let buf = DeviceBuffer::from_slice(&start).unwrap();
    buf.copy_to(&mut end).unwrap();
    assert_eq!(start, end);
}

#[test]
fn test_async_copy_to_from_device() {
    let mut stream = Stream::new();
    let start = [0u64, 1, 2, 3, 4, 5];
    let mut end = [0u64, 0, 0, 0, 0, 0];
    let buf = DeviceBuffer::from_slice_async(&start, &mut stream).unwrap();
    buf.async_copy_to(&mut end, &mut stream).unwrap();
    stream.synchronize().unwrap();
    assert_eq!(start, end);
}

#[test]
fn test_copy_to_d2h_wrong_size() {
    let buf = DeviceBuffer::from_slice(&[0u64, 1, 2, 3, 4, 5]).unwrap();
    let mut end = [0u64, 1, 2, 3, 4];
    assert_eq!(buf.copy_to(&mut end), Err(CudaError::SizeMismatch));
}

#[test]
fn test_async_copy_to_d2h_wrong_size() {
    let mut stream = Stream::new();
    let buf = DeviceBuffer::from_slice_async(&[0u64, 1, 2, 3, 4, 5], &mut stream).unwrap();
    let mut end = [0u64, 1, 2, 3, 4];
    assert_eq!(
        buf.async_copy_to(&mut end, &mut stream),
        Err(CudaError::SizeMismatch)
    );
}

#[test]
fn test_copy_from_h2d_wrong_size() {
    let start = [0u64, 1, 2, 3, 4];
    let mut buf = DeviceBuffer::from_slice(&[0u64, 1, 2, 3, 4, 5]).unwrap();
    assert_eq!(buf.copy_from(&start), Err(CudaError::SizeMismatch));
}

#[test]
fn test_async_copy_from_h2d_wrong_size() {
    let mut stream = Stream::new();
    let start = [0u64, 1, 2, 3, 4];
    let mut buf = DeviceBuffer::from_slice_async(&[0u64, 1, 2, 3, 4, 5], &mut stream).unwrap();
    assert_eq!(
        buf.async_copy_from(&start, &mut stream),
        Err(CudaError::SizeMismatch)
    );
}

#[test]
fn test_copy_to_d2d_wrong_size() {
    let buf = DeviceBuffer::from_slice(&[0u64, 1, 2, 3, 4, 5]).unwrap();
    let mut end = DeviceBuffer::from_slice(&[0u64, 1, 2, 3, 4]).unwrap();
    assert_eq!(buf.copy_to_device(&mut end), Err(CudaError::SizeMismatch));
}

#[test]
fn test_async_copy_to_d2d_wrong_size() {
    let mut stream = Stream::new();
    let buf = DeviceBuffer::from_slice_async(&[0u64, 1, 2, 3, 4, 5], &mut stream).unwrap();
    let mut end = DeviceBuffer::from_slice_async(&[0u64, 1, 2, 3, 4], &mut stream).unwrap();
    assert_eq!(
        buf.async_copy_to_device(&mut end, &mut stream),
        Err(CudaError::SizeMismatch)
    );
}

#[test]
fn test_copy_from_d2d_wrong_size() {
    let mut buf = DeviceBuffer::from_slice(&[0u64, 1, 2, 3, 4, 5]).unwrap();
    let start = DeviceBuffer::from_slice(&[0u64, 1, 2, 3, 4]).unwrap();
    assert_eq!(buf.copy_from_device(&start), Err(CudaError::SizeMismatch));
}

#[test]
fn test_async_copy_from_d2d_wrong_size() {
    let mut stream = Stream::new();
    let mut buf = DeviceBuffer::from_slice_async(&[0u64, 1, 2, 3, 4, 5], &mut stream).unwrap();
    let start = DeviceBuffer::from_slice_async(&[0u64, 1, 2, 3, 4], &mut stream).unwrap();
    assert_eq!(
        buf.async_copy_from_device(&start, &mut stream),
        Err(CudaError::SizeMismatch)
    );
}
