use tls_tunnel::io_util::{advance_slices, VecBuffer};
use tls_tunnel::limited_reader::{LimitedReader, DEFAULT_MAX_HEADER_SIZE, DEFAULT_MAX_REQUEST_SIZE};

struct DummyReader;

#[test]
fn test_vec_buffer_basic() {
    let mut buf = VecBuffer::with_capacity(16);
    assert_eq!(buf.len(), 0);
    assert!(buf.is_empty());
    assert!(buf.capacity() >= 16);

    buf.push_slice(b"Hello");
    assert_eq!(buf.len(), 5);
    assert_eq!(buf.as_slice(), b"Hello");

    buf.push_byte(b'!');
    assert_eq!(buf.len(), 6);
    assert_eq!(buf.as_slice(), b"Hello!");
}

#[test]
fn test_vec_buffer_clear() {
    let mut buf = VecBuffer::with_capacity(16);
    buf.push_slice(b"Test");
    assert_eq!(buf.len(), 4);

    let old_capacity = buf.capacity();
    buf.clear();
    assert_eq!(buf.len(), 0);
    assert!(buf.is_empty());
    assert_eq!(buf.capacity(), old_capacity);
}

#[test]
fn test_vec_buffer_reserve() {
    let mut buf = VecBuffer::with_capacity(8);
    buf.push_slice(b"test");
    let _old_capacity = buf.capacity();

    buf.reserve(100);
    assert!(buf.capacity() >= buf.len() + 100);
}

#[test]
fn test_vec_buffer_into_vec() {
    let mut buf = VecBuffer::with_capacity(16);
    buf.push_slice(b"Hello");

    let vec = buf.into_vec();
    assert_eq!(&vec, b"Hello");
}

#[test]
fn test_vec_buffer_from_vec() {
    let vec = vec![1, 2, 3, 4, 5];
    let buf = VecBuffer::from(vec);
    assert_eq!(buf.as_slice(), &[1, 2, 3, 4, 5]);
}

#[test]
fn test_vec_buffer_default() {
    let buf = VecBuffer::default();
    assert!(buf.capacity() >= 4096);
    assert!(buf.is_empty());
}

#[test]
fn vec_buffer_mut_slice_changes_contents() {
    let mut buf = VecBuffer::from(vec![1u8, 2, 3]);
    buf.as_mut_slice()[1] = 9;
    assert_eq!(buf.as_slice(), &[1, 9, 3]);
}

#[test]
fn vec_buffer_push_empty_slice_keeps_contents() {
    let mut buf = VecBuffer::from(vec![7u8]);
    buf.push_slice(b"");
    assert_eq!(buf.as_slice(), &[7]);
}

#[test]
fn advance_slices_skips_written_bytes() {
    // Three buffers of 7, 5 and 1 bytes.
    let a = [0u8; 7];
    let b = [1u8; 5];
    let c = [2u8; 1];
    let bufs: [&[u8]; 3] = [&a, &b, &c];
    assert_eq!(advance_slices(&bufs, 0), (0, 0));
    assert_eq!(advance_slices(&bufs, 3), (0, 3));
    assert_eq!(advance_slices(&bufs, 7), (1, 0));
    assert_eq!(advance_slices(&bufs, 9), (1, 2));
    assert_eq!(advance_slices(&bufs, 12), (2, 0));
    assert_eq!(advance_slices(&bufs, 13), (3, 0));
    assert_eq!(advance_slices(&bufs, 100), (3, 0));
}

#[test]
fn advance_slices_resumes_inside_a_buffer() {
    let a = [1u8, 2];
    let b = [3u8, 4, 5];
    let bufs: [&[u8]; 2] = [&a, &b];
    let (first, offset) = advance_slices(&bufs, 1);
    assert_eq!((first, offset), (0, 1));
    let mut rest: Vec<u8> = bufs[first][offset..].to_vec();
    for buf in &bufs[first + 1..] {
        rest.extend_from_slice(buf);
    }
    assert_eq!(rest, vec![2, 3, 4, 5]);
}

#[test]
fn advance_slices_passes_over_empty_buffers() {
    let a = [1u8, 2];
    let e: [u8; 0] = [];
    let b = [3u8];
    let bufs: [&[u8]; 3] = [&a, &e, &b];
    assert_eq!(advance_slices(&bufs, 2), (2, 0));
}

#[test]
fn advance_slices_on_empty_list() {
    assert_eq!(advance_slices(&[], 5), (0, 0));
}

#[test]
fn test_limited_reader_creation() {
    let reader = DummyReader;
    let limited = LimitedReader::new(reader, 1024);
    assert_eq!(limited.limit(), 1024);
    assert_eq!(limited.remaining(), 1024);
    assert_eq!(limited.read_count(), 0);
}

#[test]
fn test_limited_reader_read_count() {
    let reader = DummyReader;
    let mut limited = LimitedReader::new(reader, 100);

    assert_eq!(limited.read_count(), 0);
    assert_eq!(limited.limit(), 100);
    assert_eq!(limited.remaining(), 100);

    // A read of 10 bytes leaves 90.
    limited.record_read(10);
    assert_eq!(limited.remaining(), 90);
    assert_eq!(limited.read_count(), 10);
}

#[test]
fn test_limited_reader_reset() {
    let reader = DummyReader;
    let mut limited = LimitedReader::new(reader, 100);

    limited.record_read(50);
    assert_eq!(limited.remaining(), 50);

    limited.reset_limit(200);
    assert_eq!(limited.remaining(), 200);
    assert_eq!(limited.limit(), 200);
}

#[test]
fn test_limited_reader_constants() {
    assert_eq!(DEFAULT_MAX_REQUEST_SIZE, 1024 * 1024);
    assert_eq!(DEFAULT_MAX_HEADER_SIZE, 8 * 1024);
}

#[test]
fn test_limited_reader_with_limits() {
    let reader1 = DummyReader;
    let limited1 = LimitedReader::with_default_limit(reader1);
    assert_eq!(limited1.limit(), DEFAULT_MAX_REQUEST_SIZE);

    let reader2 = DummyReader;
    let limited2 = LimitedReader::with_header_limit(reader2);
    assert_eq!(limited2.limit(), DEFAULT_MAX_HEADER_SIZE);
}

#[test]
fn limited_reader_allowance_and_exhaustion() {
    let mut limited = LimitedReader::new(DummyReader, 10);
    assert_eq!(limited.read_allowance(4), Some(4));
    assert_eq!(limited.read_allowance(64), Some(10));
    limited.record_read(15);
    assert_eq!(limited.remaining(), 0);
    assert_eq!(limited.read_allowance(64), None);
    assert_eq!(
        limited.limit_exceeded_message(),
        "Request size limit exceeded: 10 bytes (limit: 10 bytes)"
    );
}

#[test]
fn limited_reader_gives_inner_back() {
    let mut limited = LimitedReader::new(vec![1u8, 2], 5);
    limited.get_mut().push(3);
    assert_eq!(limited.get_ref(), &vec![1u8, 2, 3]);
    assert_eq!(limited.into_inner(), vec![1u8, 2, 3]);
}
