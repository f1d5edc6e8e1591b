use boomnet::buffer::ReadBuffer;
use boomnet::error::ProtocolError;

#[test]
fn new_buffer_is_empty() {
    let buffer = ReadBuffer::new(16);
    assert_eq!(buffer.capacity(), 16);
    assert_eq!(buffer.available(), 0);
    assert_eq!(buffer.remaining(), 16);
    assert_eq!(buffer.view(), b"");
    assert_eq!(buffer.view_last(0), b"");
}

#[test]
fn append_keeps_arrival_order() {
    let mut buffer = ReadBuffer::new(16);
    assert_eq!(buffer.append(b"abc"), Ok(()));
    assert_eq!(buffer.append(b""), Ok(()));
    assert_eq!(buffer.append(b"defg"), Ok(()));
    assert_eq!(buffer.available(), 7);
    assert_eq!(buffer.remaining(), 9);
    assert_eq!(buffer.view(), b"abcdefg");
    assert_eq!(buffer.view_last(4), b"defg");
    assert_eq!(buffer.view_last(7), b"abcdefg");
}

#[test]
fn consumed_bytes_are_never_seen_again() {
    let mut buffer = ReadBuffer::new(8);
    assert_eq!(buffer.append(b"abcdef"), Ok(()));
    buffer.consume(2);
    assert_eq!(buffer.view(), b"cdef");
    assert_eq!(buffer.available(), 4);
    assert_eq!(buffer.append(b"gh"), Ok(()));
    assert_eq!(buffer.view(), b"cdefgh");
    buffer.consume(6);
    assert_eq!(buffer.available(), 0);
    assert_eq!(buffer.view(), b"");
    buffer.consume(0);
    assert_eq!(buffer.append(b"12345678"), Ok(()));
    assert_eq!(buffer.view(), b"12345678");
}

#[test]
fn consuming_makes_room() {
    let mut buffer = ReadBuffer::new(4);
    assert_eq!(buffer.append(b"abcd"), Ok(()));
    assert_eq!(buffer.remaining(), 0);
    assert_eq!(buffer.append(b"e"), Err(ProtocolError::CapacityExceeded));
    buffer.consume(3);
    assert_eq!(buffer.remaining(), 3);
    assert_eq!(buffer.append(b"efg"), Ok(()));
    assert_eq!(buffer.view(), b"defg");
}

#[test]
fn overflow_is_an_error_and_changes_nothing() {
    let mut buffer = ReadBuffer::new(4);
    assert_eq!(buffer.append(b"abc"), Ok(()));
    assert_eq!(buffer.append(b"de"), Err(ProtocolError::CapacityExceeded));
    assert_eq!(buffer.view(), b"abc");
    assert_eq!(buffer.append(b"d"), Ok(()));
    assert_eq!(buffer.view(), b"abcd");
    assert_eq!(ProtocolError::CapacityExceeded.description(), "read buffer capacity exceeded");
}

#[test]
fn zero_capacity_takes_only_nothing() {
    let mut buffer = ReadBuffer::new(0);
    assert_eq!(buffer.append(b""), Ok(()));
    assert_eq!(buffer.append(b"x"), Err(ProtocolError::CapacityExceeded));
    assert_eq!(buffer.available(), 0);
}
