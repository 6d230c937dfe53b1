use tag_relay::logbuf::{format_log_line, LogBuffer};

#[test]
fn overflow_keeps_bytes_up_to_capacity_in_order() {
    let mut b = LogBuffer::new(4);
    let n = b.write(&[10, 20, 30, 40, 50, 60]);
    // Only the bytes beyond the capacity are lost.
    assert_eq!(n, 4);
    assert_eq!(b.len(), 4);
    // Subsequent reads deliver the kept bytes in their original order.
    assert_eq!(b.read_chunk(2), vec![10, 20]);
    assert_eq!(b.read_chunk(10), vec![30, 40]);
    assert_eq!(b.read_chunk(10), Vec::<u8>::new());
}

#[test]
fn write_within_capacity_keeps_everything() {
    let mut b = LogBuffer::new(8);
    assert_eq!(b.write(&[1, 2, 3]), 3);
    assert_eq!(b.write(&[4, 5]), 2);
    assert_eq!(b.read_chunk(100), vec![1, 2, 3, 4, 5]);
    assert_eq!(b.len(), 0);
}

#[test]
fn full_buffer_drops_whole_write() {
    let mut b = LogBuffer::new(3);
    assert_eq!(b.write(&[1, 2, 3]), 3);
    assert_eq!(b.write(&[4, 5]), 0);
    assert_eq!(b.read_chunk(10), vec![1, 2, 3]);
}

#[test]
fn chunk_size_limits_each_read() {
    let mut b = LogBuffer::new(16);
    b.write(&[9, 8, 7, 6, 5]);
    assert_eq!(b.read_chunk(3), vec![9, 8, 7]);
    assert_eq!(b.len(), 2);
    b.write(&[4]);
    assert_eq!(b.read_chunk(3), vec![6, 5, 4]);
}

#[test]
fn log_line_has_reference_shape() {
    let line = format_log_line("INFO", "reader.rs", 42, "Got card ID: 1-000000000042");
    assert_eq!(
        line,
        b"[INFO] (reader.rs:42): Got card ID: 1-000000000042\r\n".to_vec()
    );
}

#[test]
fn log_lines_flow_through_buffer_in_order() {
    let mut b = LogBuffer::new(1024);
    let first = format_log_line("ERROR", "net.rs", 7, "failed to connect");
    let second = format_log_line("INFO", "net.rs", 9, "connected!");
    b.write(&first);
    b.write(&second);
    let mut expected = first.clone();
    expected.extend_from_slice(&second);
    assert_eq!(b.read_chunk(1024), expected);
}
