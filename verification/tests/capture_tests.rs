use watchdog::capture::CaptureBuffer;

#[test]
fn absorb_keeps_whole_chunk_under_cap() {
    let mut buf = CaptureBuffer::new(100);
    let keep = buf.absorb(b"hello");
    assert!(keep);
    assert!(!buf.overflowed);
    assert_eq!(buf.data, b"hello".to_vec());
    assert_eq!(buf.len(), 5);
}

#[test]
fn absorb_filling_to_cap_exactly_is_no_overflow() {
    let mut buf = CaptureBuffer::new(5);
    let keep = buf.absorb(b"hello");
    assert!(keep);
    assert!(!buf.overflowed);
    assert_eq!(buf.data, b"hello".to_vec());
}

#[test]
fn absorb_past_cap_cuts_mid_chunk_to_exactly_the_cap() {
    let mut buf = CaptureBuffer::new(10);
    assert!(buf.absorb(b"yyyyyyy"));
    let keep = buf.absorb(b"yyyyyyy");
    assert!(!keep);
    assert!(buf.overflowed);
    assert_eq!(buf.len(), 10);
    assert_eq!(buf.data, b"yyyyyyyyyy".to_vec());
}

#[test]
fn infinite_output_stream_capped_at_ten_bytes() {
    // A stream that never ends, read in small chunks, leaves exactly the
    // cap behind and tells the reader to stop.
    let mut buf = CaptureBuffer::new(10);
    let mut stopped = false;
    for _ in 0..1000 {
        if !buf.absorb(b"y\n") {
            stopped = true;
            break;
        }
    }
    assert!(stopped);
    assert!(buf.overflowed);
    assert_eq!(buf.len(), 10);
    assert_eq!(buf.text().as_bytes(), b"y\ny\ny\ny\ny\n");
}

#[test]
fn zero_cap_overflows_on_first_byte() {
    let mut buf = CaptureBuffer::new(0);
    let keep = buf.absorb(b"a");
    assert!(!keep);
    assert!(buf.overflowed);
    assert_eq!(buf.len(), 0);
}

#[test]
fn overflowed_buffer_absorbs_nothing_more() {
    let mut buf = CaptureBuffer::new(3);
    assert!(!buf.absorb(b"abcdef"));
    assert_eq!(buf.data, b"abc".to_vec());
    let keep = buf.absorb(b"xyz");
    assert!(!keep);
    assert_eq!(buf.data, b"abc".to_vec());
}

#[test]
fn text_keeps_valid_output() {
    let mut buf = CaptureBuffer::new(100);
    buf.absorb(b"hello\n");
    assert_eq!(buf.text(), "hello\n");
}

#[test]
fn text_replaces_invalid_bytes() {
    let mut buf = CaptureBuffer::new(100);
    buf.absorb(&[0xffu8]);
    assert_eq!(buf.text(), "\u{fffd}");
}
