use moq_transport_quiche::framing::FrameBuffer;

#[test]
fn frame_buffer_starts_empty() {
    let buf = FrameBuffer::new();
    assert_eq!(buf.len(), 0);
    assert!(buf.pending().is_empty());
}

#[test]
fn frame_buffer_appends_in_order() {
    let mut buf = FrameBuffer::new();
    buf.append(&[1, 2, 3]);
    buf.append(&[]);
    buf.append(&[4, 5]);
    assert_eq!(buf.pending(), &[1, 2, 3, 4, 5]);
    assert_eq!(buf.len(), 5);
}

#[test]
fn frame_buffer_consumes_prefix() {
    let mut buf = FrameBuffer::new();
    buf.append(&[1, 2, 3, 4, 5]);
    buf.consume(2);
    assert_eq!(buf.pending(), &[3, 4, 5]);
    buf.consume(0);
    assert_eq!(buf.pending(), &[3, 4, 5]);
    buf.consume(3);
    assert!(buf.pending().is_empty());
}

#[test]
fn frame_buffer_clear_drops_everything() {
    let mut buf = FrameBuffer::new();
    buf.append(&[9, 9, 9]);
    buf.clear();
    assert_eq!(buf.len(), 0);
}

#[test]
fn framing_keeps_every_byte_once() {
    // What a decoded value takes, followed by what stays, is what was buffered.
    let mut buf = FrameBuffer::new();
    buf.append(&[10, 11]);
    buf.append(&[12, 13, 14]);
    let all = buf.pending().to_vec();
    let taken = all[..3].to_vec();
    buf.consume(3);
    let mut joined = taken.clone();
    joined.extend_from_slice(buf.pending());
    assert_eq!(joined, all);
}
