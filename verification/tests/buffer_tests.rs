use childproc::buffer::StderrBuffer;

#[test]
fn new_buffer_is_empty_and_read_returns_nothing() {
    let mut buffer = StderrBuffer::new();
    assert_eq!(buffer.len(), 0);
    assert_eq!(buffer.read(1024), Vec::<u8>::new());
}

#[test]
fn append_then_read_everything_back() {
    let mut buffer = StderrBuffer::new();
    buffer.append(b"boom");
    assert_eq!(buffer.len(), 4);
    assert_eq!(buffer.read(1024), b"boom".to_vec());
    assert_eq!(buffer.len(), 0);
}

#[test]
fn short_reads_drain_in_fifo_order() {
    let mut buffer = StderrBuffer::new();
    buffer.append(b"error message\n");
    assert_eq!(buffer.len(), 14);
    assert_eq!(buffer.read(5), b"error".to_vec());
    assert_eq!(buffer.len(), 9);
    assert_eq!(buffer.read(5), b" mess".to_vec());
    assert_eq!(buffer.len(), 4);
    assert_eq!(buffer.read(5), b"age\n".to_vec());
    assert_eq!(buffer.len(), 0);
}

#[test]
fn appends_accumulate_in_order() {
    let mut buffer = StderrBuffer::new();
    buffer.append(b"first ");
    buffer.append(b"second");
    assert_eq!(buffer.read(100), b"first second".to_vec());
}

#[test]
fn interleaved_appends_and_reads_lose_nothing() {
    let mut buffer = StderrBuffer::new();
    buffer.append(b"abc");
    assert_eq!(buffer.read(2), b"ab".to_vec());
    buffer.append(b"def");
    assert_eq!(buffer.read(2), b"cd".to_vec());
    assert_eq!(buffer.read(10), b"ef".to_vec());
}
