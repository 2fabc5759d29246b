use synth_fm_rs::lock_free::TripleBuffer;

#[test]
fn test_triple_buffer_basic() {
    let mut buffer = TripleBuffer::new(0u32);
    assert_eq!(*buffer.peek(), 0);

    buffer.write(42);
    assert_eq!(*buffer.read(), 42);
}

#[test]
fn test_triple_buffer_multiple_writes() {
    let mut buffer = TripleBuffer::new(0u32);

    buffer.write(1);
    buffer.write(2);
    buffer.write(3);

    assert_eq!(*buffer.read(), 3);
}

#[test]
fn every_read_gives_the_latest_write() {
    let mut buffer = TripleBuffer::new(0u32);
    buffer.write(42);
    assert_eq!(*buffer.read(), 42);
    // A second read without a write in between still gives the latest value.
    assert_eq!(*buffer.read(), 42);
    assert_eq!(*buffer.peek(), 42);
    buffer.write(9);
    assert_eq!(*buffer.peek(), 42);
    assert_eq!(*buffer.read(), 9);
    assert_eq!(*buffer.read(), 9);
}

#[test]
fn fresh_buffer_reads_its_initial_value() {
    let mut buffer = TripleBuffer::new(7u32);
    assert_eq!(*buffer.read(), 7);
    assert_eq!(*buffer.read(), 7);
}
