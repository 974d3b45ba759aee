use tracengine::buffer::{Buffer, BufferId, InvalidBufferId};
use tracengine::error::RenderError;
use tracengine::types::{
    BufferUsages, BUFFER_USAGE_COPY_DST, BUFFER_USAGE_STORAGE, BUFFER_USAGE_UNIFORM,
    BUFFER_USAGE_VERTEX,
};

fn storage() -> BufferUsages {
    BufferUsages { bits: BUFFER_USAGE_STORAGE }
}

#[test]
fn new_buffer_is_unwritten_with_copy_dst() {
    let b: Buffer<u32> = Buffer::new(3, BufferUsages { bits: BUFFER_USAGE_VERTEX });
    assert_eq!(b.capacity(), 3);
    assert_eq!(b.usage().bits, BUFFER_USAGE_VERTEX | BUFFER_USAGE_COPY_DST);
    assert_eq!(b.generation(), 0);
    for i in 0..3 {
        assert_eq!(b.get(i), None);
    }
}

#[test]
fn fill_exact_writes_at_offset() {
    let mut b: Buffer<u32> = Buffer::new(4, storage());
    let r = b.fill_exact(1, &[7, 8]);
    assert!(r.is_ok());
    assert_eq!(b.get(0), None);
    assert_eq!(b.get(1), Some(7));
    assert_eq!(b.get(2), Some(8));
    assert_eq!(b.get(3), None);
    assert_eq!(b.capacity(), 4);
    assert_eq!(b.generation(), 0);
}

#[test]
fn fill_exact_succeeds_exactly_up_to_capacity() {
    let mut b: Buffer<u32> = Buffer::new(4, storage());
    assert!(b.fill_exact(2, &[1, 2]).is_ok());
    assert!(b.fill_exact(3, &[1, 2]).is_err());
}

#[test]
fn fill_exact_overflow_reports_and_writes_nothing() {
    let mut b: Buffer<u32> = Buffer::new(3, storage());
    let r = b.fill_exact(2, &[5, 6]);
    assert_eq!(r, Err(RenderError::BufferOverflow(2)));
    for i in 0..3 {
        assert_eq!(b.get(i), None);
    }
    assert_eq!(b.generation(), 0);
}

#[test]
fn fill_exact_empty_data_is_a_no_op() {
    let mut b: Buffer<u32> = Buffer::new(2, storage());
    assert!(b.fill_exact(0, &[]).is_ok());
    assert_eq!(b.get(0), None);
    assert_eq!(b.get(1), None);
}

#[test]
fn fill_grows_to_data_length_and_writes_at_zero() {
    // The documented grow-path behavior: the offset is discarded, the
    // data lands at element 0, and the capacity becomes the data length.
    let mut b: Buffer<u32> = Buffer::new(2, storage());
    b.fill(1, &[10, 11, 12]);
    assert_eq!(b.capacity(), 3);
    assert_eq!(b.generation(), 1);
    assert_eq!(b.get(0), Some(10));
    assert_eq!(b.get(1), Some(11));
    assert_eq!(b.get(2), Some(12));
}

#[test]
fn fill_within_capacity_writes_in_place_at_offset() {
    let mut b: Buffer<u32> = Buffer::new(4, storage());
    b.fill(2, &[9]);
    assert_eq!(b.capacity(), 4);
    assert_eq!(b.generation(), 0);
    assert_eq!(b.get(0), None);
    assert_eq!(b.get(2), Some(9));
}

#[test]
fn resize_discards_contents_and_moves_generation() {
    let mut b: Buffer<u32> = Buffer::new(2, BufferUsages { bits: BUFFER_USAGE_UNIFORM });
    b.fill_exact(0, &[1, 2]).unwrap();
    b.resize(5);
    assert_eq!(b.capacity(), 5);
    assert_eq!(b.generation(), 1);
    assert_eq!(b.usage().bits, BUFFER_USAGE_UNIFORM | BUFFER_USAGE_COPY_DST);
    for i in 0..5 {
        assert_eq!(b.get(i), None);
    }
}

#[test]
fn fill_exact_rejects_offsets_far_past_the_capacity() {
    let mut b: Buffer<u32> = Buffer::new(4, storage());
    assert!(b.fill_exact(u64::MAX, &[1]).is_err());
    assert!(b.fill_exact(5, &[]).is_err());
}

#[test]
fn buffer_overflow_error_describes_itself() {
    let e = RenderError::BufferOverflow(9);
    assert_eq!(e.describe(), "buffer write exceeds the buffer capacity");
    let id = InvalidBufferId(BufferId(4));
    assert_eq!(id.0, BufferId(4));
}
