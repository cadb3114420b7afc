use rportaudio::rpa_error::RingBufferError;
use rportaudio::rpa_ringbuffer::{
    allocate_memory, flush_ring_buffer, initialize_ring_buffer, read_ring_buffer,
    ring_buffer_read_available, ring_buffer_write_available, write_ring_buffer,
};

#[test]
fn capacity_must_be_power_of_two() {
    let block = allocate_memory(400).unwrap();
    let r = initialize_ring_buffer(4, 100, block);
    assert!(matches!(r, Err(RingBufferError::NotPower2(_))));

    let block = allocate_memory(512).unwrap();
    let rb = initialize_ring_buffer(4, 128, block).unwrap();
    assert_eq!(ring_buffer_read_available(&rb), 0);
    assert_eq!(ring_buffer_write_available(&rb), 128);
}

#[test]
fn zero_capacity_is_refused() {
    let block = allocate_memory(0).unwrap();
    assert!(matches!(initialize_ring_buffer(4, 0, block), Err(RingBufferError::NotPower2(_))));
}

#[test]
fn capacity_of_one_is_accepted() {
    let block = allocate_memory(2).unwrap();
    let mut rb = initialize_ring_buffer(2, 1, block).unwrap();
    assert!(write_ring_buffer(&mut rb, &[1, 2]));
    assert!(!write_ring_buffer(&mut rb, &[3, 4]));
    assert_eq!(read_ring_buffer(&mut rb), Some(vec![1, 2]));
    assert_eq!(read_ring_buffer(&mut rb), None);
}

#[test]
fn negative_allocation_fails() {
    assert!(matches!(allocate_memory(-1), Err(RingBufferError::MemoryAllocateFail(_))));
    assert_eq!(allocate_memory(16).unwrap().len(), 16);
}

#[test]
fn elements_come_out_in_order_and_full_rejects() {
    let block = allocate_memory(8).unwrap();
    let mut rb = initialize_ring_buffer(2, 4, block).unwrap();
    for k in 0..4u8 {
        assert!(write_ring_buffer(&mut rb, &[k, k + 10]));
    }
    assert_eq!(ring_buffer_read_available(&rb), 4);
    assert_eq!(ring_buffer_write_available(&rb), 0);
    assert!(!write_ring_buffer(&mut rb, &[99, 99]));
    assert_eq!(read_ring_buffer(&mut rb), Some(vec![0, 10]));
    assert_eq!(read_ring_buffer(&mut rb), Some(vec![1, 11]));
    assert!(write_ring_buffer(&mut rb, &[4, 14]));
    assert!(write_ring_buffer(&mut rb, &[5, 15]));
    assert_eq!(read_ring_buffer(&mut rb), Some(vec![2, 12]));
    assert_eq!(read_ring_buffer(&mut rb), Some(vec![3, 13]));
    assert_eq!(read_ring_buffer(&mut rb), Some(vec![4, 14]));
    assert_eq!(read_ring_buffer(&mut rb), Some(vec![5, 15]));
    assert_eq!(read_ring_buffer(&mut rb), None);
}

#[test]
fn cursors_wrap_many_times() {
    let block = allocate_memory(4).unwrap();
    let mut rb = initialize_ring_buffer(1, 4, block).unwrap();
    for k in 0..50u8 {
        assert!(write_ring_buffer(&mut rb, &[k]));
        assert!(write_ring_buffer(&mut rb, &[k.wrapping_add(100)]));
        assert_eq!(read_ring_buffer(&mut rb), Some(vec![k]));
        assert_eq!(read_ring_buffer(&mut rb), Some(vec![k.wrapping_add(100)]));
    }
    assert_eq!(ring_buffer_read_available(&rb), 0);
}

#[test]
fn flush_empties() {
    let block = allocate_memory(16).unwrap();
    let mut rb = initialize_ring_buffer(4, 4, block).unwrap();
    assert!(write_ring_buffer(&mut rb, &[1, 2, 3, 4]));
    assert!(write_ring_buffer(&mut rb, &[5, 6, 7, 8]));
    flush_ring_buffer(&mut rb);
    assert_eq!(ring_buffer_read_available(&rb), 0);
    assert_eq!(ring_buffer_write_available(&rb), 4);
    assert_eq!(read_ring_buffer(&mut rb), None);
}
