use bytecode::memory::{free_array, grow_array, grow_capacity};

#[test]
fn grow_capacity_starts_at_the_minimum() {
    assert_eq!(grow_capacity(0), 8);
    assert_eq!(grow_capacity(7), 8);
}

#[test]
fn grow_capacity_doubles_past_the_minimum() {
    assert_eq!(grow_capacity(8), 16);
    assert_eq!(grow_capacity(16), 32);
    assert_eq!(grow_capacity(100), 200);
}

#[test]
fn grow_array_preserves_elements() {
    let array = vec![1u8, 2, 3];
    let grown = grow_array(array, 16);
    assert_eq!(grown, vec![1, 2, 3]);
    assert!(grown.capacity() >= 16);
}

#[test]
fn free_array_leaves_nothing() {
    let array = vec![1u8, 2, 3];
    let freed = free_array(array);
    assert!(freed.is_empty());
}
