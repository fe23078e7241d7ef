use native_interop::buffer::{copy_to_buffer, SizedByteArray};
use native_interop::codec::hand_over;

#[test]
fn new_slot_is_null_and_empty() {
    let slot = SizedByteArray::new();
    assert!(slot.is_null());
    assert_eq!(slot.size(), 0);
    assert!(slot.bytes().is_none());
}

#[test]
fn store_makes_the_slot_owner_of_the_bytes() {
    let mut slot = SizedByteArray::new();
    assert!(slot.store(vec![1, 2, 3, 4, 5]));
    assert!(!slot.is_null());
    assert_eq!(slot.size(), 5);
    assert_eq!(slot.bytes(), Some(&[1u8, 2, 3, 4, 5][..]));
}

#[test]
fn store_of_an_empty_buffer_is_not_null() {
    let mut slot = SizedByteArray::new();
    assert!(slot.store(Vec::new()));
    assert!(!slot.is_null());
    assert_eq!(slot.size(), 0);
    assert_eq!(slot.bytes(), Some(&[][..]));
}

#[test]
fn store_replaces_what_the_slot_owned() {
    let mut slot = SizedByteArray::new();
    assert!(slot.store(vec![9, 9, 9]));
    assert!(slot.store(vec![7]));
    assert_eq!(slot.size(), 1);
    assert_eq!(slot.bytes(), Some(&[7u8][..]));
}

#[test]
fn release_hands_the_buffer_over_once() {
    let mut slot = SizedByteArray::new();
    assert!(slot.store(vec![10, 20, 30]));
    assert_eq!(slot.release(), Some(vec![10, 20, 30]));
    assert!(slot.is_null());
    assert_eq!(slot.size(), 0);
    assert_eq!(slot.release(), None);
    assert!(slot.is_null());
}

#[test]
fn release_of_a_null_slot_gives_nothing() {
    let mut slot = SizedByteArray::new();
    assert_eq!(slot.release(), None);
    assert!(slot.is_null());
}

#[test]
fn hand_over_of_a_result_fills_the_slot() {
    let mut slot = SizedByteArray::new();
    assert!(hand_over(Ok(vec![0xde, 0xad]), &mut slot));
    assert_eq!(slot.size(), 2);
    assert_eq!(slot.bytes(), Some(&[0xdeu8, 0xad][..]));
}

#[test]
fn hand_over_of_an_error_leaves_a_null_slot_null() {
    let mut slot = SizedByteArray::new();
    let failure = std::io::Error::new(std::io::ErrorKind::InvalidInput, "corrupt");
    assert!(!hand_over(Err(failure), &mut slot));
    assert!(slot.is_null());
    assert_eq!(slot.size(), 0);
}

#[test]
fn hand_over_of_an_error_leaves_a_filled_slot_as_it_was() {
    let mut slot = SizedByteArray::new();
    assert!(slot.store(vec![4, 5, 6]));
    let failure = std::io::Error::new(std::io::ErrorKind::UnexpectedEof, "short");
    assert!(!hand_over(Err(failure), &mut slot));
    assert_eq!(slot.size(), 3);
    assert_eq!(slot.bytes(), Some(&[4u8, 5, 6][..]));
}

#[test]
fn copy_to_buffer_copies_every_byte() {
    assert_eq!(copy_to_buffer(&[]), Vec::<u8>::new());
    assert_eq!(copy_to_buffer(&[42]), vec![42]);
    let source: Vec<u8> = (0..=255).collect();
    assert_eq!(copy_to_buffer(&source), source);
}
