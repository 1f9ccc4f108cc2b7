use c123chain_cdk::region::{Memory, Region, RuntimeFault};
use c123chain_cdk::types::Error;

#[test]
fn second_consumption_is_a_fault() {
    let mut mem = Memory::new();
    let region = mem.release_buffer(vec![1, 2, 3]);
    let wire = region.to_bytes();
    assert_eq!(mem.consume_region(region), Ok(vec![1, 2, 3]));
    let again = Region::from_bytes(&wire).unwrap();
    assert_eq!(mem.consume_region(again), Err(RuntimeFault::AlreadyConsumed));
}

#[test]
fn null_descriptor_is_a_fault() {
    let mut mem = Memory::new();
    let region = Region { offset: 0, capacity: 0, length: 0 };
    assert_eq!(mem.consume_region(region), Err(RuntimeFault::NullPointer));
}

#[test]
fn consume_honours_length() {
    let mut mem = Memory::new();
    let handle = mem.allocate(8);
    let region = Region { offset: handle, capacity: 8, length: 3 };
    assert_eq!(mem.consume_region(region), Ok(vec![0, 0, 0]));
}

#[test]
fn mismatched_descriptor_is_invalid() {
    let mut mem = Memory::new();
    let handle = mem.allocate(4);
    let region = Region { offset: handle, capacity: 4, length: 5 };
    assert_eq!(mem.consume_region(region), Err(RuntimeFault::InvalidRegion));
    let region = Region { offset: handle, capacity: 9, length: 1 };
    assert_eq!(mem.consume_region(region), Err(RuntimeFault::InvalidRegion));
}

#[test]
fn build_region_describes_without_taking() {
    let mut mem = Memory::new();
    let handle = mem.allocate(5);
    let region = mem.build_region(handle).unwrap();
    assert_eq!((region.offset, region.capacity, region.length), (handle, 5, 5));
    assert!(mem.build_region(handle).is_some());
    assert!(mem.build_region(0).is_none());
    assert!(mem.build_region(handle + 1).is_none());
}

#[test]
fn deallocate_frees_once() {
    let mut mem = Memory::new();
    let handle = mem.allocate(16);
    assert_eq!(mem.deallocate(handle, 4), Err(RuntimeFault::InvalidRegion));
    assert_eq!(mem.deallocate(handle, 16), Ok(()));
    assert_eq!(mem.deallocate(handle, 16), Err(RuntimeFault::AlreadyConsumed));
    assert_eq!(mem.deallocate(0, 16), Err(RuntimeFault::NullPointer));
}

#[test]
fn descriptor_wire_form() {
    let region = Region { offset: 1, capacity: 0x0203, length: 4 };
    let wire = region.to_bytes();
    assert_eq!(wire, vec![1, 0, 0, 0, 3, 2, 0, 0, 4, 0, 0, 0]);
    let back = Region::from_bytes(&wire).unwrap();
    assert_eq!((back.offset, back.capacity, back.length), (1, 0x0203, 4));
    assert_eq!(Region::from_bytes(&wire[..11]).unwrap_err(), Error::UnexpectedEOF);
}
