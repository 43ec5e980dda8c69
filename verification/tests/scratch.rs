//! The foreign buffer registry: scratch memory the remote side writes into
//! and frees on its own schedule.

use lingua::ffi::{alloc_string, dealloc_string, StringAllocs};

#[test]
fn buffers_start_zeroed_at_their_capacity() {
    let mut allocs = StringAllocs::new();
    let ptr = allocs.allocate(3);
    assert_ne!(ptr, 0);
    assert_eq!(allocs.get(ptr).unwrap(), &vec![0u8, 0, 0]);
}

#[test]
fn writes_through_get_mut_are_visible() {
    let mut allocs = StringAllocs::new();
    let ptr = allocs.allocate(2);
    assert_ne!(ptr, 0);
    {
        let buf = allocs.get_mut(ptr).unwrap();
        buf[0] = b'h';
        buf[1] = b'i';
    }
    assert_eq!(allocs.get(ptr).unwrap(), &b"hi".to_vec());
}

#[test]
fn dealloc_releases_and_reports() {
    let mut allocs = StringAllocs::new();
    let ptr = allocs.allocate(4);
    assert_ne!(ptr, 0);
    assert!(allocs.dealloc(ptr));
    assert!(allocs.get(ptr).is_none());
    assert!(allocs.get_mut(ptr).is_none());
    // a second free of the same address is reported, not fatal
    assert!(!allocs.dealloc(ptr));
}

#[test]
fn unregistered_address_answers_false_without_a_fault() {
    let mut allocs = StringAllocs::new();
    assert!(!dealloc_string(&mut allocs, 12345));
}

#[test]
fn entry_points_hand_out_distinct_addresses() {
    let mut allocs = StringAllocs::new();
    let a = alloc_string(&mut allocs, 1);
    let b = alloc_string(&mut allocs, 1);
    assert_ne!(a, 0);
    assert_ne!(b, 0);
    assert_ne!(a, b);
    assert!(dealloc_string(&mut allocs, a));
    assert!(dealloc_string(&mut allocs, b));
}
