//! The handle protocol end to end: allocate, write, commit, take, and the
//! faults the boundary guard converts to status codes.

use lingua::registry::{
    allocate_for_incoming, commit_incoming, ApiState, JustReceivedJson, TakeError, SENTINEL_BYTE,
};
use lingua::guard::{fault_guard, Fault};
use lingua::return_codes::{Luau, Rust};

#[test]
fn allocate_write_commit_take_then_no_data() {
    let mut st = ApiState::new();
    let addr = allocate_for_incoming(&mut st, 7, 5);
    assert_ne!(addr, 0);
    assert!(st.write_incoming(addr, 0, b"hello"));
    assert_eq!(commit_incoming(&mut st, 7), 0);
    assert_eq!(st.take(7).unwrap(), b"hello".to_vec());
    assert!(matches!(st.take(7), Err(TakeError::NoData)));
}

#[test]
fn premature_take_is_allocated_only() {
    let mut st = ApiState::new();
    let addr = allocate_for_incoming(&mut st, 3, 4);
    assert_ne!(addr, 0);
    assert!(matches!(st.take(3), Err(TakeError::AllocatedOnly)));
    // the refused take left the slot intact: the transfer can still finish
    assert!(st.write_incoming(addr, 0, b"abcd"));
    assert_eq!(commit_incoming(&mut st, 3), 0);
    assert_eq!(st.take(3).unwrap(), b"abcd".to_vec());
}

#[test]
fn unwritten_positions_keep_the_sentinel() {
    let mut st = ApiState::new();
    let addr = allocate_for_incoming(&mut st, 1, 5);
    assert_ne!(addr, 0);
    // write only the middle; the rest must still hold the fill byte
    assert!(st.write_incoming(addr, 1, b"xy"));
    assert_eq!(commit_incoming(&mut st, 1), 0);
    let bytes = st.take(1).unwrap();
    assert_eq!(
        bytes,
        vec![SENTINEL_BYTE, b'x', b'y', SENTINEL_BYTE, SENTINEL_BYTE]
    );
}

#[test]
fn fresh_buffer_is_all_sentinel() {
    let mut st = ApiState::new();
    let addr = allocate_for_incoming(&mut st, 2, 3);
    assert_ne!(addr, 0);
    assert_eq!(commit_incoming(&mut st, 2), 0);
    assert_eq!(st.take(2).unwrap(), vec![SENTINEL_BYTE; 3]);
}

#[test]
fn double_allocation_faults_without_mutation() {
    let mut st = ApiState::new();
    let addr = allocate_for_incoming(&mut st, 9, 3);
    assert_ne!(addr, 0);
    // the handle is still live: reusing it is an invariant violation,
    // reported as the null address
    assert_eq!(allocate_for_incoming(&mut st, 9, 3), 0);
    // the registry is as it was before the fault: the transfer still works
    assert!(st.write_incoming(addr, 0, b"abc"));
    assert_eq!(commit_incoming(&mut st, 9), 0);
    assert_eq!(st.take(9).unwrap(), b"abc".to_vec());
}

#[test]
fn commit_without_data_is_a_fault_status() {
    let mut st = ApiState::new();
    assert_eq!(commit_incoming(&mut st, 12), 1);
}

#[test]
fn double_commit_is_a_fault_and_leaves_the_payload() {
    let mut st = ApiState::new();
    let addr = allocate_for_incoming(&mut st, 4, 2);
    assert_ne!(addr, 0);
    assert!(st.write_incoming(addr, 0, b"ok"));
    assert_eq!(commit_incoming(&mut st, 4), 0);
    // a second commit is a single-use violation, intercepted at the
    // boundary; the committed payload is untouched
    assert_eq!(commit_incoming(&mut st, 4), 1);
    assert_eq!(st.take(4).unwrap(), b"ok".to_vec());
}

#[test]
fn writes_are_bounds_checked() {
    let mut st = ApiState::new();
    let addr = allocate_for_incoming(&mut st, 5, 3);
    assert_ne!(addr, 0);
    // unregistered address
    assert!(!st.write_incoming(addr + 1, 0, b"a"));
    // write past the end of the buffer
    assert!(!st.write_incoming(addr, 2, b"xy"));
    // a committed slot takes no further writes
    assert_eq!(commit_incoming(&mut st, 5), 0);
    assert!(!st.write_incoming(addr, 0, b"a"));
    assert_eq!(st.take(5).unwrap(), vec![SENTINEL_BYTE; 3]);
}

#[test]
fn addresses_are_distinct_and_non_null() {
    let mut st = ApiState::new();
    let a = allocate_for_incoming(&mut st, 1, 4);
    let b = allocate_for_incoming(&mut st, 2, 4);
    assert_ne!(a, 0);
    assert_ne!(b, 0);
    assert_ne!(a, b);
}

#[test]
fn ready_finalizes_and_keeps_the_bytes() {
    let reserved = JustReceivedJson::AllocatedOnly(b"abc".to_vec());
    match reserved.ready() {
        JustReceivedJson::Ready(v) => assert_eq!(v, b"abc".to_vec()),
        JustReceivedJson::AllocatedOnly(_) => panic!("payload was not finalized"),
    }
    let finalized = JustReceivedJson::Ready(b"xy".to_vec());
    match finalized.ready() {
        JustReceivedJson::Ready(v) => assert_eq!(v, b"xy".to_vec()),
        JustReceivedJson::AllocatedOnly(_) => panic!("payload was definalized"),
    }
}

#[test]
fn interpret_decodes_the_known_codes() {
    assert!(matches!(Luau::interpret(0), Some(Luau::Success)));
    assert!(matches!(
        Luau::interpret(1),
        Some(Luau::UncaughtErrorAtFfiBoundary)
    ));
    assert!(matches!(Luau::interpret(2), Some(Luau::LuauApiNotReady)));
    assert!(Luau::interpret(3).is_none());
    assert!(Luau::interpret(255).is_none());
}

#[test]
fn module_status_bytes() {
    assert_eq!(Rust::Success.code(), 0);
    assert_eq!(Rust::PanicAtFfiBoundary.code(), 1);
}

#[test]
fn guard_converts_outcomes_to_statuses() {
    let ok: Result<u32, Fault> = Ok(3);
    let fault: Result<u32, Fault> = Err(Fault::HandleInUse(3));
    assert_eq!(fault_guard(&ok), Rust::Success);
    assert_eq!(fault_guard(&fault), Rust::PanicAtFfiBoundary);
}
