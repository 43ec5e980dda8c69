//! The send and receive façade, with the real serializer linked in.

use lingua::registry::{allocate_for_incoming, commit_incoming, ApiState};
use lingua::transfer::{
    complete_send, prepare_send, receive_from_luau, DataFromLuauHandle, DataFromRustHandle,
    ReceiveFromLuauError, SendToLuauError,
};

fn object_x_is_1() -> serde_json::Value {
    let mut m = serde_json::Map::new();
    m.insert(
        "x".to_string(),
        serde_json::Value::Number(serde_json::Number::from(1u64)),
    );
    serde_json::Value::Object(m)
}

/// Deliver a payload back into the registry as if the remote side had sent
/// it: allocate, write, commit under the given handle.
fn loop_back(st: &mut ApiState, handle: u32, payload: &[u8]) {
    let addr = allocate_for_incoming(st, handle, payload.len() as u32);
    assert_ne!(addr, 0);
    assert!(st.write_incoming(addr, 0, payload));
    assert_eq!(commit_incoming(st, handle), 0);
}

#[test]
fn module_origin_handles_start_at_zero_and_count_up() {
    let mut st = ApiState::new();
    let (h0, _) = prepare_send(&mut st, &object_x_is_1()).unwrap();
    let (h1, _) = prepare_send(&mut st, &object_x_is_1()).unwrap();
    assert_eq!(h0, 0);
    assert_eq!(h1, 1);
}

#[test]
fn serialized_payload_is_json_text() {
    let mut st = ApiState::new();
    let (_, payload) = prepare_send(&mut st, &object_x_is_1()).unwrap();
    assert_eq!(payload, b"{\"x\":1}".to_vec());
}

#[test]
fn round_trip_reconstructs_the_value() {
    let mut st = ApiState::new();
    let value = object_x_is_1();
    let (_, payload) = prepare_send(&mut st, &value).unwrap();
    loop_back(&mut st, 21, &payload);
    let got = receive_from_luau(&mut st, DataFromLuauHandle(21)).unwrap();
    assert_eq!(got, value);
}

#[test]
fn round_trip_of_a_string_value() {
    let mut st = ApiState::new();
    let value = serde_json::Value::String("hello".to_string());
    let (_, payload) = prepare_send(&mut st, &value).unwrap();
    assert_eq!(payload, b"\"hello\"".to_vec());
    loop_back(&mut st, 8, &payload);
    let got = receive_from_luau(&mut st, DataFromLuauHandle(8)).unwrap();
    assert_eq!(got, value);
}

#[test]
fn receive_without_data() {
    let mut st = ApiState::new();
    let r = receive_from_luau(&mut st, DataFromLuauHandle(5));
    assert!(matches!(r, Err(ReceiveFromLuauError::NoDataError)));
}

#[test]
fn receive_before_commit() {
    let mut st = ApiState::new();
    let addr = allocate_for_incoming(&mut st, 5, 4);
    assert_ne!(addr, 0);
    let r = receive_from_luau(&mut st, DataFromLuauHandle(5));
    assert!(matches!(r, Err(ReceiveFromLuauError::AllocatedOnlyError)));
}

#[test]
fn receive_of_bytes_that_are_not_json() {
    let mut st = ApiState::new();
    loop_back(&mut st, 6, b"not json");
    let r = receive_from_luau(&mut st, DataFromLuauHandle(6));
    assert!(matches!(r, Err(ReceiveFromLuauError::SerdeError(_))));
}

#[test]
fn parsed_value_comes_from_the_bytes() {
    let mut st = ApiState::new();
    loop_back(&mut st, 2, b"[1,2]");
    let got = receive_from_luau(&mut st, DataFromLuauHandle(2)).unwrap();
    let expected = serde_json::Value::Array(vec![
        serde_json::Value::Number(serde_json::Number::from(1u64)),
        serde_json::Value::Number(serde_json::Number::from(2u64)),
    ]);
    assert_eq!(got, expected);
}

#[test]
fn acknowledgement_codes_map_to_distinct_results() {
    let ok = complete_send(42, 0).unwrap();
    assert_eq!(u32::from(ok), 42);
    assert!(matches!(
        complete_send(42, 1),
        Err(SendToLuauError::LuauErrorAtFfiBoundaryError)
    ));
    assert!(matches!(
        complete_send(42, 2),
        Err(SendToLuauError::LuauApiNotReadyError)
    ));
    assert!(matches!(
        complete_send(42, 7),
        Err(SendToLuauError::LuauUnknownError)
    ));
}

#[test]
fn handles_convert_to_and_from_raw_integers() {
    let h = DataFromRustHandle(9);
    assert_eq!(u32::from(h), 9);
    let g = DataFromLuauHandle::from(11u32);
    assert_eq!(g, DataFromLuauHandle(11));
}
