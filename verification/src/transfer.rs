//! The transfer protocol façade: the typed send and receive operations
//! layered on the handle registry and the external serializer.
//!
//! Sending serializes a value, assigns the next module-origin handle and
//! hands both to the caller for delivery; the remote acknowledgement is
//! interpreted separately, so the delivery itself can live outside the
//! library. Receiving consumes a committed slot and parses its bytes.

use vstd::prelude::*;

use crate::json::{json_bytes_of, json_value_of, parse_json_bytes, to_json_bytes};
use crate::registry::{take_outcome, take_post, ApiState, SlotModel, TakeError};
use crate::return_codes::{interpret_spec, Luau};

verus! {

/// The opaque handle generated when data is sent from this module. It must
/// always be forwarded to the remote side, as a `u32`.
#[derive(Clone, Copy, Debug, PartialEq, Eq, Structural)]
pub struct DataFromRustHandle(pub u32);

impl From<DataFromRustHandle> for u32 {
    fn from(value: DataFromRustHandle) -> Self {
        value.0
    }
}

impl vstd::std_specs::convert::FromSpecImpl<DataFromRustHandle> for u32 {
    open spec fn obeys_from_spec() -> bool {
        true
    }

    open spec fn from_spec(v: DataFromRustHandle) -> Self {
        v.0
    }
}

/// The opaque handle under which the remote side sent data. It arrives over
/// the boundary as a `u32`.
#[derive(Clone, Copy, Debug, PartialEq, Eq, Structural)]
pub struct DataFromLuauHandle(pub u32);

impl From<u32> for DataFromLuauHandle {
    fn from(value: u32) -> Self {
        DataFromLuauHandle(value)
    }
}

impl vstd::std_specs::convert::FromSpecImpl<u32> for DataFromLuauHandle {
    open spec fn obeys_from_spec() -> bool {
        true
    }

    open spec fn from_spec(v: u32) -> Self {
        DataFromLuauHandle(v)
    }
}

/// What can go wrong while sending a value to the remote side.
#[derive(Debug)]
pub enum SendToLuauError {
    /// The serializer refused the value.
    SerdeError(serde_json::Error),
    /// The serialized form could not be carried as a C string. No current
    /// operation produces this; it is kept for callers that match on it.
    CStringError,
    /// The remote side reported an error at the boundary.
    LuauErrorAtFfiBoundaryError,
    /// The remote side is not initialised yet, so cannot take data.
    LuauApiNotReadyError,
    /// The remote side answered with a code outside the protocol.
    LuauUnknownError,
}

/// What can go wrong while receiving a value from the remote side.
#[derive(Debug)]
pub enum ReceiveFromLuauError {
    /// The payload bytes were not a JSON text the parser accepts.
    SerdeError(serde_json::Error),
    /// The handle has no data.
    NoDataError,
    /// The handle has allocated memory but the data was never submitted.
    AllocatedOnlyError,
}

/// Serialize `data` and assign it the next module-origin handle. Success
/// is always owed — serializing a JSON value cannot fail — and the caller
/// gets the current handle, the counter advanced by one, and exactly the
/// serializer's text for `data` to deliver in one call; the registry
/// retains no record of either.
pub fn prepare_send(state: &mut ApiState, data: &serde_json::Value) -> (r: Result<
    (u32, Vec<u8>),
    SendToLuauError,
>)
    requires
        old(state).wf(),
    ensures
        final(state).wf(),
        final(state).slots() == old(state).slots(),
        final(state).addrs() == old(state).addrs(),
        final(state).next_addr() == old(state).next_addr(),
        r is Ok,
        r matches Ok((h, payload)) ==> {
            &&& h == old(state).next_handle()
            &&& final(state).next_handle() == crate::wrapping_next(old(state).next_handle())
            &&& payload@ == json_bytes_of(*data)
            &&& (json_value_of(payload@) is Some ==> json_value_of(payload@) == Some(*data))
        },
{
    let payload = match to_json_bytes(data) {
        Ok(p) => p,
        Err(e) => {
            // Unreachable: serialization of a JSON value always succeeds.
            proof {
                assert(false);
            }
            return Err(SendToLuauError::SerdeError(e));
        },
    };
    let h = state.register_outbound(payload.as_slice());
    Ok((h, payload))
}

/// Interpret the remote acknowledgement of a delivery: the handle on
/// success, and a distinct error for each failure code, including codes
/// outside the protocol.
pub fn complete_send(rust_handle: u32, ack: u8) -> (r: Result<DataFromRustHandle, SendToLuauError>)
    ensures
        match interpret_spec(ack) {
            Some(Luau::Success) => r matches Ok(h) && h.0 == rust_handle,
            Some(Luau::UncaughtErrorAtFfiBoundary) => r matches Err(
                SendToLuauError::LuauErrorAtFfiBoundaryError,
            ),
            Some(Luau::LuauApiNotReady) => r matches Err(SendToLuauError::LuauApiNotReadyError),
            None => r matches Err(SendToLuauError::LuauUnknownError),
        },
{
    match Luau::interpret(ack) {
        Some(Luau::Success) => Ok(DataFromRustHandle(rust_handle)),
        Some(Luau::UncaughtErrorAtFfiBoundary) => Err(SendToLuauError::LuauErrorAtFfiBoundaryError),
        Some(Luau::LuauApiNotReady) => Err(SendToLuauError::LuauApiNotReadyError),
        None => Err(SendToLuauError::LuauUnknownError),
    }
}

/// The outcome a receive is bound to, read off the slot table: the missing
/// or uncommitted slot's error, a parse failure, or the value the payload
/// bytes parse to.
pub enum ReceiveOutcome {
    NoData,
    AllocatedOnly,
    ParseFailed,
    Value(serde_json::Value),
}

/// What receiving `h` from the given slot table answers.
pub open spec fn receive_spec(slots: Map<u32, SlotModel>, h: u32) -> ReceiveOutcome {
    match take_outcome(slots, h) {
        Err(TakeError::NoData) => ReceiveOutcome::NoData,
        Err(TakeError::AllocatedOnly) => ReceiveOutcome::AllocatedOnly,
        Ok(bytes) => match json_value_of(bytes) {
            None => ReceiveOutcome::ParseFailed,
            Some(v) => ReceiveOutcome::Value(v),
        },
    }
}

/// Consume the slot under `luau_handle` and parse its payload. A missing
/// slot, an uncommitted slot and a payload the parser refuses each answer
/// their own error; a refused take leaves the registry untouched.
pub fn receive_from_luau(state: &mut ApiState, luau_handle: DataFromLuauHandle) -> (r: Result<
    serde_json::Value,
    ReceiveFromLuauError,
>)
    requires
        old(state).wf(),
    ensures
        final(state).wf(),
        final(state).slots() == take_post(old(state).slots(), luau_handle.0),
        final(state).addrs() == (if take_outcome(old(state).slots(), luau_handle.0) is Ok {
            old(state).addrs().remove(old(state).slots()[luau_handle.0].addr)
        } else {
            old(state).addrs()
        }),
        final(state).next_handle() == old(state).next_handle(),
        final(state).next_addr() == old(state).next_addr(),
        match receive_spec(old(state).slots(), luau_handle.0) {
            ReceiveOutcome::NoData => r matches Err(ReceiveFromLuauError::NoDataError)
                && *final(state) == *old(state),
            ReceiveOutcome::AllocatedOnly => r matches Err(
                ReceiveFromLuauError::AllocatedOnlyError,
            ) && *final(state) == *old(state),
            ReceiveOutcome::ParseFailed => r matches Err(ReceiveFromLuauError::SerdeError(_)),
            ReceiveOutcome::Value(v) => r matches Ok(w) && w == v,
        },
{
    let bytes = match state.take(luau_handle.0) {
        Err(TakeError::NoData) => {
            return Err(ReceiveFromLuauError::NoDataError);
        },
        Err(TakeError::AllocatedOnly) => {
            return Err(ReceiveFromLuauError::AllocatedOnlyError);
        },
        Ok(v) => v,
    };
    match parse_json_bytes(bytes.as_slice()) {
        Ok(v) => Ok(v),
        Err(e) => Err(ReceiveFromLuauError::SerdeError(e)),
    }
}

/// Round-trip law: a committed slot holding a payload that the serializer
/// produced for `v` — one whose bytes parse back to `v` — is received as
/// exactly `v`. Together with the send contract, which says a produced
/// payload parses back to the value it was made from whenever the parser
/// accepts it, a value sent to a simulated remote side and committed back
/// is reconstructed unchanged.
pub proof fn lemma_round_trip(slots: Map<u32, SlotModel>, h: u32, v: serde_json::Value, payload: Seq<u8>)
    requires
        slots.contains_key(h),
        slots[h].ready,
        slots[h].bytes == payload,
    ensures
        json_value_of(payload) == Some(v) ==> receive_spec(slots, h) == ReceiveOutcome::Value(v),
{
}

} // verus!
