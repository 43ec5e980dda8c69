//! The boundary fault guard.
//!
//! Every entry point reachable from the foreign-function surface reports its
//! outcome as an explicit `Result`; the guard turns that outcome into the
//! status code sent over the boundary, so no internal fault ever escapes
//! unconverted. Error outcomes never mutate registry state: each entry
//! point's contract pins the state to its prior value on a fault.

use vstd::prelude::*;

use crate::return_codes::Rust;

verus! {

/// An invariant violation detected inside an entry point: a protocol bug in
/// the calling code, not a data condition.
#[derive(Clone, Copy, Debug, PartialEq, Eq, Structural)]
pub enum Fault {
    /// A handle was reused while it still had a live entry.
    HandleInUse(u32),
}

/// Convert an entry point's outcome into the status reported at the
/// boundary: success passes through, any fault becomes
/// `Rust::PanicAtFfiBoundary` instead of escaping.
pub fn fault_guard<T, E>(outcome: &Result<T, E>) -> (code: Rust)
    ensures
        code == (if outcome is Ok {
            Rust::Success
        } else {
            Rust::PanicAtFfiBoundary
        }),
{
    match outcome {
        Ok(_) => Rust::Success,
        Err(_) => Rust::PanicAtFfiBoundary,
    }
}

} // verus!
