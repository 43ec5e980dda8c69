//! Status codes exchanged across the foreign-function surface.
//!
//! These codes report whether a call crossed the boundary cleanly; they say
//! nothing about the operation itself. Memory allocations are the one
//! exception to the status-code rule: they answer with an address, and the
//! null address stands for failure.

use vstd::prelude::*;

verus! {

/// Codes the remote side answers with when it is handed data.
#[derive(Clone, Copy, Debug, PartialEq, Eq, Structural)]
pub enum Luau {
    /// The call was handled without an unexpected error.
    Success,
    /// A remote error occurred outside of a protected block.
    UncaughtErrorAtFfiBoundary,
    /// The call arrived before the remote side knew about this module.
    LuauApiNotReady,
}

/// Codes this module answers with at its own entry points.
#[derive(Clone, Copy, Debug, PartialEq, Eq, Structural)]
pub enum Rust {
    /// The call was handled without an internal fault.
    Success,
    /// An internal fault was intercepted at the boundary.
    PanicAtFfiBoundary,
}

/// The meaning of a remote acknowledgement byte: the three known codes, or
/// nothing for a byte outside the protocol.
pub open spec fn interpret_spec(value: u8) -> Option<Luau> {
    if value == 0 {
        Some(Luau::Success)
    } else if value == 1 {
        Some(Luau::UncaughtErrorAtFfiBoundary)
    } else if value == 2 {
        Some(Luau::LuauApiNotReady)
    } else {
        None
    }
}

impl Luau {
    /// Decode a remote acknowledgement byte.
    pub fn interpret(value: u8) -> (r: Option<Self>)
        ensures
            r == interpret_spec(value),
    {
        match value {
            0 => Some(Luau::Success),
            1 => Some(Luau::UncaughtErrorAtFfiBoundary),
            2 => Some(Luau::LuauApiNotReady),
            _ => None,
        }
    }
}

/// The byte sent over the boundary for a module-side status.
pub open spec fn rust_code_spec(code: Rust) -> u8 {
    match code {
        Rust::Success => 0,
        Rust::PanicAtFfiBoundary => 1,
    }
}

impl Rust {
    /// Encode this status as the byte sent over the boundary.
    pub fn code(self) -> (b: u8)
        ensures
            b == rust_code_spec(self),
    {
        match self {
            Rust::Success => 0,
            Rust::PanicAtFfiBoundary => 1,
        }
    }
}

} // verus!
