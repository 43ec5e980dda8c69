//! A marshalling layer that lets two independently compiled runtimes exchange
//! structured data across a call boundary that only carries small integers
//! and addresses.
//!
//! The core is the handle-based transfer protocol: a registry of in-flight
//! payloads ([`registry::ApiState`]), a two-phase allocate/commit sequence
//! for data pushed into the module, a single-shot send sequence for data
//! pushed out of it ([`transfer`]), a registry of scratch buffers handed out
//! for direct writing ([`ffi::StringAllocs`]), and a fault guard
//! ([`guard`]) that keeps internal failures from escaping through the
//! boundary.

use vstd::prelude::*;

pub mod ffi;
pub mod guard;
pub mod json;
pub mod registry;
pub mod return_codes;
pub mod transfer;

verus! {

/// Increment a handle value, wrapping to zero at the top of the `u32` range.
/// Collisions across the counter's lifetime are out of scope: each handle is
/// consumed by the receiving side before reuse is possible in practice.
pub open spec fn wrapping_next(h: u32) -> u32 {
    if h == u32::MAX {
        0
    } else {
        (h + 1) as u32
    }
}

/// A vector of `len` copies of `fill`.
pub fn filled_vec(len: usize, fill: u8) -> (v: Vec<u8>)
    ensures
        v@ == Seq::new(len as nat, |i: int| fill),
{
    let mut v: Vec<u8> = Vec::new();
    let mut i: usize = 0;
    while i < len
        invariant
            i <= len,
            v@ == Seq::new(i as nat, |j: int| fill),
        decreases len - i,
    {
        v.push(fill);
        i = i + 1;
        proof {
            assert(v@ =~= Seq::new(i as nat, |j: int| fill));
        }
    }
    v
}

} // verus!
