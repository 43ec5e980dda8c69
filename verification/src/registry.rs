//! The handle registry: the state machine tracking payloads pushed into the
//! module, keyed by the handle the sending side chose.
//!
//! A transfer slot moves through three states: absent, reserved (buffer
//! exists, pre-filled with a sentinel byte so uninitialized reads are
//! detectable), and ready (payload finalized). Allocation reserves the
//! buffer, commit marks it ready, take consumes it. Handles are single-use:
//! reusing one while it has a live entry is an invariant violation caught by
//! the boundary fault guard, never a silent overwrite.
//!
//! Buffers are addressed by opaque integers handed out by the registry
//! itself; every access goes through a bounds-checked lookup, never raw
//! address arithmetic. The null address 0 is never handed out and stands
//! for allocation failure at the boundary.

use vstd::prelude::*;
use std::collections::HashMap;

use crate::filled_vec;
use crate::guard::{fault_guard, Fault};

verus! {

/// The byte a freshly reserved buffer is filled with, so partially written
/// buffers are easy to recognise.
pub const SENTINEL_BYTE: u8 = 0xA3;

/// A buffer of `len` sentinel bytes, as a freshly reserved slot holds it.
pub open spec fn sentinel_seq(len: nat) -> Seq<u8> {
    Seq::new(len, |i: int| SENTINEL_BYTE)
}

/// `base` with `data` written over the positions starting at `off`; all
/// other positions keep their previous contents.
pub open spec fn splice(base: Seq<u8>, off: int, data: Seq<u8>) -> Seq<u8> {
    Seq::new(base.len(), |i: int| if off <= i < off + data.len() {
        data[i - off]
    } else {
        base[i]
    })
}

/// One in-flight payload sent toward the module: the buffer, either still
/// being written (`AllocatedOnly`) or finalized (`Ready`).
pub enum JustReceivedJson {
    AllocatedOnly(Vec<u8>),
    Ready(Vec<u8>),
}

impl JustReceivedJson {
    /// The payload bytes, in either state.
    pub open spec fn spec_bytes(self) -> Seq<u8> {
        match self {
            JustReceivedJson::AllocatedOnly(v) => v@,
            JustReceivedJson::Ready(v) => v@,
        }
    }

    /// Whether the payload has been finalized.
    pub open spec fn spec_ready(self) -> bool {
        self is Ready
    }

    /// Mark the payload as finalized, keeping its bytes. A payload that is
    /// already finalized stays as it is.
    pub fn ready(self) -> (r: Self)
        ensures
            r.spec_ready(),
            r.spec_bytes() == self.spec_bytes(),
    {
        match self {
            JustReceivedJson::AllocatedOnly(v) => JustReceivedJson::Ready(v),
            x => x,
        }
    }
}

/// The mathematical model of one transfer slot.
pub struct SlotModel {
    /// The opaque address of the slot's buffer.
    pub addr: u64,
    /// Whether the payload has been committed.
    pub ready: bool,
    /// The buffer contents.
    pub bytes: Seq<u8>,
}

/// One registry entry: the slot's buffer address and its payload.
struct SlotEntry {
    addr: u64,
    json: JustReceivedJson,
}

impl SlotEntry {
    spec fn model(self) -> SlotModel {
        SlotModel {
            addr: self.addr,
            ready: self.json.spec_ready(),
            bytes: self.json.spec_bytes(),
        }
    }
}

/// What allocation answers for a handle: a fault if the handle still has a
/// live entry, otherwise the go-ahead to reserve a slot.
pub open spec fn allocate_outcome(slots: Map<u32, SlotModel>, h: u32) -> Result<(), Fault> {
    if slots.contains_key(h) {
        Err(Fault::HandleInUse(h))
    } else {
        Ok(())
    }
}

/// The slot table after `allocate(h, len)` hands out address `a`: a
/// reserved, sentinel-filled slot under `h`, or the table unchanged if the
/// request faulted.
pub open spec fn allocate_post(
    slots: Map<u32, SlotModel>,
    h: u32,
    a: u64,
    len: nat,
) -> Map<u32, SlotModel> {
    if allocate_outcome(slots, h) is Ok {
        slots.insert(h, SlotModel { addr: a, ready: false, bytes: sentinel_seq(len) })
    } else {
        slots
    }
}

/// Why a commit is refused: no entry for the handle, or the entry was
/// already committed (a single-use violation).
#[derive(Clone, Copy, Debug, PartialEq, Eq, Structural)]
pub enum CommitError {
    NoData,
    AlreadyCommitted,
}

/// What commit answers for a handle.
pub open spec fn commit_outcome(slots: Map<u32, SlotModel>, h: u32) -> Result<(), CommitError> {
    if !slots.contains_key(h) {
        Err(CommitError::NoData)
    } else if slots[h].ready {
        Err(CommitError::AlreadyCommitted)
    } else {
        Ok(())
    }
}

/// The slot table after `commit(h)`: the slot under `h` marked ready, its
/// bytes and address kept; or the table unchanged if the commit was refused.
pub open spec fn commit_post(slots: Map<u32, SlotModel>, h: u32) -> Map<u32, SlotModel> {
    if commit_outcome(slots, h) is Ok {
        slots.insert(
            h,
            SlotModel { addr: slots[h].addr, ready: true, bytes: slots[h].bytes },
        )
    } else {
        slots
    }
}

/// Why a take is refused: no entry for the handle, or the entry was
/// allocated but never committed.
#[derive(Clone, Copy, Debug, PartialEq, Eq, Structural)]
pub enum TakeError {
    NoData,
    AllocatedOnly,
}

/// What take answers for a handle: the payload bytes of a ready slot, or
/// the error naming the state the slot is in.
pub open spec fn take_outcome(slots: Map<u32, SlotModel>, h: u32) -> Result<Seq<u8>, TakeError> {
    if !slots.contains_key(h) {
        Err(TakeError::NoData)
    } else if !slots[h].ready {
        Err(TakeError::AllocatedOnly)
    } else {
        Ok(slots[h].bytes)
    }
}

/// The slot table after `take(h)`: the entry removed on success, the table
/// unchanged on a refusal.
pub open spec fn take_post(slots: Map<u32, SlotModel>, h: u32) -> Map<u32, SlotModel> {
    if take_outcome(slots, h) is Ok {
        slots.remove(h)
    } else {
        slots
    }
}

/// The internal state of the module-side transfer protocol: the slot table
/// for payloads sent toward the module, and the counter for handles this
/// module generates. One instance belongs to one execution context and is
/// never shared.
pub struct ApiState {
    /// Payloads sent toward the module, indexed by the handle the sending
    /// side chose.
    just_received_json: HashMap<u32, SlotEntry>,
    /// Which handle owns each live buffer address.
    addr_index: HashMap<u64, u32>,
    /// The next module-origin handle. Module-origin handles may collide
    /// with handles the remote side generates; the two namespaces are never
    /// compared, so no synchronisation is done.
    next_rust_handle: u32,
    /// The next buffer address to hand out; 0 is reserved as the null
    /// address.
    next_address: u64,
}

impl ApiState {
    /// The slot table: one model per live handle.
    pub closed spec fn slots(self) -> Map<u32, SlotModel> {
        Map::new(
            |h: u32| self.just_received_json@.contains_key(h),
            |h: u32| self.just_received_json@[h].model(),
        )
    }

    /// The address index: which handle owns each live buffer address.
    pub closed spec fn addrs(self) -> Map<u64, u32> {
        self.addr_index@
    }

    /// The next module-origin handle.
    pub closed spec fn next_handle(self) -> u32 {
        self.next_rust_handle
    }

    /// The next buffer address to hand out.
    pub closed spec fn next_addr(self) -> u64 {
        self.next_address
    }

    /// Internal consistency: the slot table and the address index are two
    /// views of one relation, no live address is null, and every live
    /// address is below the allocation counter (so fresh addresses never
    /// collide with live ones).
    pub closed spec fn wf(self) -> bool {
        &&& forall|h: u32| #[trigger] self.just_received_json@.contains_key(h) ==> {
            &&& self.just_received_json@[h].addr != 0
            &&& self.just_received_json@[h].addr < self.next_address
            &&& self.addr_index@.contains_key(self.just_received_json@[h].addr)
            &&& self.addr_index@[self.just_received_json@[h].addr] == h
        }
        &&& forall|a: u64| #[trigger] self.addr_index@.contains_key(a) ==> {
            &&& self.just_received_json@.contains_key(self.addr_index@[a])
            &&& self.just_received_json@[self.addr_index@[a]].addr == a
        }
        &&& self.next_address >= 1
    }

    /// A fresh registry: no slots, handles starting at zero.
    pub fn new() -> (r: Self)
        ensures
            r.wf(),
            r.slots() == Map::<u32, SlotModel>::empty(),
            r.addrs() == Map::<u64, u32>::empty(),
            r.next_handle() == 0,
            r.next_addr() == 1,
    {
        let r = ApiState {
            just_received_json: HashMap::new(),
            addr_index: HashMap::new(),
            next_rust_handle: 0,
            next_address: 1,
        };
        proof {
            assert(r.slots() =~= Map::<u32, SlotModel>::empty());
            assert(r.addrs() =~= Map::<u64, u32>::empty());
        }
        r
    }

    /// Reserve a buffer of `length` sentinel bytes for `handle` and answer
    /// its fresh, non-null address. A handle that already has a live entry
    /// is a single-use violation and faults without touching the registry;
    /// an exhausted address space answers the null address instead.
    pub fn allocate(&mut self, handle: u32, length: u32) -> (r: Result<u64, Fault>)
        requires
            old(self).wf(),
        ensures
            final(self).wf(),
            final(self).next_handle() == old(self).next_handle(),
            r matches Err(f) ==> {
                &&& f == Fault::HandleInUse(handle)
                &&& old(self).slots().contains_key(handle)
                &&& *final(self) == *old(self)
            },
            r matches Ok(a) ==> !old(self).slots().contains_key(handle) && (if a == 0 {
                *final(self) == *old(self)
            } else {
                &&& !old(self).addrs().contains_key(a)
                &&& final(self).slots() == allocate_post(
                    old(self).slots(),
                    handle,
                    a,
                    length as nat,
                )
                &&& final(self).addrs() == old(self).addrs().insert(a, handle)
                &&& final(self).next_addr() == old(self).next_addr() + 1
            }),
            r is Err <==> allocate_outcome(old(self).slots(), handle) is Err,
            r matches Ok(a) ==> (a == 0 <==> old(self).next_addr() == u64::MAX),
    {
        if self.just_received_json.contains_key(&handle) {
            return Err(Fault::HandleInUse(handle));
        }
        if self.next_address == u64::MAX {
            // The address space is exhausted: report that memory cannot be
            // reserved rather than reuse a live address.
            return Ok(0);
        }
        let addr = self.next_address;
        self.next_address = addr + 1;
        let buf = filled_vec(length as usize, SENTINEL_BYTE);
        let ghost pre_slots = old(self).slots();
        self.just_received_json.insert(
            handle,
            SlotEntry { addr, json: JustReceivedJson::AllocatedOnly(buf) },
        );
        self.addr_index.insert(addr, handle);
        proof {
            assert(self.slots() =~= allocate_post(pre_slots, handle, addr, length as nat));
        }
        Ok(addr)
    }

    /// Transition the slot under `handle` from reserved to ready. Refused
    /// with `NoData` for an absent handle and `AlreadyCommitted` for one
    /// committed before; a refusal never mutates the registry.
    pub fn commit(&mut self, handle: u32) -> (r: Result<(), CommitError>)
        requires
            old(self).wf(),
        ensures
            final(self).wf(),
            r == commit_outcome(old(self).slots(), handle),
            final(self).slots() == commit_post(old(self).slots(), handle),
            final(self).addrs() == old(self).addrs(),
            final(self).next_handle() == old(self).next_handle(),
            final(self).next_addr() == old(self).next_addr(),
            r is Err ==> *final(self) == *old(self),
    {
        let already_ready = match self.just_received_json.get(&handle) {
            None => {
                return Err(CommitError::NoData);
            },
            Some(entry) => matches!(entry.json, JustReceivedJson::Ready(_)),
        };
        if already_ready {
            return Err(CommitError::AlreadyCommitted);
        }
        let ghost pre = *self;
        let entry = match self.just_received_json.remove(&handle) {
            Some(entry) => entry,
            None => {
                proof {
                    assert(false);
                }
                return Err(CommitError::NoData);
            },
        };
        let addr = entry.addr;
        self.just_received_json.insert(handle, SlotEntry { addr, json: entry.json.ready() });
        proof {
            assert(self.slots() =~= commit_post(pre.slots(), handle));
        }
        Ok(())
    }

    /// Remove and answer the payload under `handle`. Refused with `NoData`
    /// for an absent handle and `AllocatedOnly` for one not yet committed;
    /// a refusal never mutates the registry, so the caller can still commit
    /// and take in order.
    pub fn take(&mut self, handle: u32) -> (r: Result<Vec<u8>, TakeError>)
        requires
            old(self).wf(),
        ensures
            final(self).wf(),
            r matches Ok(v) ==> take_outcome(old(self).slots(), handle) == Ok::<Seq<u8>, TakeError>(v@),
            r matches Err(e) ==> take_outcome(old(self).slots(), handle) == Err::<Seq<u8>, TakeError>(e),
            final(self).slots() == take_post(old(self).slots(), handle),
            final(self).addrs() == (if take_outcome(old(self).slots(), handle) is Ok {
                old(self).addrs().remove(old(self).slots()[handle].addr)
            } else {
                old(self).addrs()
            }),
            final(self).next_handle() == old(self).next_handle(),
            final(self).next_addr() == old(self).next_addr(),
            r is Err ==> *final(self) == *old(self),
    {
        let ready = match self.just_received_json.get(&handle) {
            None => {
                return Err(TakeError::NoData);
            },
            Some(entry) => matches!(entry.json, JustReceivedJson::Ready(_)),
        };
        if !ready {
            return Err(TakeError::AllocatedOnly);
        }
        let ghost pre = *self;
        let entry = match self.just_received_json.remove(&handle) {
            Some(entry) => entry,
            None => {
                proof {
                    assert(false);
                }
                return Err(TakeError::NoData);
            },
        };
        self.addr_index.remove(&entry.addr);
        let bytes = match entry.json {
            JustReceivedJson::Ready(v) => v,
            JustReceivedJson::AllocatedOnly(v) => {
                proof {
                    assert(false);
                }
                v
            },
        };
        proof {
            assert(self.slots() =~= take_post(pre.slots(), handle));
        }
        Ok(bytes)
    }

    /// Assign the next module-origin handle for an outbound payload. The
    /// payload is handed off together with the send call; the registry
    /// retains no record of it afterwards. The counter wraps at the top of
    /// the `u32` range.
    pub fn register_outbound(&mut self, payload: &[u8]) -> (h: u32)
        requires
            old(self).wf(),
        ensures
            final(self).wf(),
            h == old(self).next_handle(),
            final(self).next_handle() == crate::wrapping_next(old(self).next_handle()),
            final(self).slots() == old(self).slots(),
            final(self).addrs() == old(self).addrs(),
            final(self).next_addr() == old(self).next_addr(),
    {
        let h = self.next_rust_handle;
        self.next_rust_handle = if h == u32::MAX {
            0
        } else {
            h + 1
        };
        h
    }

    /// Write `data` into the reserved buffer at `addr`, starting at
    /// `offset`. Answers false — and leaves the registry untouched — if the
    /// address is not a live buffer, if the slot was already committed, or
    /// if the write would run past the end of the buffer.
    pub fn write_incoming(&mut self, addr: u64, offset: usize, data: &[u8]) -> (ok: bool)
        requires
            old(self).wf(),
        ensures
            final(self).wf(),
            ok == (old(self).addrs().contains_key(addr)
                && !old(self).slots()[old(self).addrs()[addr]].ready
                && offset + data@.len() <= old(self).slots()[old(self).addrs()[addr]].bytes.len()),
            !ok ==> *final(self) == *old(self),
            ok ==> {
                &&& final(self).slots() == old(self).slots().insert(
                    old(self).addrs()[addr],
                    SlotModel {
                        addr,
                        ready: false,
                        bytes: splice(
                            old(self).slots()[old(self).addrs()[addr]].bytes,
                            offset as int,
                            data@,
                        ),
                    },
                )
                &&& final(self).addrs() == old(self).addrs()
                &&& final(self).next_handle() == old(self).next_handle()
                &&& final(self).next_addr() == old(self).next_addr()
            },
    {
        let handle = match self.addr_index.get(&addr) {
            None => {
                return false;
            },
            Some(h) => *h,
        };
        let fits = match self.just_received_json.get(&handle) {
            None => {
                proof {
                    assert(false);
                }
                false
            },
            Some(entry) => match &entry.json {
                JustReceivedJson::Ready(_) => false,
                JustReceivedJson::AllocatedOnly(v) => offset <= v.len() && data.len() <= v.len()
                    - offset,
            },
        };
        if !fits {
            return false;
        }
        let ghost pre = *self;
        let entry = match self.just_received_json.remove(&handle) {
            Some(entry) => entry,
            None => {
                proof {
                    assert(false);
                }
                return false;
            },
        };
        let mut buf = match entry.json {
            JustReceivedJson::AllocatedOnly(v) => v,
            JustReceivedJson::Ready(v) => {
                proof {
                    assert(false);
                }
                v
            },
        };
        let ghost orig = buf@;
        let mut i: usize = 0;
        while i < data.len()
            invariant
                i <= data@.len(),
                offset + data@.len() <= orig.len(),
                orig.len() <= usize::MAX,
                buf@.len() == orig.len(),
                forall|j: int| 0 <= j < i ==> buf@[offset + j] == data@[j],
                forall|j: int| 0 <= j < orig.len() && !(offset <= j < offset + i) ==> buf@[j]
                    == orig[j],
            decreases data@.len() - i,
        {
            let b = data[i];
            buf.set(offset + i, b);
            i = i + 1;
        }
        proof {
            assert(buf@ =~= splice(orig, offset as int, data@));
        }
        self.just_received_json.insert(
            handle,
            SlotEntry { addr: entry.addr, json: JustReceivedJson::AllocatedOnly(buf) },
        );
        proof {
            assert(self.slots() =~= pre.slots().insert(
                handle,
                SlotModel { addr, ready: false, bytes: splice(orig, offset as int, data@) },
            ));
        }
        true
    }
}

/// Entry point for the remote side to start a transfer: reserve `length`
/// bytes for `origin_handle` and answer the buffer's address, with the null
/// address 0 for a fault or an allocation failure. On a fault the registry
/// is exactly as it was before the call.
pub fn allocate_for_incoming(state: &mut ApiState, origin_handle: u32, length: u32) -> (addr: u64)
    requires
        old(state).wf(),
    ensures
        final(state).wf(),
        final(state).next_handle() == old(state).next_handle(),
        old(state).slots().contains_key(origin_handle) ==> addr == 0 && *final(state) == *old(
            state,
        ),
        addr != 0 ==> {
            &&& !old(state).slots().contains_key(origin_handle)
            &&& !old(state).addrs().contains_key(addr)
            &&& final(state).slots() == allocate_post(
                old(state).slots(),
                origin_handle,
                addr,
                length as nat,
            )
            &&& final(state).addrs() == old(state).addrs().insert(addr, origin_handle)
            &&& final(state).next_addr() == old(state).next_addr() + 1
        },
        addr == 0 ==> *final(state) == *old(state),
        addr == 0 <==> (old(state).slots().contains_key(origin_handle) || old(state).next_addr()
            == u64::MAX),
{
    let r = state.allocate(origin_handle, length);
    match r {
        Ok(a) => a,
        Err(_) => {
            // The fault is intercepted here, at the boundary; the null
            // address reports the failure to the remote side.
            0
        },
    }
}

/// Entry point for the remote side to finish a transfer: commit the slot
/// under `origin_handle` and answer the module status byte, 0 for success
/// and 1 for a fault intercepted at the boundary. On a fault the registry
/// is exactly as it was before the call.
pub fn commit_incoming(state: &mut ApiState, origin_handle: u32) -> (status: u8)
    requires
        old(state).wf(),
    ensures
        final(state).wf(),
        status == (if commit_outcome(old(state).slots(), origin_handle) is Ok {
            0u8
        } else {
            1u8
        }),
        final(state).slots() == commit_post(old(state).slots(), origin_handle),
        final(state).addrs() == old(state).addrs(),
        final(state).next_handle() == old(state).next_handle(),
        final(state).next_addr() == old(state).next_addr(),
        status != 0 ==> *final(state) == *old(state),
{
    let r = state.commit(origin_handle);
    fault_guard(&r).code()
}

/// Single-use law: once a take of `h` has succeeded, a second take of `h`
/// is refused with `NoData`.
pub proof fn lemma_take_single_use(slots: Map<u32, SlotModel>, h: u32)
    requires
        take_outcome(slots, h) is Ok,
    ensures
        take_outcome(take_post(slots, h), h) == Err::<Seq<u8>, TakeError>(TakeError::NoData),
{
}

/// No premature read: right after an allocation of `h`, before any commit,
/// a take of `h` is refused with `AllocatedOnly`.
pub proof fn lemma_no_premature_read(slots: Map<u32, SlotModel>, h: u32, a: u64, len: nat)
    requires
        !slots.contains_key(h),
    ensures
        take_outcome(allocate_post(slots, h, a, len), h) == Err::<Seq<u8>, TakeError>(
            TakeError::AllocatedOnly,
        ),
{
}

/// Sentinel integrity: in a freshly allocated, uncommitted buffer, every
/// position that no write has touched still holds the sentinel byte.
pub proof fn lemma_sentinel_integrity(len: nat, off: int, data: Seq<u8>, i: int)
    requires
        0 <= off,
        off + data.len() <= len,
        0 <= i < len,
        !(off <= i < off + data.len()),
    ensures
        splice(sentinel_seq(len), off, data)[i] == SENTINEL_BYTE,
{
}

/// No double allocation: whatever table an allocation of `h` produced,
/// allocating `h` again is an invariant violation, never silently accepted.
pub proof fn lemma_no_double_allocation(slots: Map<u32, SlotModel>, h: u32, a: u64, len: nat)
    ensures
        allocate_outcome(allocate_post(slots, h, a, len), h) == Err::<(), Fault>(
            Fault::HandleInUse(h),
        ),
{
}

/// Guard containment: a refused commit or take leaves the slot table
/// exactly as it was, so the status reported at the boundary is the only
/// visible effect of a fault.
pub proof fn lemma_guard_containment(slots: Map<u32, SlotModel>, h: u32)
    ensures
        commit_outcome(slots, h) is Err ==> commit_post(slots, h) == slots,
        take_outcome(slots, h) is Err ==> take_post(slots, h) == slots,
{
}

} // verus!
