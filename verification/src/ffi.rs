//! The foreign buffer registry: scratch memory handed out to the remote
//! side for direct writing, independent of the handle protocol.
//!
//! Buffers are addressed by opaque integers the registry assigns itself, so
//! every access is a bounds-checked lookup and an address is registered at
//! most once. Releasing an address that was never registered is reported as
//! a failed no-op, never a fault: the remote side may legitimately race a
//! cleanup call.

use vstd::prelude::*;
use std::collections::HashMap;

use crate::filled_vec;

verus! {

/// The registry of scratch buffers the remote side writes into and later
/// frees. One instance belongs to one execution context and is never
/// shared.
pub struct StringAllocs {
    /// The live buffers, by address.
    ptr_map: HashMap<u64, Vec<u8>>,
    /// The next address to hand out; 0 is reserved as the null address.
    next_ptr: u64,
}

impl StringAllocs {
    /// The live buffers: their contents, by address.
    pub closed spec fn buffers(self) -> Map<u64, Seq<u8>> {
        Map::new(
            |p: u64| self.ptr_map@.contains_key(p),
            |p: u64| self.ptr_map@[p]@,
        )
    }

    /// The next address to hand out.
    pub closed spec fn next(self) -> u64 {
        self.next_ptr
    }

    /// No live address is null, and every live address is below the
    /// allocation counter, so fresh addresses never collide with live ones.
    pub closed spec fn wf(self) -> bool {
        &&& self.next_ptr >= 1
        &&& forall|p: u64| #[trigger] self.ptr_map@.contains_key(p) ==> p != 0 && p
            < self.next_ptr
    }

    /// An empty registry.
    pub fn new() -> (r: Self)
        ensures
            r.wf(),
            r.buffers() == Map::<u64, Seq<u8>>::empty(),
            r.next() == 1,
    {
        let r = StringAllocs { ptr_map: HashMap::new(), next_ptr: 1 };
        proof {
            assert(r.buffers() =~= Map::<u64, Seq<u8>>::empty());
        }
        r
    }

    /// Reserve a zeroed buffer of `capacity` bytes and answer its fresh,
    /// non-null address, or the null address if the address space is
    /// exhausted.
    pub fn allocate(&mut self, capacity: usize) -> (ptr: u64)
        requires
            old(self).wf(),
        ensures
            final(self).wf(),
            ptr == 0 <==> old(self).next() == u64::MAX,
            ptr == 0 ==> *final(self) == *old(self),
            ptr != 0 ==> {
                &&& !old(self).buffers().contains_key(ptr)
                &&& final(self).buffers() == old(self).buffers().insert(
                    ptr,
                    Seq::new(capacity as nat, |i: int| 0u8),
                )
                &&& final(self).next() == old(self).next() + 1
            },
    {
        if self.next_ptr == u64::MAX {
            return 0;
        }
        let ptr = self.next_ptr;
        self.next_ptr = ptr + 1;
        let ghost pre = *self;
        let buf = filled_vec(capacity, 0);
        self.ptr_map.insert(ptr, buf);
        proof {
            assert(self.buffers() =~= pre.buffers().insert(
                ptr,
                Seq::new(capacity as nat, |i: int| 0u8),
            ));
        }
        ptr
    }

    /// Scoped read access to the buffer at `ptr`, without transferring
    /// ownership; nothing for an address that is not registered.
    pub fn get(&self, ptr: u64) -> (r: Option<&Vec<u8>>)
        ensures
            match r {
                Some(v) => self.buffers().contains_key(ptr) && v@ == self.buffers()[ptr],
                None => !self.buffers().contains_key(ptr),
            },
    {
        self.ptr_map.get(&ptr)
    }

    /// Scoped write access to the buffer at `ptr`, without transferring
    /// ownership; nothing for an address that is not registered.
    ///
    /// Relies on std's `HashMap::get_mut`: a mutable borrow of the value
    /// under the key, or nothing when the key is absent.
    #[verifier::external_body]
    pub fn get_mut(&mut self, ptr: u64) -> (r: Option<&mut Vec<u8>>)
        ensures
            r is Some <==> old(self).buffers().contains_key(ptr),
            r matches Some(v) ==> {
                &&& (*v)@ == old(self).buffers()[ptr]
                &&& final(self).buffers() == old(self).buffers().insert(ptr, (*final(v))@)
                &&& final(self).next() == old(self).next()
                &&& (old(self).wf() ==> final(self).wf())
            },
            r is None ==> *final(self) == *old(self),
    {
        self.ptr_map.get_mut(&ptr)
    }

    /// Release the buffer at `ptr`. Answers false — with the registry
    /// untouched — for an address that is not registered; a double free is
    /// reported, not fatal.
    pub fn dealloc(&mut self, ptr: u64) -> (r: bool)
        requires
            old(self).wf(),
        ensures
            final(self).wf(),
            r <==> old(self).buffers().contains_key(ptr),
            r ==> final(self).buffers() == old(self).buffers().remove(ptr),
            !r ==> *final(self) == *old(self),
            final(self).next() == old(self).next(),
    {
        if !self.ptr_map.contains_key(&ptr) {
            return false;
        }
        let ghost pre = *self;
        self.ptr_map.remove(&ptr);
        proof {
            assert(self.buffers() =~= pre.buffers().remove(ptr));
        }
        true
    }
}

/// Reserve a scratch buffer in the given registry: the entry point the
/// remote side reaches to obtain memory it will write and later free.
pub fn alloc_string(allocs: &mut StringAllocs, capacity: usize) -> (ptr: u64)
    requires
        old(allocs).wf(),
    ensures
        final(allocs).wf(),
        ptr == 0 <==> old(allocs).next() == u64::MAX,
        ptr == 0 ==> *final(allocs) == *old(allocs),
        ptr != 0 ==> {
            &&& !old(allocs).buffers().contains_key(ptr)
            &&& final(allocs).buffers() == old(allocs).buffers().insert(
                ptr,
                Seq::new(capacity as nat, |i: int| 0u8),
            )
        },
{
    allocs.allocate(capacity)
}

/// Release a scratch buffer in the given registry: the entry point the
/// remote side reaches when it is done with the memory. An unregistered
/// address answers false and raises no fault.
pub fn dealloc_string(allocs: &mut StringAllocs, ptr: u64) -> (r: bool)
    requires
        old(allocs).wf(),
    ensures
        final(allocs).wf(),
        r <==> old(allocs).buffers().contains_key(ptr),
        r ==> final(allocs).buffers() == old(allocs).buffers().remove(ptr),
        !r ==> *final(allocs) == *old(allocs),
{
    allocs.dealloc(ptr)
}

} // verus!
