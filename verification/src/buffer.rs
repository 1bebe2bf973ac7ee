//! Fixed-capacity slot pools.
//!
//! `MetaBufferPool` holds the metadata records of outstanding calls, keyed
//! by call id.  `BufferPool` is the payload arena: slots of bytes referenced
//! across engine boundaries by a stable `BufHandle` (index plus generation)
//! instead of by copy.  Slots never move; exhaustion is backpressure, not a
//! resize.  Releasing a slot that is not currently held fails and leaves the
//! pool untouched.

use vstd::prelude::*;

use crate::message::BufHandle;
use crate::message::MessageMeta;
use crate::message::RpcId;

verus! {

/// Why a pool operation failed.
#[derive(Clone, Copy, PartialEq, Eq, Structural, Debug)]
pub enum PoolError {
    /// No free slot is left: backpressure to the producer.
    Exhausted,
    /// The given call id is not held by this pool.
    NotFound,
    /// The handle does not name a currently allocated slot.
    InvalidHandle,
}

/// Exactly one slot that held the call `id` was returned to the free
/// state; nothing else moved.
pub open spec fn spec_released(
    p0: Seq<Option<MessageMeta>>,
    p1: Seq<Option<MessageMeta>>,
    id: RpcId,
) -> bool {
    exists|i: int|
        0 <= i < p0.len() && #[trigger] p0[i] is Some && p0[i]->Some_0.spec_rpc_id() == id && p1
            == p0.update(i, None)
}

/// A fixed-capacity pool of call-metadata slots, keyed by call id.
pub struct MetaBufferPool {
    slots: Vec<Option<MessageMeta>>,
}

impl MetaBufferPool {
    /// One entry per slot: the metadata held there, or `None` when free.
    pub closed spec fn view(&self) -> Seq<Option<MessageMeta>> {
        self.slots@
    }

    /// Whether some slot currently holds a record for the call `id`.
    pub open spec fn holds(&self, id: RpcId) -> bool {
        exists|i: int|
            0 <= i < self@.len() && #[trigger] self@[i] is Some
                && self@[i]->Some_0.spec_rpc_id() == id
    }

    /// Whether some slot is free.
    pub open spec fn has_free_slot(&self) -> bool {
        exists|i: int| 0 <= i < self@.len() && #[trigger] self@[i] is None
    }

    pub fn new(capacity: usize) -> (p: MetaBufferPool)
        ensures
            p@.len() == capacity,
            forall|i: int| 0 <= i < capacity ==> #[trigger] p@[i] is None,
    {
        let mut slots: Vec<Option<MessageMeta>> = Vec::new();
        let mut k: usize = 0;
        while k < capacity
            invariant
                k <= capacity,
                slots@.len() == k,
                forall|i: int| 0 <= i < k ==> #[trigger] slots@[i] is None,
            decreases capacity - k,
        {
            slots.push(None);
            k = k + 1;
        }
        MetaBufferPool { slots }
    }

    pub fn capacity(&self) -> (n: usize)
        ensures
            n == self@.len(),
    {
        self.slots.len()
    }

    /// Stores a call's metadata in the first free slot and returns the slot
    /// index.  Fails with `Exhausted` exactly when no slot is free, leaving
    /// the pool unchanged.
    pub fn obtain(&mut self, meta: MessageMeta) -> (r: Result<usize, PoolError>)
        ensures
            match r {
                Ok(h) => {
                    &&& old(self).has_free_slot()
                    &&& 0 <= h < old(self)@.len()
                    &&& old(self)@[h as int] is None
                    &&& forall|j: int| 0 <= j < h ==> #[trigger] old(self)@[j] is Some
                    &&& final(self)@ == old(self)@.update(h as int, Some(meta))
                },
                Err(e) => {
                    &&& e == PoolError::Exhausted
                    &&& !old(self).has_free_slot()
                    &&& final(self)@ == old(self)@
                },
            },
    {
        let n = self.slots.len();
        let mut k: usize = 0;
        while k < n
            invariant
                k <= n,
                n == self.slots@.len(),
                self.slots@ == old(self).slots@,
                forall|j: int| 0 <= j < k ==> #[trigger] self.slots@[j] is Some,
            decreases n - k,
        {
            if self.slots[k].is_none() {
                self.slots.set(k, Some(meta));
                return Ok(k);
            }
            k = k + 1;
        }
        Err(PoolError::Exhausted)
    }

    /// Returns the slot holding the call `id` to the free state.  Fails with
    /// `NotFound` exactly when no slot holds that id; a failed release never
    /// mutates the pool, so a handle can never be released twice.
    pub fn release(&mut self, id: RpcId) -> (r: Result<(), PoolError>)
        ensures
            match r {
                Ok(()) => {
                    &&& old(self).holds(id)
                    &&& spec_released(old(self)@, final(self)@, id)
                },
                Err(e) => {
                    &&& e == PoolError::NotFound
                    &&& !old(self).holds(id)
                    &&& *final(self) == *old(self)
                },
            },
    {
        let n = self.slots.len();
        let mut k: usize = 0;
        while k < n
            invariant
                k <= n,
                n == self.slots@.len(),
                *self == *old(self),
                forall|j: int|
                    0 <= j < k ==> !(#[trigger] self.slots@[j] is Some
                        && self.slots@[j]->Some_0.spec_rpc_id() == id),
            decreases n - k,
        {
            match &self.slots[k] {
                Some(m) => {
                    if m.conn_id == id.conn_id && m.call_id == id.call_id {
                        self.slots.set(k, None);
                        return Ok(());
                    }
                },
                None => {},
            }
            k = k + 1;
        }
        Err(PoolError::NotFound)
    }
}

/// One payload slot: its current generation, whether it is allocated, and
/// the bytes stored there.
pub struct PayloadSlot {
    pub generation: u64,
    pub in_use: bool,
    pub data: Vec<u8>,
}

/// The payload arena: a fixed number of byte slots addressed by handle.
pub struct BufferPool {
    slots: Vec<PayloadSlot>,
}

impl BufferPool {
    pub closed spec fn view(&self) -> Seq<PayloadSlot> {
        self.slots@
    }

    /// A handle is valid while it names an allocated slot of the same
    /// generation; releasing the slot bumps the generation and invalidates
    /// every outstanding handle to it.
    pub open spec fn valid_handle(&self, h: BufHandle) -> bool {
        &&& 0 <= (h.index as int) < self@.len()
        &&& self@[h.index as int].in_use
        &&& self@[h.index as int].generation == h.generation
    }

    /// The bytes a valid handle points at.
    pub open spec fn slot_data(&self, h: BufHandle) -> Seq<u8> {
        self@[h.index as int].data@
    }

    pub open spec fn has_free_slot(&self) -> bool {
        exists|i: int| 0 <= i < self@.len() && !(#[trigger] self@[i].in_use)
    }

    pub fn new(capacity: usize) -> (p: BufferPool)
        ensures
            p@.len() == capacity,
            forall|i: int|
                0 <= i < capacity ==> !(#[trigger] p@[i].in_use) && p@[i].generation == 0,
    {
        let mut slots: Vec<PayloadSlot> = Vec::new();
        let mut k: usize = 0;
        while k < capacity
            invariant
                k <= capacity,
                slots@.len() == k,
                forall|i: int|
                    0 <= i < k ==> !(#[trigger] slots@[i].in_use) && slots@[i].generation == 0,
            decreases capacity - k,
        {
            slots.push(PayloadSlot { generation: 0, in_use: false, data: Vec::new() });
            k = k + 1;
        }
        BufferPool { slots }
    }

    pub fn capacity(&self) -> (n: usize)
        ensures
            n == self@.len(),
    {
        self.slots.len()
    }

    /// Stores `data` in the first free slot and returns a handle to it.
    /// Fails with `Exhausted` exactly when every slot is allocated, leaving
    /// the pool unchanged.
    pub fn acquire(&mut self, data: Vec<u8>) -> (r: Result<BufHandle, PoolError>)
        ensures
            match r {
                Ok(h) => {
                    &&& old(self).has_free_slot()
                    &&& final(self).valid_handle(h)
                    &&& final(self).slot_data(h) == data@
                    &&& 0 <= (h.index as int) < old(self)@.len()
                    &&& !old(self)@[h.index as int].in_use
                    &&& h.generation == old(self)@[h.index as int].generation
                    &&& final(self)@ == old(self)@.update(
                        h.index as int,
                        PayloadSlot { generation: h.generation, in_use: true, data },
                    )
                },
                Err(e) => {
                    &&& e == PoolError::Exhausted
                    &&& !old(self).has_free_slot()
                    &&& final(self)@ == old(self)@
                },
            },
    {
        let n = self.slots.len();
        let mut k: usize = 0;
        while k < n
            invariant
                k <= n,
                n == self.slots@.len(),
                self.slots@ == old(self).slots@,
                forall|j: int| 0 <= j < k ==> #[trigger] self.slots@[j].in_use,
            decreases n - k,
        {
            if !self.slots[k].in_use {
                let generation = self.slots[k].generation;
                self.slots.set(k, PayloadSlot { generation, in_use: true, data });
                return Ok(BufHandle { index: k, generation });
            }
            k = k + 1;
        }
        Err(PoolError::Exhausted)
    }

    /// Reads the bytes behind a handle.  Fails with `InvalidHandle` exactly
    /// when the handle does not name a currently allocated slot of its own
    /// generation.
    pub fn read(&self, h: BufHandle) -> (r: Result<&Vec<u8>, PoolError>)
        ensures
            match r {
                Ok(d) => self.valid_handle(h) && d@ == self.slot_data(h),
                Err(e) => e == PoolError::InvalidHandle && !self.valid_handle(h),
            },
    {
        if h.index < self.slots.len() && self.slots[h.index].in_use && self.slots[
            h.index
        ].generation == h.generation {
            Ok(&self.slots[h.index].data)
        } else {
            Err(PoolError::InvalidHandle)
        }
    }

    /// Replaces the bytes behind a valid handle.  On an invalid handle the
    /// pool is unchanged.
    pub fn write(&mut self, h: BufHandle, data: Vec<u8>) -> (r: Result<(), PoolError>)
        ensures
            match r {
                Ok(()) => {
                    &&& old(self).valid_handle(h)
                    &&& final(self)@ == old(self)@.update(
                        h.index as int,
                        PayloadSlot { generation: h.generation, in_use: true, data },
                    )
                },
                Err(e) => {
                    &&& e == PoolError::InvalidHandle
                    &&& !old(self).valid_handle(h)
                    &&& final(self)@ == old(self)@
                },
            },
    {
        if h.index < self.slots.len() && self.slots[h.index].in_use && self.slots[
            h.index
        ].generation == h.generation {
            self.slots.set(h.index, PayloadSlot { generation: h.generation, in_use: true, data });
            Ok(())
        } else {
            Err(PoolError::InvalidHandle)
        }
    }

    /// Frees the slot behind a valid handle and bumps its generation, so the
    /// handle (and any copy of it) stops validating.  Releasing an invalid
    /// or already-released handle fails without mutating the pool.
    pub fn release(&mut self, h: BufHandle) -> (r: Result<(), PoolError>)
        ensures
            match r {
                Ok(()) => {
                    &&& old(self).valid_handle(h)
                    &&& final(self)@ == old(self)@.update(
                        h.index as int,
                        PayloadSlot {
                            generation: (if h.generation == u64::MAX {
                                0
                            } else {
                                (h.generation + 1) as u64
                            }),
                            in_use: false,
                            data: old(self)@[h.index as int].data,
                        },
                    )
                    &&& !final(self).valid_handle(h)
                },
                Err(e) => {
                    &&& e == PoolError::InvalidHandle
                    &&& !old(self).valid_handle(h)
                    &&& final(self)@ == old(self)@
                },
            },
    {
        if h.index < self.slots.len() && self.slots[h.index].in_use && self.slots[
            h.index
        ].generation == h.generation {
            let next_gen: u64 = if h.generation == u64::MAX {
                0
            } else {
                h.generation + 1
            };
            let slot = self.slots.remove(h.index);
            let data = slot.data;
            self.slots.insert(
                h.index,
                PayloadSlot { generation: next_gen, in_use: false, data },
            );
            assert(self.slots@ =~= old(self)@.update(
                h.index as int,
                PayloadSlot { generation: next_gen, in_use: false, data: old(self)@[h.index as int].data },
            ));
            Ok(())
        } else {
            Err(PoolError::InvalidHandle)
        }
    }
}

} // verus!
