//! The buffer registry: handle to buffer.

use vstd::prelude::*;
use std::collections::BTreeMap;
use crate::ion_error::{IonError, IonResult};
use crate::ion_types::{IonBuffer, IonHandle};

verus! {

broadcast use vstd::std_specs::btree::group_btree_axioms;

/// The registry of live buffers, keyed by handle.
pub struct IonBufferManager {
    buffers: BTreeMap<u32, IonBuffer>,
}

/// Every buffer is filed under its own handle.
pub open spec fn registry_wf(m: Map<u32, IonBuffer>) -> bool {
    forall|k: u32| #[trigger] m.contains_key(k) ==> m[k].handle.0 == k
}

/// No registered buffer loses its `mapped` flag from `before` to `after`.
pub open spec fn mapped_kept(before: Map<u32, IonBuffer>, after: Map<u32, IonBuffer>) -> bool {
    forall|k: u32|
        #[trigger] before.contains_key(k) && after.contains_key(k) && before[k].mapped
            ==> after[k].mapped
}

/// Along a sequence of registry states in which every step keeps the
/// `mapped` flags (as every registry operation does), a buffer that stays
/// registered from state `i` to state `j` and is mapped at `i` is still
/// mapped at `j`.
pub proof fn lemma_mapped_stays(states: Seq<Map<u32, IonBuffer>>, k: u32, i: int, j: int)
    requires
        0 <= i <= j < states.len(),
        forall|n: int| 0 <= n < states.len() - 1 ==> mapped_kept(#[trigger] states[n], states[n + 1]),
        forall|n: int| i <= n <= j ==> (#[trigger] states[n]).contains_key(k),
        states[i][k].mapped,
    ensures
        states[j][k].mapped,
    decreases j - i,
{
    if i < j {
        assert(states[i].contains_key(k) && states[i + 1].contains_key(k));
        assert(mapped_kept(states[i], states[i + 1]));
        lemma_mapped_stays(states, k, i + 1, j);
    }
}

/// The registry after registering `b`: unchanged when its handle is taken.
pub open spec fn register_step(m: Map<u32, IonBuffer>, b: IonBuffer) -> Map<u32, IonBuffer> {
    if m.contains_key(b.handle.0) {
        m
    } else {
        m.insert(b.handle.0, b)
    }
}

/// The registry after unregistering handle `h`.
pub open spec fn unregister_step(m: Map<u32, IonBuffer>, h: u32) -> Map<u32, IonBuffer> {
    m.remove(h)
}

/// One registry operation.
pub enum RegistryOp {
    Register(IonBuffer),
    Unregister(u32),
}

/// The registry after applying `ops` in order to `m`.
pub open spec fn registry_after(m: Map<u32, IonBuffer>, ops: Seq<RegistryOp>) -> Map<u32, IonBuffer>
    decreases ops.len(),
{
    if ops.len() == 0 {
        m
    } else {
        let prev = registry_after(m, ops.drop_last());
        match ops.last() {
            RegistryOp::Register(b) => register_step(prev, b),
            RegistryOp::Unregister(h) => unregister_step(prev, h),
        }
    }
}

pub open spec fn count_registers(ops: Seq<RegistryOp>) -> nat
    decreases ops.len(),
{
    if ops.len() == 0 {
        0
    } else {
        count_registers(ops.drop_last()) + if ops.last() is Register {
            1nat
        } else {
            0nat
        }
    }
}

pub open spec fn count_unregisters(ops: Seq<RegistryOp>) -> nat
    decreases ops.len(),
{
    if ops.len() == 0 {
        0
    } else {
        count_unregisters(ops.drop_last()) + if ops.last() is Unregister {
            1nat
        } else {
            0nat
        }
    }
}

/// Every handle registered by `ops` differs from the others.
pub open spec fn unique_register_handles(ops: Seq<RegistryOp>) -> bool {
    forall|i: int, j: int|
        0 <= i < j < ops.len() && #[trigger] ops[i] is Register && #[trigger] ops[j] is Register
            ==> ops[i]->Register_0.handle.0 != ops[j]->Register_0.handle.0
}

/// Every unregister in `ops` names a handle registered at that point.
pub open spec fn unregisters_present(ops: Seq<RegistryOp>) -> bool {
    forall|i: int|
        0 <= i < ops.len() && #[trigger] ops[i] is Unregister ==> registry_after(
            Map::empty(),
            ops.take(i),
        ).contains_key(ops[i]->Unregister_0)
}

proof fn lemma_registry_keys(ops: Seq<RegistryOp>, k: u32)
    requires
        registry_after(Map::empty(), ops).contains_key(k),
    ensures
        exists|i: int| 0 <= i < ops.len() && #[trigger] ops[i] is Register && ops[i]->Register_0.handle.0 == k,
    decreases ops.len(),
{
    let prev = registry_after(Map::empty(), ops.drop_last());
    if ops.len() > 0 {
        if prev.contains_key(k) {
            lemma_registry_keys(ops.drop_last(), k);
            let i = choose|i: int| 0 <= i < ops.drop_last().len() && #[trigger] ops.drop_last()[i] is Register && ops.drop_last()[i]->Register_0.handle.0 == k;
            assert(ops[i] == ops.drop_last()[i]);
        } else {
            assert(ops[ops.len() - 1] == ops.last());
        }
    }
}

/// Unregistrations in `ops` that find their handle registered (those that
/// return `Ok`), starting from an empty registry.
pub open spec fn count_removals(ops: Seq<RegistryOp>) -> nat
    decreases ops.len(),
{
    if ops.len() == 0 {
        0
    } else {
        count_removals(ops.drop_last()) + match ops.last() {
            RegistryOp::Unregister(h) => if registry_after(Map::empty(), ops.drop_last()).contains_key(
                h,
            ) {
                1nat
            } else {
                0nat
            },
            _ => 0nat,
        }
    }
}

/// Starting from an empty registry, a sequence of registrations with
/// distinct handles and of unregistrations leaves as many buffers as were
/// registered minus those successfully unregistered.
pub proof fn lemma_registry_size(ops: Seq<RegistryOp>)
    requires
        unique_register_handles(ops),
    ensures
        registry_after(Map::empty(), ops).dom().finite(),
        registry_after(Map::empty(), ops).len() + count_removals(ops) == count_registers(ops),
    decreases ops.len(),
{
    if ops.len() > 0 {
        let init = ops.drop_last();
        assert forall|i: int, j: int|
            0 <= i < j < init.len() && #[trigger] init[i] is Register && #[trigger] init[j] is Register
                implies init[i]->Register_0.handle.0 != init[j]->Register_0.handle.0 by {
            assert(init[i] == ops[i] && init[j] == ops[j]);
        }
        lemma_registry_size(init);
        let prev = registry_after(Map::empty(), init);
        let n = ops.len() - 1;
        assert(ops.last() == ops[n]);
        match ops.last() {
            RegistryOp::Register(b) => {
                if prev.contains_key(b.handle.0) {
                    lemma_registry_keys(init, b.handle.0);
                    let i = choose|i: int| 0 <= i < init.len() && #[trigger] init[i] is Register && init[i]->Register_0.handle.0 == b.handle.0;
                    assert(init[i] == ops[i]);
                    assert(false);
                }
            },
            RegistryOp::Unregister(h) => {
                if !prev.contains_key(h) {
                    assert(prev.remove(h) =~= prev);
                }
            },
        }
    }
}

/// When every unregistration names a registered handle, every one of them
/// counts as a removal.
pub proof fn lemma_removals_when_present(ops: Seq<RegistryOp>)
    requires
        unregisters_present(ops),
    ensures
        count_removals(ops) == count_unregisters(ops),
    decreases ops.len(),
{
    if ops.len() > 0 {
        let init = ops.drop_last();
        assert forall|i: int| 0 <= i < init.len() && #[trigger] init[i] is Unregister implies registry_after(
            Map::empty(),
            init.take(i),
        ).contains_key(init[i]->Unregister_0) by {
            assert(init[i] == ops[i]);
            assert(init.take(i) =~= ops.take(i));
        }
        lemma_removals_when_present(init);
        let n = ops.len() - 1;
        assert(ops.last() == ops[n]);
        assert(ops.take(n) =~= init);
    }
}

impl IonBufferManager {
    /// The registered buffers, by handle value.
    pub closed spec fn buffers(&self) -> Map<u32, IonBuffer> {
        self.buffers@
    }

    pub open spec fn wf(&self) -> bool {
        &&& registry_wf(self.buffers())
        &&& self.buffers().dom().finite()
    }

    /// An empty registry.
    pub fn new() -> (r: IonBufferManager)
        ensures
            r.wf(),
            r.buffers() == Map::<u32, IonBuffer>::empty(),
    {
        IonBufferManager { buffers: BTreeMap::new() }
    }

    /// Registers `buffer` under its handle; `BufferExists` when the handle
    /// is taken.
    pub fn register_buffer(&mut self, buffer: IonBuffer) -> (r: IonResult<()>)
        requires
            old(self).wf(),
        ensures
            final(self).wf(),
            final(self).buffers() == register_step(old(self).buffers(), buffer),
            mapped_kept(old(self).buffers(), final(self).buffers()),
            old(self).buffers().contains_key(buffer.handle.0) ==> r == Err::<(), IonError>(
                IonError::BufferExists,
            ),
            !old(self).buffers().contains_key(buffer.handle.0) ==> r is Ok && final(self).buffers().len()
                == old(self).buffers().len() + 1,
    {
        let handle = buffer.handle.0;
        if self.buffers.contains_key(&handle) {
            return Err(IonError::BufferExists);
        }
        self.buffers.insert(handle, buffer);
        Ok(())
    }

    /// Removes and returns the buffer with `handle`; `BufferNotFound` when
    /// there is none.
    pub fn unregister_buffer(&mut self, handle: IonHandle) -> (r: IonResult<IonBuffer>)
        requires
            old(self).wf(),
        ensures
            final(self).wf(),
            final(self).buffers() == unregister_step(old(self).buffers(), handle.0),
            mapped_kept(old(self).buffers(), final(self).buffers()),
            old(self).buffers().contains_key(handle.0) ==> r == Ok::<IonBuffer, IonError>(
                old(self).buffers()[handle.0],
            ) && final(self).buffers().len() == old(self).buffers().len() - 1,
            !old(self).buffers().contains_key(handle.0) ==> r == Err::<IonBuffer, IonError>(
                IonError::BufferNotFound,
            ),
    {
        match self.buffers.remove(&handle.0) {
            Some(b) => Ok(b),
            None => Err(IonError::BufferNotFound),
        }
    }

    /// The buffer with `handle`; `BufferNotFound` when there is none.
    pub fn get_buffer(&self, handle: IonHandle) -> (r: IonResult<IonBuffer>)
        ensures
            self.buffers().contains_key(handle.0) ==> r == Ok::<IonBuffer, IonError>(
                self.buffers()[handle.0],
            ),
            !self.buffers().contains_key(handle.0) ==> r == Err::<IonBuffer, IonError>(
                IonError::BufferNotFound,
            ),
    {
        match self.buffers.get(&handle.0) {
            Some(b) => Ok(*b),
            None => Err(IonError::BufferNotFound),
        }
    }

    /// Takes one more reference on the buffer with `handle`; returns the new
    /// count.
    pub fn inc_buffer_ref(&mut self, handle: IonHandle) -> (r: IonResult<usize>)
        requires
            old(self).wf(),
        ensures
            final(self).wf(),
            mapped_kept(old(self).buffers(), final(self).buffers()),
            !old(self).buffers().contains_key(handle.0) ==> r == Err::<usize, IonError>(
                IonError::BufferNotFound,
            ) && final(self).buffers() == old(self).buffers(),
            old(self).buffers().contains_key(handle.0) ==> {
                let b = old(self).buffers()[handle.0];
                let n = if b.ref_count < usize::MAX {
                    (b.ref_count + 1) as usize
                } else {
                    b.ref_count
                };
                &&& r == Ok::<usize, IonError>(n)
                &&& final(self).buffers() == old(self).buffers().insert(
                    handle.0,
                    IonBuffer { ref_count: n, ..b },
                )
            },
    {
        match self.buffers.get(&handle.0) {
            Some(b) => {
                let mut buffer = *b;
                let n = buffer.inc_ref();
                self.buffers.insert(handle.0, buffer);
                Ok(n)
            },
            None => Err(IonError::BufferNotFound),
        }
    }

    /// Drops one reference on the buffer with `handle` (never below zero);
    /// returns the new count. The buffer stays registered at zero.
    pub fn dec_buffer_ref(&mut self, handle: IonHandle) -> (r: IonResult<usize>)
        requires
            old(self).wf(),
        ensures
            final(self).wf(),
            mapped_kept(old(self).buffers(), final(self).buffers()),
            !old(self).buffers().contains_key(handle.0) ==> r == Err::<usize, IonError>(
                IonError::BufferNotFound,
            ) && final(self).buffers() == old(self).buffers(),
            old(self).buffers().contains_key(handle.0) ==> {
                let b = old(self).buffers()[handle.0];
                let n = if b.ref_count > 0 {
                    (b.ref_count - 1) as usize
                } else {
                    0
                };
                &&& r == Ok::<usize, IonError>(n)
                &&& final(self).buffers() == old(self).buffers().insert(
                    handle.0,
                    IonBuffer { ref_count: n, ..b },
                )
            },
    {
        match self.buffers.get(&handle.0) {
            Some(b) => {
                let mut buffer = *b;
                let n = buffer.dec_ref();
                self.buffers.insert(handle.0, buffer);
                Ok(n)
            },
            None => Err(IonError::BufferNotFound),
        }
    }

    /// Marks the buffer with `handle` as mapped and returns it as it now
    /// stands; `BufferNotFound` when there is none.
    pub fn set_buffer_mapped(&mut self, handle: IonHandle) -> (r: IonResult<IonBuffer>)
        requires
            old(self).wf(),
        ensures
            final(self).wf(),
            mapped_kept(old(self).buffers(), final(self).buffers()),
            !old(self).buffers().contains_key(handle.0) ==> r == Err::<IonBuffer, IonError>(
                IonError::BufferNotFound,
            ) && final(self).buffers() == old(self).buffers(),
            old(self).buffers().contains_key(handle.0) ==> {
                let b = IonBuffer { mapped: true, ..old(self).buffers()[handle.0] };
                &&& r == Ok::<IonBuffer, IonError>(b)
                &&& final(self).buffers() == old(self).buffers().insert(handle.0, b)
            },
    {
        match self.buffers.get(&handle.0) {
            Some(b) => {
                let mut buffer = *b;
                buffer.set_mapped();
                self.buffers.insert(handle.0, buffer);
                Ok(buffer)
            },
            None => Err(IonError::BufferNotFound),
        }
    }

    /// Number of registered buffers.
    pub fn buffer_count(&self) -> (r: usize)
        ensures
            r == self.buffers().len(),
    {
        self.buffers.len()
    }

    /// Handles of the registered buffers: one entry per buffer, every
    /// registered handle among them.
    pub fn debug_list_handles(&self) -> (r: Vec<IonHandle>)
        ensures
            r@.len() == self.buffers().len(),
            forall|k: u32| #[trigger] self.buffers().contains_key(k) ==> exists|i: int|
                0 <= i < r@.len() && r@[i].0 == k,
    {
        let mut out: Vec<IonHandle> = Vec::new();
        for k in iter: self.buffers.keys()
            invariant
                out@.len() == iter.index(),
                forall|i: int| 0 <= i < out@.len() ==> out@[i].0 == *iter.seq()[i],
                iter.seq().len() == self.buffers().len(),
                forall|k: u32| #[trigger] self.buffers().contains_key(k) ==> exists|i: int|
                    0 <= i < iter.seq().len() && *iter.seq()[i] == k,
        {
            out.push(IonHandle(*k));
        }
        out
    }

    /// Forgets every buffer.
    pub fn cleanup_all(&mut self)
        ensures
            final(self).wf(),
            final(self).buffers() == Map::<u32, IonBuffer>::empty(),
    {
        self.buffers.clear();
    }
}

} // verus!
