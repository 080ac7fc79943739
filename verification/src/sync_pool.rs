//! Allocation and bulk teardown of synchronization primitives.
//!
//! The pool hands out semaphores and fences and remembers every one of
//! them, so that a renderer can tear all of them down in one call at the
//! end of its life. No partial release is offered. The handle lists live
//! in `smallvec` vectors, spilling to the heap only past their inline
//! capacity; the library reads and writes them through the trusted
//! wrappers below.
use crate::device::{Device, ObjectKind};
use crate::types::Handle;
use smallvec::SmallVec;
use vstd::prelude::*;

verus! {

/// A handle list stored in a `smallvec` vector, spilling to the heap only
/// past its inline capacity. Opaque to the verifier; the library reads and
/// writes it through the trusted wrappers below.
#[verifier::external_body]
pub struct HandleVec {
    inner: SmallVec<[Handle; 8]>,
}

/// The handles a pool vector holds, in the order they were pushed.
pub uninterp spec fn small_vec_handles(v: HandleVec) -> Seq<usize>;

/// Relies on `smallvec::SmallVec::new`: an empty vector.
#[verifier::external_body]
fn handle_vec_new() -> (r: HandleVec)
    ensures
        small_vec_handles(r) == Seq::<usize>::empty(),
{
    HandleVec { inner: SmallVec::new() }
}

/// Relies on `smallvec::SmallVec::push`: appends one element at the end.
#[verifier::external_body]
fn handle_vec_push(v: &mut HandleVec, x: usize)
    ensures
        small_vec_handles(*final(v)) == small_vec_handles(*old(v)).push(x),
{
    v.inner.push(x)
}

/// Relies on `smallvec::SmallVec::len`: the number of elements held.
#[verifier::external_body]
fn handle_vec_len(v: &HandleVec) -> (r: usize)
    ensures
        r == small_vec_handles(*v).len(),
{
    v.inner.len()
}

/// Relies on `smallvec`'s `Deref` to a slice and slice indexing: the
/// element at position `i`.
#[verifier::external_body]
fn handle_vec_get(v: &HandleVec, i: usize) -> (r: usize)
    requires
        i < small_vec_handles(*v).len(),
    ensures
        r == small_vec_handles(*v)[i as int],
{
    v.inner[i]
}

/// Relies on `smallvec::SmallVec::clear`: removes every element.
#[verifier::external_body]
fn handle_vec_clear(v: &mut HandleVec)
    ensures
        small_vec_handles(*final(v)) == Seq::<usize>::empty(),
{
    v.inner.clear()
}

/// Tracks every semaphore and fence created through it, for bulk release.
pub struct SyncPool {
    semaphores: HandleVec,
    fences: HandleVec,
}

impl SyncPool {
    /// The tracked semaphores, in creation order.
    pub closed spec fn semaphores(self) -> Seq<Handle> {
        small_vec_handles(self.semaphores)
    }

    /// The tracked fences, in creation order.
    pub closed spec fn fences(self) -> Seq<Handle> {
        small_vec_handles(self.fences)
    }

    /// An empty pool.
    pub fn new() -> (r: SyncPool)
        ensures
            r.semaphores() == Seq::<Handle>::empty(),
            r.fences() == Seq::<Handle>::empty(),
    {
        SyncPool { semaphores: handle_vec_new(), fences: handle_vec_new() }
    }

    /// Creates a semaphore on the device and tracks it.
    pub fn semaphore(&mut self, device: &mut Device) -> (h: Handle)
        requires
            old(device).wf(),
        ensures
            final(device).wf(),
            h == old(device).plain@.len(),
            final(device).plain@ == old(device).plain@.push(ObjectKind::Semaphore),
            final(self).semaphores() == old(self).semaphores().push(h),
            final(self).fences() == old(self).fences(),
            final(device).buffers@ == old(device).buffers@,
            final(device).images@ == old(device).images@,
            final(device).command_buffers@ == old(device).command_buffers@,
            final(device).submissions@ == old(device).submissions@,
            final(device).presents@ == old(device).presents@,
            final(device).surface_generation == old(device).surface_generation,
    {
        let h = device.create_object(ObjectKind::Semaphore);
        handle_vec_push(&mut self.semaphores, h);
        h
    }

    /// Creates a fence on the device — signaled exactly when asked — and
    /// tracks it.
    pub fn fence(&mut self, device: &mut Device, signaled: bool) -> (h: Handle)
        requires
            old(device).wf(),
        ensures
            final(device).wf(),
            h == old(device).plain@.len(),
            final(device).plain@ == old(device).plain@.push((ObjectKind::Fence { signaled })),
            final(self).fences() == old(self).fences().push(h),
            final(self).semaphores() == old(self).semaphores(),
            final(device).buffers@ == old(device).buffers@,
            final(device).images@ == old(device).images@,
            final(device).command_buffers@ == old(device).command_buffers@,
            final(device).submissions@ == old(device).submissions@,
            final(device).presents@ == old(device).presents@,
            final(device).surface_generation == old(device).surface_generation,
    {
        let h = device.create_object(ObjectKind::Fence { signaled });
        handle_vec_push(&mut self.fences, h);
        h
    }

    /// Releases every tracked primitive and clears the pool: the returned
    /// handles — every tracked semaphore, then every tracked fence — are
    /// what the driver must now destroy.
    pub fn destroy_all(&mut self) -> (r: Vec<Handle>)
        ensures
            final(self).semaphores() == Seq::<Handle>::empty(),
            final(self).fences() == Seq::<Handle>::empty(),
            r@ == old(self).semaphores() + old(self).fences(),
    {
        let mut r: Vec<Handle> = Vec::new();
        let sem_count = handle_vec_len(&self.semaphores);
        let mut i: usize = 0;
        while i < sem_count
            invariant
                0 <= i <= sem_count,
                sem_count == self.semaphores().len(),
                self == old(self),
                r@ == self.semaphores().take(i as int),
            decreases sem_count - i,
        {
            let h = handle_vec_get(&self.semaphores, i);
            r.push(h);
            proof {
                assert(r@ =~= self.semaphores().take(i as int + 1));
            }
            i += 1;
        }
        let fence_count = handle_vec_len(&self.fences);
        let mut j: usize = 0;
        proof {
            assert(old(self).semaphores().take(sem_count as int) =~= old(self).semaphores());
        }
        while j < fence_count
            invariant
                0 <= j <= fence_count,
                fence_count == self.fences().len(),
                self == old(self),
                r@ == old(self).semaphores() + self.fences().take(j as int),
            decreases fence_count - j,
        {
            let h = handle_vec_get(&self.fences, j);
            r.push(h);
            proof {
                assert(r@ =~= old(self).semaphores() + self.fences().take(j as int + 1));
            }
            j += 1;
        }
        proof {
            assert(old(self).fences().take(fence_count as int) =~= old(self).fences());
        }
        handle_vec_clear(&mut self.semaphores);
        handle_vec_clear(&mut self.fences);
        r
    }
}

} // verus!
