//! The cross-context slot: a synchronized, one-shot, single-item container
//! that moves a resource handle from the initialization context into the
//! interrupt context.

use vstd::prelude::*;

verus! {

/// A witness that the current code runs with interrupt preemption
/// suppressed on this core.  The runtime collaborator provides the real
/// masking mechanism; in this model the token only records that every slot
/// operation happens under that protection, which is what makes a store or
/// a take atomic with respect to the interrupt context.
pub struct CriticalSection {
    witness: (),
}

impl CriticalSection {
    /// Enter a critical section.  Models the runtime primitive that masks
    /// interrupt delivery for the lifetime of the returned token.
    pub fn enter() -> CriticalSection {
        CriticalSection { witness: () }
    }
}

/// A single-item container, created empty, that holds at most one resource
/// handle.  By the hand-off protocol it is written exactly twice in a
/// handle's lifetime: one `store` by the initialization sequence and one
/// successful `take` by the interrupt handler's first invocation; afterwards
/// it stays empty forever.
pub struct Slot<T> {
    value: Option<T>,
}

impl<T> Slot<T> {
    /// The handle currently held, if any.
    pub closed spec fn stored(&self) -> Option<T> {
        self.value
    }

    pub open spec fn is_empty(&self) -> bool {
        self.stored() is None
    }

    /// A slot starts out empty.
    pub fn new() -> (s: Slot<T>)
        ensures
            s.is_empty(),
    {
        Slot { value: None }
    }

    /// Whether the slot currently holds a handle.
    pub fn occupied(&self) -> (r: bool)
        ensures
            r == (self.stored() is Some),
    {
        self.value.is_some()
    }

    /// Store a handle.  The protocol calls this once per slot, from the main
    /// context only, under a critical section; storing into an occupied slot
    /// would discard a live handle, so the contract rules it out.
    pub fn store(&mut self, v: T, _cs: &CriticalSection)
        requires
            old(self).is_empty(),
        ensures
            final(self).stored() == Some(v),
    {
        self.value = Some(v);
    }

    /// Remove and return the handle, leaving the slot empty.  Returns `None`
    /// when the slot was already empty; the hand-off protocol treats that as
    /// a fatal defect and halts rather than proceed without the resource.
    pub fn take(&mut self, _cs: &CriticalSection) -> (r: Option<T>)
        ensures
            final(self).is_empty(),
            r == old(self).stored(),
    {
        self.value.take()
    }
}

} // verus!
