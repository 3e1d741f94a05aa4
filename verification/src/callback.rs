//! The one-shot slot for the initialization callback: an owned, single-use
//! closure is stashed here before the foreign start call and taken out at
//! most once by the trampoline the foreign runtime invokes, however many
//! times that trampoline might be entered.

use vstd::prelude::*;

verus! {

/// A slot holding an owned, single-use initialization callback. The slot
/// is filled once, before the foreign start call, and `take` empties it:
/// the first take hands the callback out, every later take hands out
/// nothing, so the callback can run at most once.
pub struct PendingCallback<F> {
    slot: Option<F>,
}

impl<F> PendingCallback<F> {
    /// What the slot currently holds.
    pub closed spec fn spec_slot(&self) -> Option<F> {
        self.slot
    }

    /// A slot holding the given callback.
    pub fn new(f: F) -> (r: Self)
        ensures
            r.spec_slot() == Some(f),
    {
        Self { slot: Some(f) }
    }

    /// Takes whatever the slot holds, leaving it empty. On a filled slot
    /// this hands the callback out; on an emptied slot it hands out
    /// nothing, so a second take after a first never yields the callback
    /// again.
    pub fn take(&mut self) -> (r: Option<F>)
        ensures
            r == old(self).spec_slot(),
            final(self).spec_slot() is None,
    {
        self.slot.take()
    }
}

} // verus!
