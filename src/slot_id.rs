//! Allocation of slot identities.
use vstd::prelude::*;

verus! {

/// The source of slot identities: every call of [`next_id`] hands out the
/// current value and advances it by one (wrapping at the top of `usize`).
pub struct IdCounter {
    next: usize,
}

impl View for IdCounter {
    type V = usize;

    /// The identity that the next allocation hands out.
    closed spec fn view(&self) -> usize {
        self.next
    }
}

/// The counter's value after one allocation.
pub open spec fn advanced(next: usize) -> usize {
    if next == usize::MAX {
        0
    } else {
        (next + 1) as usize
    }
}

impl IdCounter {
    /// A counter that has handed out nothing yet.
    pub fn new() -> (r: IdCounter)
        ensures
            r@ == 0,
    {
        IdCounter { next: 0 }
    }
}

/// Hands out a fresh slot identity: the counter's current value, after which
/// the counter moves on by one.
pub fn next_id(counter: &mut IdCounter) -> (r: usize)
    ensures
        r == old(counter)@,
        final(counter)@ == advanced(old(counter)@),
{
    let r = counter.next;
    counter.next = counter.next.wrapping_add(1);
    r
}

} // verus!
