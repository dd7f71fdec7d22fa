//! Allocation of splice event identifiers.
use vstd::prelude::*;

verus! {

/// Hands out splice event identifiers: 1, 2, 3, ... in allocation order.
///
/// Identifier 0 is never handed out. Callers that share one sequencer between
/// threads hold it behind a lock; `next` takes `&mut self`, so each call sees
/// the effect of every call that returned before it.
pub struct EventId {
    last: u32,
}

impl EventId {
    /// The identifier most recently handed out (0 before the first call).
    pub closed spec fn last(&self) -> nat {
        self.last as nat
    }

    /// Every identifier handed out so far.
    pub open spec fn issued(&self) -> Set<nat> {
        Set::new(|x: nat| 1 <= x <= self.last())
    }

    /// Whether another identifier fits in 32 bits.
    pub open spec fn can_issue(&self, n: nat) -> bool {
        self.last() + n <= u32::MAX as nat
    }

    /// The sequencer after one more identifier is handed out.
    pub closed spec fn after_next(self) -> EventId {
        EventId { last: (self.last + 1) as u32 }
    }

    /// Handing out one more identifier advances the last one by one.
    pub proof fn lemma_after_next(self)
        requires
            self.can_issue(1),
        ensures
            self.after_next().last() == self.last() + 1,
    {
    }

    /// A sequencer that has handed out nothing yet.
    pub fn new() -> (r: EventId)
        ensures
            r.last() == 0,
            r.issued() == Set::<nat>::empty(),
    {
        let r = EventId { last: 0 };
        assert(r.issued() =~= Set::<nat>::empty());
        r
    }

    /// The identifier most recently handed out (0 before the first call).
    pub fn last_issued(&self) -> (r: u32)
        ensures
            r as nat == self.last(),
    {
        self.last
    }

    /// How many identifiers can still be handed out.
    pub fn remaining(&self) -> (r: u32)
        ensures
            r as nat == u32::MAX as nat - self.last(),
    {
        u32::MAX - self.last
    }

    /// Allocates the next identifier.
    ///
    /// The result is one more than the previous result, so it is strictly
    /// greater than, and distinct from, every identifier handed out before.
    pub fn next(&mut self) -> (r: u32)
        requires
            old(self).can_issue(1),
        ensures
            r as nat == old(self).last() + 1,
            final(self).last() == r as nat,
            *final(self) == old(self).after_next(),
            r >= 1,
            forall|x: nat| old(self).issued().contains(x) ==> x < r as nat,
            !old(self).issued().contains(r as nat),
            final(self).issued() == old(self).issued().insert(r as nat),
    {
        self.last = self.last + 1;
        assert(self.issued() =~= old(self).issued().insert(self.last as nat));
        self.last
    }
}

impl Default for EventId {
    fn default() -> (r: EventId)
        ensures
            r.last() == 0,
    {
        EventId::new()
    }
}

} // verus!
