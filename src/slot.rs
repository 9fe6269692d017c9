//! A slot that holds at most one live handle of a kind: a query's
//! cancellation token or a running task. Installing a new handle always
//! hands back the previous one, to be cancelled or aborted first.

use vstd::prelude::*;

verus! {

/// Handles are numbered; `current` is the live one, `next` the number that
/// the next installed handle gets.
#[derive(Clone, Copy, Debug, PartialEq, Eq, Structural)]
pub struct Slot {
    pub current: Option<u64>,
    pub next: u64,
}

/// A handle just installed, and the one it replaced.
#[derive(Clone, Copy, Debug, PartialEq, Eq, Structural)]
pub struct Ticket {
    pub id: u64,
    pub replaced: Option<u64>,
}

/// The number after `n`, wrapping to 0 after the largest.
pub open spec fn next_id(n: u64) -> u64 {
    if n == u64::MAX {
        0
    } else {
        (n + 1) as u64
    }
}

impl Slot {
    /// The live handle is never the number that the next one will get.
    pub open spec fn wf(self) -> bool {
        self.current matches Some(c) ==> c != self.next
    }

    /// The handles alive while this slot is honoured.
    pub open spec fn live(self) -> Set<u64> {
        match self.current {
            Some(c) => set![c],
            None => Set::empty(),
        }
    }

    /// The slot after a new handle is installed.
    pub open spec fn installed(self) -> Slot {
        Slot { current: Some(self.next), next: next_id(self.next) }
    }

    /// The slot after its handle is taken out.
    pub open spec fn cleared(self) -> Slot {
        Slot { current: None, next: self.next }
    }

    /// An empty slot.
    pub fn new() -> (r: Slot)
        ensures
            r.wf(),
            r.current is None,
    {
        Slot { current: None, next: 0 }
    }

    /// Installs a new handle and hands back the one it replaces, which the
    /// caller must cancel.
    pub fn install(&mut self) -> (t: Ticket)
        requires
            old(self).wf(),
        ensures
            *final(self) == old(self).installed(),
            final(self).wf(),
            t.id == old(self).next,
            t.replaced == old(self).current,
            final(self).current == Some(t.id),
            t.replaced matches Some(p) ==> p != t.id,
    {
        let id = self.next;
        let replaced = self.current;
        self.next = if id == u64::MAX {
            0
        } else {
            id + 1
        };
        self.current = Some(id);
        Ticket { id, replaced }
    }

    /// Takes the live handle out, if any, for the caller to cancel.
    pub fn take(&mut self) -> (r: Option<u64>)
        requires
            old(self).wf(),
        ensures
            r == old(self).current,
            *final(self) == old(self).cleared(),
            final(self).wf(),
    {
        let r = self.current;
        self.current = None;
        r
    }

    /// Whether `id` is the live handle.
    pub fn is_current(&self, id: u64) -> (r: bool)
        ensures
            r == (self.current == Some(id)),
    {
        match self.current {
            Some(c) => c == id,
            None => false,
        }
    }

    /// Takes the handle `id` out if it is the live one: the result of a
    /// query is applied only then. A superseded `id` leaves the slot as it is.
    pub fn complete(&mut self, id: u64) -> (r: bool)
        requires
            old(self).wf(),
        ensures
            r == (old(self).current == Some(id)),
            r ==> *final(self) == old(self).cleared(),
            !r ==> *final(self) == *old(self),
            final(self).wf(),
    {
        if self.is_current(id) {
            self.current = None;
            true
        } else {
            false
        }
    }
}

} // verus!
