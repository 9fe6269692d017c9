//! The heartbeat scheduler: idle, or running one periodic task that sends
//! status snapshots. A session start replaces the running task, a session
//! end stops it; the task in place is always aborted before another runs.

use vstd::prelude::*;
use crate::slot::{Slot, Ticket};

verus! {

/// The scheduler: its slot holds the running task, if any.
#[derive(Clone, Copy, Debug, PartialEq, Eq, Structural)]
pub struct HeartbeatScheduler {
    pub task: Slot,
}

/// The tasks alive after a start's ticket is carried out: the replaced task
/// aborted, the new one spawned.
pub open spec fn alive_after_start(alive: Set<u64>, t: Ticket) -> Set<u64> {
    match t.replaced {
        Some(p) => alive.remove(p).insert(t.id),
        None => alive.insert(t.id),
    }
}

/// The tasks alive after a stop's abort is carried out.
pub open spec fn alive_after_stop(alive: Set<u64>, aborted: Option<u64>) -> Set<u64> {
    match aborted {
        Some(p) => alive.remove(p),
        None => alive,
    }
}

impl HeartbeatScheduler {
    pub open spec fn wf(self) -> bool {
        self.task.wf()
    }

    /// The ticket that a start hands out.
    pub open spec fn start_ticket(self) -> Ticket {
        Ticket { id: self.task.next, replaced: self.task.current }
    }

    /// An idle scheduler.
    pub fn new() -> (r: HeartbeatScheduler)
        ensures
            r.wf(),
            r.task.current is None,
    {
        HeartbeatScheduler { task: Slot::new() }
    }

    /// Whether a task is running.
    pub fn is_running(&self) -> (r: bool)
        ensures
            r == (self.task.current is Some),
    {
        self.task.current.is_some()
    }

    /// The session started: the caller aborts `replaced`, if any, and then
    /// spawns the task `id`, which becomes the running one.
    pub fn start(&mut self) -> (t: Ticket)
        requires
            old(self).wf(),
        ensures
            t == old(self).start_ticket(),
            final(self).task == old(self).task.installed(),
            final(self).task.current == Some(t.id),
            final(self).wf(),
    {
        self.task.install()
    }

    /// The session ended: the caller aborts the task handed back, if any,
    /// and the scheduler is idle.
    pub fn stop(&mut self) -> (r: Option<u64>)
        requires
            old(self).wf(),
        ensures
            r == old(self).task.current,
            final(self).task == old(self).task.cleared(),
            final(self).task.current is None,
            final(self).wf(),
    {
        self.task.take()
    }

    /// Whether task `id` goes on ticking after a tick whose write succeeded
    /// or not: it does while it is the running task, whatever the write did.
    pub fn keep_ticking(&self, id: u64, _write_ok: bool) -> (r: bool)
        ensures
            r == (self.task.current == Some(id)),
    {
        self.task.is_current(id)
    }
}

/// Carrying out what a start hands out keeps the alive tasks equal to the
/// running one: never more than one task.
pub proof fn lemma_start_keeps_one_task(h: HeartbeatScheduler, alive: Set<u64>)
    requires
        h.wf(),
        alive == h.task.live(),
    ensures
        alive_after_start(alive, h.start_ticket()) == h.task.installed().live(),
        h.task.installed().live() == set![h.task.next],
{
    assert(alive_after_start(alive, h.start_ticket()) =~= h.task.installed().live());
}

/// A session start followed at once by a session end, with what each hands
/// out carried out, leaves no task alive and the scheduler idle.
pub proof fn lemma_start_then_stop_leaves_no_task(h: HeartbeatScheduler, alive: Set<u64>)
    requires
        h.wf(),
        alive == h.task.live(),
    ensures
        ({
            let started = h.task.installed();
            let stopped = started.cleared();
            &&& alive_after_stop(alive_after_start(alive, h.start_ticket()), started.current)
                == Set::<u64>::empty()
            &&& stopped.live() == Set::<u64>::empty()
        }),
{
    let started = h.task.installed();
    lemma_start_keeps_one_task(h, alive);
    assert(alive_after_stop(alive_after_start(alive, h.start_ticket()), started.current)
        =~= Set::<u64>::empty());
    assert(started.cleared().live() =~= Set::<u64>::empty());
}

} // verus!
