//! The order in which submitted work is run.
//!
//! Callers submit units of work and go on; one worker takes them and runs
//! them one at a time, in the order in which they arrived, so that no two
//! requests are on their way to a source at once. After a stop the worker
//! still runs what was queued before it, and ends only with an empty queue.
//!
//! A [`Dispatcher`] keeps the queue. The worker of the program around this
//! library asks it for the next unit and runs it; how results travel back to
//! callers is the program's matter.

use vstd::prelude::*;
use std::collections::VecDeque;

verus! {

/// What the worker does next.
#[derive(Debug, PartialEq, Eq)]
pub enum WorkerStep<T> {
    /// Run this unit.
    Run(T),
    /// Nothing is queued: wait for a submission.
    Idle,
    /// Nothing is queued and a stop was asked for: end.
    Stopped,
}

/// The model of a dispatcher: the units that wait, oldest first, and
/// whether a stop was asked for.
pub struct DispatcherView<T> {
    pub pending: Seq<T>,
    pub stopping: bool,
}

/// Something that is done to a dispatcher.
pub enum Operation<T> {
    Submit(T),
    Stop,
    Next,
    Abort,
}

/// The queue of work for one worker.
pub struct Dispatcher<T> {
    queue: VecDeque<T>,
    stopping: bool,
}

impl<T> View for Dispatcher<T> {
    type V = DispatcherView<T>;

    closed spec fn view(&self) -> DispatcherView<T> {
        DispatcherView { pending: self.queue@, stopping: self.stopping }
    }
}

/// The dispatcher after `op`.
pub open spec fn after<T>(d: DispatcherView<T>, op: Operation<T>) -> DispatcherView<T> {
    match op {
        Operation::Submit(unit) => if d.stopping {
            d
        } else {
            DispatcherView { pending: d.pending.push(unit), ..d }
        },
        Operation::Stop => DispatcherView { stopping: true, ..d },
        Operation::Next => if d.pending.len() > 0 {
            DispatcherView { pending: d.pending.drop_first(), ..d }
        } else {
            d
        },
        Operation::Abort => DispatcherView { pending: Seq::empty(), stopping: true },
    }
}

/// The dispatcher after the operations `ops`, one after the other.
pub open spec fn after_all<T>(d: DispatcherView<T>, ops: Seq<Operation<T>>) -> DispatcherView<T>
    decreases ops.len(),
{
    if ops.len() == 0 {
        d
    } else {
        after(after_all(d, ops.drop_last()), ops.last())
    }
}

/// The units that `ops` had accepted into an empty dispatcher, in the order
/// of their submission.
pub open spec fn accepted<T>(ops: Seq<Operation<T>>) -> Seq<T>
    decreases ops.len(),
{
    if ops.len() == 0 {
        Seq::empty()
    } else {
        let before = accepted(ops.drop_last());
        match ops.last() {
            Operation::Submit(unit) => if after_all(empty_dispatcher(), ops.drop_last()).stopping {
                before
            } else {
                before.push(unit)
            },
            _ => before,
        }
    }
}

/// The units that `ops` had handed to the worker of an empty dispatcher, in
/// the order in which it got them.
pub open spec fn handed_out<T>(ops: Seq<Operation<T>>) -> Seq<T>
    decreases ops.len(),
{
    if ops.len() == 0 {
        Seq::empty()
    } else {
        let before = handed_out(ops.drop_last());
        let d = after_all(empty_dispatcher(), ops.drop_last());
        match ops.last() {
            Operation::Next => if d.pending.len() > 0 {
                before.push(d.pending[0])
            } else {
                before
            },
            _ => before,
        }
    }
}

/// The units that `ops` had given back to a caller that aborted, in the
/// order of their submission.
pub open spec fn given_back<T>(ops: Seq<Operation<T>>) -> Seq<T>
    decreases ops.len(),
{
    if ops.len() == 0 {
        Seq::empty()
    } else {
        let before = given_back(ops.drop_last());
        let d = after_all(empty_dispatcher(), ops.drop_last());
        match ops.last() {
            Operation::Abort => before + d.pending,
            _ => before,
        }
    }
}

/// A dispatcher with nothing queued and no stop asked for.
pub open spec fn empty_dispatcher<T>() -> DispatcherView<T> {
    DispatcherView { pending: Seq::empty(), stopping: false }
}

/// Units are run in the order in which they were submitted, and none is
/// lost: whatever is done to a dispatcher, the units handed to the worker,
/// then those given back by an abort, then those that still wait are the
/// accepted units in the order of their submission. Once a stop was asked
/// for it stays so.
pub proof fn lemma_first_in_first_out<T>(ops: Seq<Operation<T>>)
    ensures
        handed_out(ops) + given_back(ops) + after_all(empty_dispatcher(), ops).pending
            == accepted(ops),
        given_back(ops).len() > 0 ==> after_all(empty_dispatcher::<T>(), ops).stopping,
    decreases ops.len(),
{
    if ops.len() == 0 {
        assert(handed_out(ops) + given_back(ops) + after_all(empty_dispatcher(), ops).pending
            =~= accepted(ops));
    } else {
        let earlier = ops.drop_last();
        lemma_first_in_first_out(earlier);
        lemma_stop_stays(earlier);
        let d = after_all(empty_dispatcher::<T>(), earlier);
        let h = handed_out(earlier);
        let g = given_back(earlier);
        assert(h + g + d.pending == accepted(earlier));
        match ops.last() {
            Operation::Submit(unit) => {
                if !d.stopping {
                    assert(g.len() == 0);
                    assert(h + g + d.pending.push(unit) =~= (h + g + d.pending).push(unit));
                }
            },
            Operation::Stop => {},
            Operation::Next => {
                if d.pending.len() > 0 {
                    if g.len() > 0 {
                        // An abort has emptied the queue, and nothing is
                        // accepted after it.
                        lemma_nothing_waits_after_abort(earlier);
                    }
                    assert(h.push(d.pending[0]) + g + d.pending.drop_first() =~= h + g
                        + d.pending);
                }
            },
            Operation::Abort => {
                assert(h + (g + d.pending) + Seq::<T>::empty() =~= h + g + d.pending);
            },
        }
    }
}

/// Once a stop was asked for it stays so.
pub proof fn lemma_stop_stays<T>(ops: Seq<Operation<T>>)
    ensures
        ops.len() > 0 && after_all(empty_dispatcher::<T>(), ops.drop_last()).stopping
            ==> after_all(empty_dispatcher::<T>(), ops).stopping,
{
}

/// After an abort nothing waits any more.
pub proof fn lemma_nothing_waits_after_abort<T>(ops: Seq<Operation<T>>)
    ensures
        given_back(ops).len() > 0 ==> after_all(empty_dispatcher::<T>(), ops).pending.len() == 0,
    decreases ops.len(),
{
    if ops.len() > 0 {
        let earlier = ops.drop_last();
        lemma_nothing_waits_after_abort(earlier);
        lemma_first_in_first_out(earlier);
    }
}

impl<T> Dispatcher<T> {
    /// A dispatcher with nothing queued.
    pub fn new() -> (r: Self)
        ensures
            r@ == empty_dispatcher::<T>(),
    {
        Dispatcher { queue: VecDeque::new(), stopping: false }
    }

    /// Number of units that wait.
    pub fn pending(&self) -> (n: usize)
        ensures
            n == self@.pending.len(),
    {
        self.queue.len()
    }

    /// Whether a stop was asked for.
    pub fn is_stopping(&self) -> (r: bool)
        ensures
            r == self@.stopping,
    {
        self.stopping
    }

    /// Queues `unit` behind everything that waits. After a stop nothing is
    /// accepted, and the unit is handed back.
    pub fn submit(&mut self, unit: T) -> (r: Result<(), T>)
        ensures
            final(self)@ == after(old(self)@, Operation::Submit(unit)),
            old(self)@.stopping ==> r == Err::<(), T>(unit),
            !old(self)@.stopping ==> r is Ok,
    {
        if self.stopping {
            Err(unit)
        } else {
            self.queue.push_back(unit);
            Ok(())
        }
    }

    /// Asks the worker to end once the queue is empty.
    pub fn stop(&mut self)
        ensures
            final(self)@ == after(old(self)@, Operation::<T>::Stop),
    {
        self.stopping = true;
    }

    /// What the worker does next: run the unit that has waited longest; with
    /// nothing queued, end if a stop was asked for, and wait if not.
    pub fn next(&mut self) -> (step: WorkerStep<T>)
        ensures
            final(self)@ == after(old(self)@, Operation::<T>::Next),
            match step {
                WorkerStep::Run(unit) => old(self)@.pending.len() > 0 && unit == old(self)@.pending[0],
                WorkerStep::Idle => old(self)@.pending.len() == 0 && !old(self)@.stopping,
                WorkerStep::Stopped => old(self)@.pending.len() == 0 && old(self)@.stopping,
            },
    {
        match self.queue.pop_front() {
            Some(unit) => {
                assert(self.queue@ =~= old(self).queue@.drop_first());
                WorkerStep::Run(unit)
            },
            None => if self.stopping {
                WorkerStep::Stopped
            } else {
                WorkerStep::Idle
            },
        }
    }

    /// Gives up on the units that still wait, for a shutdown that has waited
    /// long enough: they are handed back, oldest first, and the dispatcher
    /// accepts nothing more.
    pub fn abort(&mut self) -> (left: Vec<T>)
        ensures
            final(self)@ == after(old(self)@, Operation::<T>::Abort),
            left@ == old(self)@.pending,
    {
        self.stopping = true;
        let mut left: Vec<T> = Vec::new();
        loop
            invariant
                self.stopping,
                left@ + self.queue@ == old(self).queue@,
            ensures
                self.queue@.len() == 0,
                left@ == old(self).queue@,
            decreases self.queue@.len(),
        {
            let ghost before = self.queue@;
            match self.queue.pop_front() {
                Some(unit) => {
                    left.push(unit);
                    assert(left@ + self.queue@ =~= old(self).queue@);
                },
                None => {
                    assert(left@ =~= left@ + self.queue@);
                    break ;
                },
            }
        }
        assert(self.queue@ =~= Seq::<T>::empty());
        left
    }
}

/// Milliseconds that a shutdown waits for work to end by itself before it
/// aborts the work.
pub const ABORT_AFTER_MS: u32 = 50;

/// Milliseconds after which a shutdown stops waiting altogether.
pub const GIVE_UP_AFTER_MS: u32 = 100;

/// What a shutdown does after it has waited another millisecond for work
/// that has not ended.
#[derive(Clone, Copy, Debug, PartialEq, Eq, Structural)]
pub enum GraceStep {
    /// Wait on.
    Wait,
    /// Abort the work, and wait on for it to end.
    Abort,
    /// Abort the work, and wait no longer.
    GiveUp,
}

/// The step after `waited` milliseconds of waiting: waiting on through the
/// grace period, aborting after it, and giving up at the end.
pub open spec fn grace_step(waited: nat) -> GraceStep {
    if waited > GIVE_UP_AFTER_MS {
        GraceStep::GiveUp
    } else if waited > ABORT_AFTER_MS {
        GraceStep::Abort
    } else {
        GraceStep::Wait
    }
}

/// The bounded wait of a shutdown for work that is still running.
#[derive(Clone, Copy, Debug, PartialEq, Eq)]
pub struct Grace {
    waited: u32,
}

impl Grace {
    /// Milliseconds waited so far.
    pub closed spec fn waited(self) -> nat {
        self.waited as nat
    }

    /// A wait that has not begun.
    pub fn new() -> (r: Self)
        ensures
            r.waited() == 0,
    {
        Grace { waited: 0 }
    }

    /// Takes note that another millisecond was waited, and says what to do.
    /// The wait ends after `GIVE_UP_AFTER_MS` + 1 milliseconds at the latest.
    pub fn after_wait(&mut self) -> (step: GraceStep)
        ensures
            old(self).waited() <= GIVE_UP_AFTER_MS ==> final(self).waited() == old(self).waited()
                + 1,
            old(self).waited() > GIVE_UP_AFTER_MS ==> final(self).waited() == old(self).waited(),
            step == grace_step(final(self).waited()),
    {
        if self.waited <= GIVE_UP_AFTER_MS {
            self.waited = self.waited + 1;
        }
        if self.waited > GIVE_UP_AFTER_MS {
            GraceStep::GiveUp
        } else if self.waited > ABORT_AFTER_MS {
            GraceStep::Abort
        } else {
            GraceStep::Wait
        }
    }
}

} // verus!
