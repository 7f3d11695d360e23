//! The per-core cooperative scheduler.
//!
//! One scheduler runs on one core and never shares its tasks with another.
//! Registered pipelines are driven in registration order, one full cycle
//! each per loop iteration; nothing preempts a cycle. Cancellation is
//! cooperative: a stop request is a flag, observed at the head of the next
//! iteration, so every in-flight batch completes before the loop exits.
//! The embedding program owns the thread that repeatedly calls
//! [`Scheduler::run_cycle`] until the stopped state is reached.

use vstd::prelude::*;

use crate::errors::TaskError;
use crate::pipeline::{cycle_rel, Pipeline};
use crate::queue::{PacketRx, PacketTx};

verus! {

/// Lifecycle of a scheduler: constructed with no tasks, then looping,
/// then stopped for good.
#[derive(Clone, Copy, Debug, PartialEq, Eq, Structural)]
pub enum SchedulerState {
    Idle,
    Running,
    Stopped,
}

/// The cooperative runner of the pipelines registered for one core.
pub struct Scheduler<Rx, Tx> {
    state: SchedulerState,
    stop_requested: bool,
    tasks: Vec<Pipeline<Rx, Tx>>,
}

impl<Rx: PacketRx, Tx: PacketTx> Scheduler<Rx, Tx> {
    pub closed spec fn spec_state(self) -> SchedulerState {
        self.state
    }

    pub closed spec fn spec_stop_requested(self) -> bool {
        self.stop_requested
    }

    pub closed spec fn spec_tasks(self) -> Seq<Pipeline<Rx, Tx>> {
        self.tasks@
    }

    pub open spec fn wf(self) -> bool {
        forall|i: int|
            0 <= i < self.spec_tasks().len() ==> (#[trigger] self.spec_tasks()[i]).wf()
    }

    /// A fresh scheduler: idle, no tasks, no stop request.
    pub fn new() -> (r: Scheduler<Rx, Tx>)
        ensures
            r.wf(),
            r.spec_state() is Idle,
            !r.spec_stop_requested(),
            r.spec_tasks().len() == 0,
    {
        Scheduler { state: SchedulerState::Idle, stop_requested: false, tasks: Vec::new() }
    }

    pub fn state(&self) -> (r: SchedulerState)
        ensures
            r == self.spec_state(),
    {
        self.state
    }

    pub fn stop_requested(&self) -> (r: bool)
        ensures
            r == self.spec_stop_requested(),
    {
        self.stop_requested
    }

    pub fn num_tasks(&self) -> (r: usize)
        ensures
            r == self.spec_tasks().len(),
    {
        self.tasks.len()
    }

    /// Borrow a registered pipeline, e.g. to read its counters.
    pub fn task_ref(&self, i: usize) -> (r: &Pipeline<Rx, Tx>)
        requires
            i < self.spec_tasks().len(),
        ensures
            *r == self.spec_tasks()[i as int],
    {
        &self.tasks[i]
    }

    /// Register one more pipeline. Tasks may be added before the loop
    /// starts and appended while it runs, but never after it has stopped.
    pub fn add_task(&mut self, p: Pipeline<Rx, Tx>) -> (r: Result<(), TaskError>)
        requires
            old(self).wf(),
            p.wf(),
        ensures
            final(self).wf(),
            final(self).spec_state() == old(self).spec_state(),
            final(self).spec_stop_requested() == old(self).spec_stop_requested(),
            old(self).spec_state() is Stopped ==> r == Err::<(), TaskError>(
                TaskError::SchedulerStopped,
            ) && final(self).spec_tasks() == old(self).spec_tasks(),
            !(old(self).spec_state() is Stopped) ==> r == Ok::<(), TaskError>(())
                && final(self).spec_tasks() == old(self).spec_tasks().push(p),
    {
        match self.state {
            SchedulerState::Stopped => {
                proof {
                    lemma_tasks_wf_unchanged(*old(self), *self);
                }
                Err(TaskError::SchedulerStopped)
            },
            _ => {
                self.tasks.push(p);
                proof {
                    assert forall|i: int|
                        0 <= i < self.spec_tasks().len() implies (
                    #[trigger] self.spec_tasks()[i]).wf() by {
                        if i < old(self).spec_tasks().len() {
                            assert(self.spec_tasks()[i] == old(self).spec_tasks()[i]);
                        } else {
                            assert(self.spec_tasks()[i] == p);
                        }
                    }
                }
                Ok(())
            },
        }
    }

    /// Leave `Idle` and begin looping.
    pub fn start(&mut self)
        requires
            old(self).wf(),
            old(self).spec_state() is Idle,
        ensures
            final(self).wf(),
            final(self).spec_state() is Running,
            final(self).spec_stop_requested() == old(self).spec_stop_requested(),
            final(self).spec_tasks() == old(self).spec_tasks(),
    {
        self.state = SchedulerState::Running;
        proof {
            lemma_tasks_wf_unchanged(*old(self), *self);
        }
    }

    /// Ask the loop to stop. The flag is observed at the head of the next
    /// cycle; the cycle already in flight completes first.
    pub fn request_stop(&mut self)
        requires
            old(self).wf(),
        ensures
            final(self).wf(),
            final(self).spec_stop_requested(),
            final(self).spec_state() == old(self).spec_state(),
            final(self).spec_tasks() == old(self).spec_tasks(),
    {
        self.stop_requested = true;
        proof {
            lemma_tasks_wf_unchanged(*old(self), *self);
        }
    }

    /// One full loop iteration.
    ///
    /// If a stop was requested, the scheduler observes it here — within one
    /// cycle of the request — runs nothing, and reaches `Stopped` for good.
    /// Otherwise every registered pipeline executes exactly one cycle, in
    /// registration order.
    pub fn run_cycle(&mut self)
        requires
            old(self).wf(),
            old(self).spec_state() is Running,
        ensures
            final(self).wf(),
            final(self).spec_stop_requested() == old(self).spec_stop_requested(),
            old(self).spec_stop_requested() ==> {
                &&& final(self).spec_state() is Stopped
                &&& final(self).spec_tasks() == old(self).spec_tasks()
            },
            !old(self).spec_stop_requested() ==> {
                &&& final(self).spec_state() is Running
                &&& final(self).spec_tasks().len() == old(self).spec_tasks().len()
                &&& forall|i: int|
                    0 <= i < old(self).spec_tasks().len() ==> cycle_rel(
                        old(self).spec_tasks()[i],
                        #[trigger] final(self).spec_tasks()[i],
                    )
            },
    {
        if self.stop_requested {
            self.state = SchedulerState::Stopped;
            proof {
                lemma_tasks_wf_unchanged(*old(self), *self);
            }
            return ;
        }
        let n = self.tasks.len();
        let mut k: usize = 0;
        while k < n
            invariant
                k <= n,
                self.tasks@.len() == n,
                n == old(self).spec_tasks().len(),
                self.state == old(self).spec_state(),
                self.stop_requested == old(self).spec_stop_requested(),
                forall|j: int|
                    0 <= j < n - k ==> (#[trigger] self.tasks@[j]) == old(self).spec_tasks()[k + j],
                forall|j: int|
                    n - k <= j < n ==> cycle_rel(
                        old(self).spec_tasks()[j - (n - k)],
                        #[trigger] self.tasks@[j],
                    ),
                old(self).wf(),
            decreases n - k,
        {
            let mut t = self.tasks.remove(0);
            t.run_once();
            self.tasks.push(t);
            k = k + 1;
        }
    }
}

/// Two scheduler values with the same task list are equally well-formed.
proof fn lemma_tasks_wf_unchanged<Rx: PacketRx, Tx: PacketTx>(
    s0: Scheduler<Rx, Tx>,
    s1: Scheduler<Rx, Tx>,
)
    requires
        s0.wf(),
        s1.spec_tasks() == s0.spec_tasks(),
    ensures
        s1.wf(),
{
    assert forall|i: int|
        0 <= i < s1.spec_tasks().len() implies (#[trigger] s1.spec_tasks()[i]).wf() by {
        assert(s1.spec_tasks()[i] == s0.spec_tasks()[i]);
    }
}

} // verus!
