//! The top-level context: owns all ports and one scheduler per reserved
//! core, distributes pipeline installation requests across cores, and
//! controls the global start/stop lifecycle.
//!
//! The embedding program pins one thread per reserved core and drives that
//! core's scheduler; it builds each core's pipelines (one installation
//! callback per core, invoked exactly once) out of the port queues assigned
//! to that core and registers them here. A malformed configuration is fatal
//! at startup; after startup nothing a packet does is fatal to the context.

use vstd::prelude::*;

use crate::errors::{ConfigError, TaskError};
use crate::pipeline::Pipeline;
use crate::port::Port;
use crate::queue::{PacketRx, PacketTx};
use crate::scheduler::Scheduler;

verus! {

/// Startup configuration: which cores to reserve and which ports exist.
pub struct Config {
    pub cores: Vec<usize>,
    pub ports: Vec<Port>,
}

/// No core may be reserved twice.
pub open spec fn distinct_cores(cores: Seq<usize>) -> bool {
    forall|a: int, b: int| 0 <= a < b < cores.len() ==> cores[a] != cores[b]
}

/// A configuration is acceptable iff it reserves at least one core and
/// reserves no core twice.
pub open spec fn valid_config(c: Config) -> bool {
    &&& c.cores@.len() > 0
    &&& distinct_cores(c.cores@)
}

/// A pipeline waiting to be handed to the scheduler of one core.
pub struct PendingTask<Rx, Tx> {
    pub core_index: usize,
    pub pipeline: Pipeline<Rx, Tx>,
}

/// The pipelines that a run of the dispatch step owes to the scheduler at
/// `core`: those pending entries bound to it, in registration order.
pub open spec fn pending_for<Rx: PacketRx, Tx: PacketTx>(
    pending: Seq<PendingTask<Rx, Tx>>,
    core: int,
) -> Seq<Pipeline<Rx, Tx>>
    decreases pending.len(),
{
    if pending.len() == 0 {
        Seq::empty()
    } else {
        let rest = pending_for(pending.drop_last(), core);
        if pending.last().core_index == core {
            rest.push(pending.last().pipeline)
        } else {
            rest
        }
    }
}

/// Owner of all ports and schedulers and of the global lifecycle.
pub struct Context<Rx, Tx> {
    ports: Vec<Port>,
    cores: Vec<usize>,
    schedulers: Vec<Scheduler<Rx, Tx>>,
    pending: Vec<PendingTask<Rx, Tx>>,
}

impl<Rx: PacketRx, Tx: PacketTx> Context<Rx, Tx> {
    pub closed spec fn spec_ports(self) -> Seq<Port> {
        self.ports@
    }

    pub closed spec fn spec_cores(self) -> Seq<usize> {
        self.cores@
    }

    pub closed spec fn spec_schedulers(self) -> Seq<Scheduler<Rx, Tx>> {
        self.schedulers@
    }

    pub closed spec fn spec_pending(self) -> Seq<PendingTask<Rx, Tx>> {
        self.pending@
    }

    pub open spec fn wf(self) -> bool {
        &&& self.spec_schedulers().len() == self.spec_cores().len()
        &&& forall|i: int|
            0 <= i < self.spec_schedulers().len() ==> (#[trigger] self.spec_schedulers()[i]).wf()
        &&& forall|i: int|
            0 <= i < self.spec_pending().len() ==> (#[trigger] self.spec_pending()[i]).pipeline.wf()
                && self.spec_pending()[i].core_index < self.spec_schedulers().len()
    }

    /// Record the configured ports and build one idle scheduler per reserved
    /// core. A malformed configuration is fatal: nothing is built and the
    /// error says what was wrong.
    pub fn initialize(config: Config) -> (r: Result<Context<Rx, Tx>, ConfigError>)
        ensures
            r is Ok <==> valid_config(config),
            r matches Ok(ctx) ==> {
                &&& ctx.wf()
                &&& ctx.spec_ports() == config.ports@
                &&& ctx.spec_cores() == config.cores@
                &&& ctx.spec_pending().len() == 0
                &&& ctx.spec_schedulers().len() == config.cores@.len()
                &&& forall|i: int|
                    0 <= i < ctx.spec_schedulers().len() ==> {
                        &&& (#[trigger] ctx.spec_schedulers()[i]).spec_state() is Idle
                        &&& !ctx.spec_schedulers()[i].spec_stop_requested()
                        &&& ctx.spec_schedulers()[i].spec_tasks().len() == 0
                    }
            },
            r == Err::<Context<Rx, Tx>, ConfigError>(ConfigError::NoCores) <==> config.cores@.len()
                == 0,
            r == Err::<Context<Rx, Tx>, ConfigError>(ConfigError::DuplicateCore) <==> (
            config.cores@.len() > 0 && !distinct_cores(config.cores@)),
    {
        let n = config.cores.len();
        if n == 0 {
            return Err(ConfigError::NoCores);
        }
        let mut i: usize = 0;
        while i < n
            invariant
                i <= n,
                n == config.cores@.len(),
                forall|a: int, b: int|
                    0 <= a < b < n && a < i ==> config.cores@[a] != config.cores@[b],
            decreases n - i,
        {
            let mut j: usize = i + 1;
            while j < n
                invariant
                    i < j <= n,
                    n == config.cores@.len(),
                    forall|a: int, b: int|
                        0 <= a < b < n && a < i ==> config.cores@[a] != config.cores@[b],
                    forall|b: int| i < b < j ==> config.cores@[i as int] != config.cores@[b],
                decreases n - j,
            {
                if config.cores[i] == config.cores[j] {
                    proof {
                        assert(config.cores@[i as int] == config.cores@[j as int]);
                        assert(!distinct_cores(config.cores@));
                    }
                    return Err(ConfigError::DuplicateCore);
                }
                j = j + 1;
            }
            i = i + 1;
        }
        let mut schedulers: Vec<Scheduler<Rx, Tx>> = Vec::new();
        let mut k: usize = 0;
        while k < n
            invariant
                k <= n,
                schedulers@.len() == k,
                forall|i: int|
                    0 <= i < k ==> {
                        &&& (#[trigger] schedulers@[i]).wf()
                        &&& schedulers@[i].spec_state() is Idle
                        &&& !schedulers@[i].spec_stop_requested()
                        &&& schedulers@[i].spec_tasks().len() == 0
                    },
            decreases n - k,
        {
            schedulers.push(Scheduler::new());
            k = k + 1;
        }
        Ok(Context { ports: config.ports, cores: config.cores, schedulers, pending: Vec::new() })
    }

    pub fn num_schedulers(&self) -> (r: usize)
        ensures
            r == self.spec_schedulers().len(),
    {
        self.schedulers.len()
    }

    /// Borrow one core's scheduler, e.g. to read task counters.
    pub fn scheduler_ref(&self, i: usize) -> (r: &Scheduler<Rx, Tx>)
        requires
            i < self.spec_schedulers().len(),
        ensures
            *r == self.spec_schedulers()[i as int],
    {
        &self.schedulers[i]
    }

    pub fn num_ports(&self) -> (r: usize)
        ensures
            r == self.spec_ports().len(),
    {
        self.ports.len()
    }

    pub fn port(&self, i: usize) -> (r: Port)
        requires
            i < self.spec_ports().len(),
        ensures
            r == self.spec_ports()[i as int],
    {
        self.ports[i]
    }

    /// Move every scheduler from `Idle` to `Running`. The embedding
    /// program then starts one pinned thread per core to drive it.
    pub fn start_schedulers(&mut self)
        requires
            old(self).wf(),
            forall|i: int|
                0 <= i < old(self).spec_schedulers().len() ==> (#[trigger] old(
                    self,
                ).spec_schedulers()[i]).spec_state() is Idle,
        ensures
            final(self).wf(),
            final(self).spec_ports() == old(self).spec_ports(),
            final(self).spec_cores() == old(self).spec_cores(),
            final(self).spec_pending() == old(self).spec_pending(),
            final(self).spec_schedulers().len() == old(self).spec_schedulers().len(),
            forall|i: int|
                0 <= i < final(self).spec_schedulers().len() ==> {
                    &&& (#[trigger] final(self).spec_schedulers()[i]).spec_state() is Running
                    &&& final(self).spec_schedulers()[i].spec_stop_requested() == old(
                        self,
                    ).spec_schedulers()[i].spec_stop_requested()
                    &&& final(self).spec_schedulers()[i].spec_tasks() == old(
                        self,
                    ).spec_schedulers()[i].spec_tasks()
                },
    {
        let n = self.schedulers.len();
        let mut k: usize = 0;
        while k < n
            invariant
                k <= n,
                self.schedulers@.len() == n,
                n == old(self).spec_schedulers().len(),
                self.ports@ == old(self).spec_ports(),
                self.cores@ == old(self).spec_cores(),
                self.pending@ == old(self).spec_pending(),
                forall|j: int|
                    0 <= j < n - k ==> (#[trigger] self.schedulers@[j]) == old(
                        self,
                    ).spec_schedulers()[k + j],
                forall|j: int|
                    n - k <= j < n ==> {
                        &&& (#[trigger] self.schedulers@[j]).wf()
                        &&& self.schedulers@[j].spec_state() is Running
                        &&& self.schedulers@[j].spec_stop_requested() == old(
                            self,
                        ).spec_schedulers()[j - (n - k)].spec_stop_requested()
                        &&& self.schedulers@[j].spec_tasks() == old(self).spec_schedulers()[j - (n
                            - k)].spec_tasks()
                    },
                old(self).wf(),
                forall|i: int|
                    0 <= i < n ==> (#[trigger] old(self).spec_schedulers()[i]).spec_state() is Idle,
            decreases n - k,
        {
            let mut s = self.schedulers.remove(0);
            s.start();
            self.schedulers.push(s);
            k = k + 1;
        }
    }

    /// Accept one pipeline installation request, bound to one core's
    /// scheduler; it is dispatched by the next [`Context::execute`].
    pub fn add_pipeline_to_run(&mut self, core_index: usize, p: Pipeline<Rx, Tx>)
        requires
            old(self).wf(),
            p.wf(),
            core_index < old(self).spec_schedulers().len(),
        ensures
            final(self).wf(),
            final(self).spec_ports() == old(self).spec_ports(),
            final(self).spec_cores() == old(self).spec_cores(),
            final(self).spec_schedulers() == old(self).spec_schedulers(),
            final(self).spec_pending().len() == old(self).spec_pending().len() + 1,
            final(self).spec_pending() == old(self).spec_pending().push(
                PendingTask { core_index, pipeline: p },
            ),
    {
        self.pending.push(PendingTask { core_index, pipeline: p });
        proof {
            assert forall|i: int|
                0 <= i < self.pending@.len() implies (#[trigger] self.pending@[i]).pipeline.wf()
                && self.pending@[i].core_index < self.schedulers@.len() by {
                if i < old(self).spec_pending().len() {
                    assert(self.pending@[i] == old(self).spec_pending()[i]);
                }
            }
        }
    }

    /// Dispatch every pending installation request to its core's
    /// scheduler, in the order the requests arrived.
    pub fn execute(&mut self)
        requires
            old(self).wf(),
            forall|i: int|
                0 <= i < old(self).spec_schedulers().len() ==> !((#[trigger] old(
                    self,
                ).spec_schedulers()[i]).spec_state() is Stopped),
        ensures
            final(self).wf(),
            final(self).spec_ports() == old(self).spec_ports(),
            final(self).spec_cores() == old(self).spec_cores(),
            final(self).spec_pending().len() == 0,
            final(self).spec_schedulers().len() == old(self).spec_schedulers().len(),
            forall|i: int|
                0 <= i < final(self).spec_schedulers().len() ==> {
                    &&& (#[trigger] final(self).spec_schedulers()[i]).spec_tasks() == old(
                        self,
                    ).spec_schedulers()[i].spec_tasks() + pending_for(old(self).spec_pending(), i)
                    &&& final(self).spec_schedulers()[i].spec_state() == old(
                        self,
                    ).spec_schedulers()[i].spec_state()
                    &&& final(self).spec_schedulers()[i].spec_stop_requested() == old(
                        self,
                    ).spec_schedulers()[i].spec_stop_requested()
                },
    {
        let ghost pending0 = self.pending@;
        let ghost scheds0 = self.schedulers@;
        let n = self.schedulers.len();
        let mut m: usize = 0;
        let total = self.pending.len();
        while m < total
            invariant
                m <= total,
                total == pending0.len(),
                self.pending@ == pending0.skip(m as int),
                self.ports@ == old(self).spec_ports(),
                self.cores@ == old(self).spec_cores(),
                self.schedulers@.len() == n,
                n == scheds0.len(),
                scheds0 == old(self).spec_schedulers(),
                pending0 == old(self).spec_pending(),
                old(self).wf(),
                forall|i: int|
                    0 <= i < n ==> !((#[trigger] scheds0[i]).spec_state() is Stopped),
                forall|i: int|
                    0 <= i < pending0.len() ==> (#[trigger] pending0[i]).pipeline.wf()
                        && pending0[i].core_index < n,
                forall|i: int|
                    0 <= i < n ==> {
                        &&& (#[trigger] self.schedulers@[i]).wf()
                        &&& self.schedulers@[i].spec_tasks() == scheds0[i].spec_tasks()
                            + pending_for(pending0.take(m as int), i)
                        &&& self.schedulers@[i].spec_state() == scheds0[i].spec_state()
                        &&& self.schedulers@[i].spec_stop_requested() == scheds0[
                            i
                        ].spec_stop_requested()
                    },
            decreases total - m,
        {
            let ghost pre = self.pending@;
            let task = self.pending.remove(0);
            proof {
                assert(task == pending0[m as int]);
                assert(self.pending@ =~= pending0.skip(m + 1));
            }
            let c = task.core_index;
            let ghost scheds_pre = self.schedulers@;
            let mut s = self.schedulers.remove(c);
            proof {
                assert(s == scheds_pre[c as int]);
                assert(scheds_pre[c as int].spec_state() == scheds0[c as int].spec_state());
                assert(!(scheds0[c as int].spec_state() is Stopped));
            }
            let _accepted = s.add_task(task.pipeline);
            self.schedulers.insert(c, s);
            proof {
                assert(self.schedulers@ =~= scheds_pre.update(c as int, s));
                assert forall|i: int| 0 <= i < n implies {
                    &&& (#[trigger] self.schedulers@[i]).wf()
                    &&& self.schedulers@[i].spec_tasks() == scheds0[i].spec_tasks() + pending_for(
                        pending0.take(m + 1),
                        i,
                    )
                    &&& self.schedulers@[i].spec_state() == scheds0[i].spec_state()
                    &&& self.schedulers@[i].spec_stop_requested() == scheds0[
                        i
                    ].spec_stop_requested()
                } by {
                    assert(pending0.take(m + 1).drop_last() =~= pending0.take(m as int));
                    assert(pending0.take(m + 1).last() == pending0[m as int]);
                    if i != c {
                        assert(self.schedulers@[i] == scheds_pre[i]);
                        assert(pending_for(pending0.take(m + 1), i) =~= pending_for(
                            pending0.take(m as int),
                            i,
                        ));
                    } else {
                        assert(self.schedulers@[i] == s);
                        assert(s.spec_tasks() == scheds_pre[i].spec_tasks().push(task.pipeline));
                        assert(pending_for(pending0.take(m + 1), i) =~= pending_for(
                            pending0.take(m as int),
                            i,
                        ).push(task.pipeline));
                        assert(scheds0[i].spec_tasks() + pending_for(pending0.take(m + 1), i) =~= (
                        scheds0[i].spec_tasks() + pending_for(pending0.take(m as int), i)).push(
                            task.pipeline,
                        ));
                    }
                }
            }
            m = m + 1;
        }
        proof {
            assert(pending0.take(total as int) =~= pending0);
        }
    }

    /// Hand every scheduler over to the embedding program, which pins one
    /// thread per reserved core and drives that core's scheduler there.
    /// The context keeps the ports and the core reservations.
    pub fn take_schedulers(&mut self) -> (r: Vec<Scheduler<Rx, Tx>>)
        requires
            old(self).wf(),
            old(self).spec_pending().len() == 0,
        ensures
            r@ == old(self).spec_schedulers(),
            final(self).spec_schedulers().len() == 0,
            final(self).spec_ports() == old(self).spec_ports(),
            final(self).spec_cores() == old(self).spec_cores(),
            final(self).spec_pending().len() == 0,
    {
        let mut out: Vec<Scheduler<Rx, Tx>> = Vec::new();
        core::mem::swap(&mut out, &mut self.schedulers);
        out
    }

    /// Signal every scheduler to stop. Each observes the flag within one
    /// cycle; the embedding program then joins the per-core threads.
    pub fn stop(&mut self)
        requires
            old(self).wf(),
        ensures
            final(self).wf(),
            final(self).spec_ports() == old(self).spec_ports(),
            final(self).spec_cores() == old(self).spec_cores(),
            final(self).spec_pending() == old(self).spec_pending(),
            final(self).spec_schedulers().len() == old(self).spec_schedulers().len(),
            forall|i: int|
                0 <= i < final(self).spec_schedulers().len() ==> {
                    &&& (#[trigger] final(self).spec_schedulers()[i]).spec_stop_requested()
                    &&& final(self).spec_schedulers()[i].spec_state() == old(
                        self,
                    ).spec_schedulers()[i].spec_state()
                    &&& final(self).spec_schedulers()[i].spec_tasks() == old(
                        self,
                    ).spec_schedulers()[i].spec_tasks()
                },
    {
        let n = self.schedulers.len();
        let mut k: usize = 0;
        while k < n
            invariant
                k <= n,
                self.schedulers@.len() == n,
                n == old(self).spec_schedulers().len(),
                self.ports@ == old(self).spec_ports(),
                self.cores@ == old(self).spec_cores(),
                self.pending@ == old(self).spec_pending(),
                old(self).wf(),
                forall|j: int|
                    0 <= j < n - k ==> (#[trigger] self.schedulers@[j]) == old(
                        self,
                    ).spec_schedulers()[k + j],
                forall|j: int|
                    n - k <= j < n ==> {
                        &&& (#[trigger] self.schedulers@[j]).wf()
                        &&& self.schedulers@[j].spec_stop_requested()
                        &&& self.schedulers@[j].spec_state() == old(self).spec_schedulers()[j - (n
                            - k)].spec_state()
                        &&& self.schedulers@[j].spec_tasks() == old(self).spec_schedulers()[j - (n
                            - k)].spec_tasks()
                    },
            decreases n - k,
        {
            let mut s = self.schedulers.remove(0);
            s.request_stop();
            self.schedulers.push(s);
            k = k + 1;
        }
    }
}

} // verus!
