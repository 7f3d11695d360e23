//! The batch pipeline: one source, a chain of transforms, one sink.
//!
//! Each execution processes one bounded batch rather than one packet, to
//! amortise the fixed per-call cost of the queue operations. A packet that
//! fails its transform is dropped and counted, and only that packet: the
//! batch continues, and the surviving packets keep their order (a stable
//! filter). Packets the sink cannot accept in this cycle are dropped and
//! counted, never retried within the cycle, to bound per-cycle latency.

use vstd::math::min;
use vstd::prelude::*;

use crate::buffer::BufferHandle;
use crate::counter::{sat_add, StatCounter};
use crate::errors::ParseError;
use crate::frame::{ethertype_of, is_valid_frame, swapped, ETHERNET_HEADER_SIZE};
use crate::queue::{views_of, PacketRx, PacketTx};

verus! {

/// A transform stage, applied to every packet of a batch independently.
/// Stages compose: `Then` chains two stages, so a pipeline may run zero
/// (`Forward`) or more transforms per packet.
#[derive(Debug)]
pub enum Transform {
    /// Forward every packet unchanged.
    Forward,
    /// Overlay an Ethernet header view and exchange source and destination
    /// addresses in place; drops packets shorter than a header.
    SwapAddresses,
    /// Overlay an Ethernet header view and keep only frames carrying the
    /// given ethertype; drops short and foreign frames.
    RequireEtherType(u16),
    /// Apply the first transform, then the second to what survives.
    Then(Box<Transform>, Box<Transform>),
}

/// What a transform produces for one packet: the transformed bytes, or
/// nothing when the packet fails and leaves the batch.
pub open spec fn transform_spec(t: Transform, s: Seq<u8>) -> Option<Seq<u8>>
    decreases t,
{
    match t {
        Transform::Forward => Some(s),
        Transform::SwapAddresses => if is_valid_frame(s) {
            Some(swapped(s))
        } else {
            None
        },
        Transform::RequireEtherType(et) => if is_valid_frame(s) && ethertype_of(s) == et {
            Some(s)
        } else {
            None
        },
        Transform::Then(a, b) => match transform_spec(*a, s) {
            Some(r) => transform_spec(*b, r),
            None => None,
        },
    }
}

/// Which error a failing transform reports for one packet.
pub open spec fn transform_err_spec(t: Transform, s: Seq<u8>) -> ParseError
    recommends
        transform_spec(t, s) is None,
    decreases t,
{
    match t {
        Transform::Forward => ParseError::TooShort,
        Transform::SwapAddresses => ParseError::TooShort,
        Transform::RequireEtherType(et) => if !is_valid_frame(s) {
            ParseError::TooShort
        } else {
            ParseError::UnsupportedEtherType
        },
        Transform::Then(a, b) => match transform_spec(*a, s) {
            Some(r) => transform_err_spec(*b, r),
            None => transform_err_spec(*a, s),
        },
    }
}

/// The surviving packets of a batch, transformed, in batch order.
pub open spec fn processed(t: Transform, batch: Seq<Seq<u8>>) -> Seq<Seq<u8>> {
    batch.filter_map(|s: Seq<u8>| transform_spec(t, s))
}

/// No transform lets a batch grow.
pub proof fn lemma_processed_len(t: Transform, batch: Seq<Seq<u8>>)
    ensures
        processed(t, batch).len() <= batch.len(),
    decreases batch.len(),
{
    if batch.len() > 0 {
        lemma_processed_len(t, batch.drop_last());
    }
}

/// The batch filter is stable: the output is exactly the surviving
/// packets of the input, each transformed, in the order the input held
/// them — the filtered subsequence's order is preserved.
pub proof fn lemma_stable_filter(t: Transform, batch: Seq<Seq<u8>>)
    ensures
        processed(t, batch) == batch.filter(|s: Seq<u8>| transform_spec(t, s) is Some)
            .map_values(|s: Seq<u8>| transform_spec(t, s).unwrap()),
    decreases batch.len(),
{
    reveal(Seq::filter);
    let keep = |s: Seq<u8>| transform_spec(t, s) is Some;
    let out = |s: Seq<u8>| transform_spec(t, s).unwrap();
    if batch.len() == 0 {
        assert(processed(t, batch) =~= batch.filter(keep).map_values(out));
    } else {
        lemma_stable_filter(t, batch.drop_last());
        let rest = batch.drop_last();
        assert(batch.filter(keep) == if keep(batch.last()) {
            rest.filter(keep).push(batch.last())
        } else {
            rest.filter(keep)
        });
        if keep(batch.last()) {
            assert(rest.filter(keep).push(batch.last()).map_values(out) =~= rest.filter(
                keep,
            ).map_values(out).push(out(batch.last())));
            assert(processed(t, batch) =~= processed(t, rest).push(out(batch.last())));
        }
        assert(processed(t, batch) =~= batch.filter(keep).map_values(out));
    }
}

impl Transform {
    /// Apply this transform to one exclusively-owned packet.
    ///
    /// Succeeds iff the packet survives; the error says why it did not:
    /// too short for a header view, or the wrong ethertype for the
    /// requested overlay.
    pub fn apply(&self, pkt: BufferHandle) -> (r: Result<BufferHandle, ParseError>)
        requires
            pkt.rc() == 1,
        ensures
            r matches Ok(p) ==> transform_spec(*self, pkt@) == Some(p@) && p.rc() == 1,
            r is Err <==> transform_spec(*self, pkt@) is None,
            r matches Err(e) ==> e == transform_err_spec(*self, pkt@),
        decreases *self,
    {
        match self {
            Transform::Forward => Ok(pkt),
            Transform::SwapAddresses => {
                if pkt.len() < ETHERNET_HEADER_SIZE {
                    Err(ParseError::TooShort)
                } else {
                    let mut pkt = pkt;
                    pkt.swap_addresses();
                    Ok(pkt)
                }
            },
            Transform::RequireEtherType(et) => {
                match pkt.parse_ethernet() {
                    Ok(h) => if h.ethertype == *et {
                        Ok(pkt)
                    } else {
                        Err(ParseError::UnsupportedEtherType)
                    },
                    Err(e) => Err(e),
                }
            },
            Transform::Then(a, b) => {
                match a.apply(pkt) {
                    Ok(q) => b.apply(q),
                    Err(e) => Err(e),
                }
            },
        }
    }
}

/// Pluggable stand-in for per-packet processing cost: spins for `cycles`
/// iterations and changes nothing. A backoff or workload simulation hook.
pub fn spin_delay(cycles: u64) {
    let mut i: u64 = 0;
    while i < cycles
        invariant
            i <= cycles,
        decreases cycles - i,
    {
        i = i + 1;
    }
}

/// A source, a transform chain and a sink, executed one batch per cycle.
pub struct Pipeline<Rx, Tx> {
    source: Rx,
    stage: Transform,
    sink: Tx,
    batch_size: usize,
    delay_cycles: u64,
    parse_failures: StatCounter,
    tx_drops: StatCounter,
}

impl<Rx: PacketRx, Tx: PacketTx> Pipeline<Rx, Tx> {
    pub closed spec fn spec_source(self) -> Rx {
        self.source
    }

    pub closed spec fn spec_sink(self) -> Tx {
        self.sink
    }

    pub closed spec fn xform(self) -> Transform {
        self.stage
    }

    pub closed spec fn batch_limit(self) -> usize {
        self.batch_size
    }

    pub closed spec fn delay(self) -> u64 {
        self.delay_cycles
    }

    /// Parse or transform failures accumulated over all cycles.
    pub closed spec fn parse_fail_count(self) -> u64 {
        self.parse_failures.spec_count()
    }

    /// Packets dropped because the transmit ring was full.
    pub closed spec fn drop_count(self) -> u64 {
        self.tx_drops.spec_count()
    }

    pub open spec fn wf(self) -> bool {
        &&& self.spec_source().rx_wf()
        &&& self.spec_sink().tx_wf()
    }

    /// Packets available at the source.
    pub open spec fn rx_avail(self) -> Seq<Seq<u8>> {
        self.spec_source().rx_queue()
    }

    /// Packets the sink has accepted so far.
    pub open spec fn tx_done(self) -> Seq<Seq<u8>> {
        self.spec_sink().tx_queue()
    }

    /// Free space of the sink's ring.
    pub open spec fn tx_room(self) -> nat {
        self.spec_sink().tx_space()
    }

    /// The batch the next cycle will pull: a bounded prefix of the source.
    pub open spec fn next_batch(self) -> Seq<Seq<u8>> {
        self.rx_avail().take(min(self.batch_limit() as int, self.rx_avail().len() as int))
    }

    /// What survives the transform stage of the next cycle, in order.
    pub open spec fn next_survivors(self) -> Seq<Seq<u8>> {
        processed(self.xform(), self.next_batch())
    }

    /// How many survivors the sink will accept in the next cycle.
    pub open spec fn next_sent(self) -> int {
        min(self.next_survivors().len() as int, self.tx_room() as int)
    }

    /// Compose a pipeline: a source stage, a transform chain, a sink
    /// stage. Installed once, executed once per scheduler cycle.
    pub fn new(source: Rx, stage: Transform, sink: Tx, batch_size: usize, delay_cycles: u64) -> (r:
        Pipeline<Rx, Tx>)
        requires
            source.rx_wf(),
            sink.tx_wf(),
        ensures
            r.wf(),
            r.spec_source() == source,
            r.spec_sink() == sink,
            r.xform() == stage,
            r.batch_limit() == batch_size,
            r.delay() == delay_cycles,
            r.parse_fail_count() == 0,
            r.drop_count() == 0,
    {
        Pipeline {
            source,
            stage,
            sink,
            batch_size,
            delay_cycles,
            parse_failures: StatCounter::new(),
            tx_drops: StatCounter::new(),
        }
    }

    /// Borrow the source endpoint.
    pub fn source_ref(&self) -> (r: &Rx)
        ensures
            *r == self.spec_source(),
    {
        &self.source
    }

    /// Borrow the sink endpoint.
    pub fn sink_ref(&self) -> (r: &Tx)
        ensures
            *r == self.spec_sink(),
    {
        &self.sink
    }

    /// Parse or transform failures accumulated over all cycles.
    pub fn parse_failure_count(&self) -> (r: u64)
        ensures
            r == self.parse_fail_count(),
    {
        self.parse_failures.count()
    }

    /// Packets dropped so far because the transmit ring was full.
    pub fn tx_drop_count(&self) -> (r: u64)
        ensures
            r == self.drop_count(),
    {
        self.tx_drops.count()
    }

    /// One receive → transform → send cycle over one bounded batch.
    ///
    /// Pulls up to `batch_limit` packets, applies the transform to each
    /// independently (a failure drops only that packet and is counted),
    /// hands the survivors to the sink in order, and counts the survivors
    /// the full ring could not accept as drops.
    pub fn run_once(&mut self)
        requires
            old(self).wf(),
        ensures
            final(self).wf(),
            cycle_rel(*old(self), *final(self)),
    {
        let ghost t = self.stage;
        let delay_cycles = self.delay_cycles;
        let batch = self.source.recv(self.batch_size);
        let ghost batch_views = views_of(batch@);
        proof {
            assert(batch_views == old(self).next_batch());
        }
        let mut batch = batch;
        let mut out: Vec<BufferHandle> = Vec::new();
        let mut failures: u64 = 0;
        let ghost n0 = batch_views.len();
        while batch.len() > 0
            invariant
                t == self.stage,
                batch_views.len() == n0,
                n0 <= usize::MAX,
                batch@.len() <= n0,
                views_of(batch@) == batch_views.skip(n0 - batch@.len()),
                forall|i: int| 0 <= i < batch@.len() ==> (#[trigger] batch@[i]).rc() == 1,
                views_of(out@) == processed(t, batch_views.take(n0 - batch@.len())),
                forall|i: int| 0 <= i < out@.len() ==> (#[trigger] out@[i]).rc() == 1,
                out@.len() + failures == n0 - batch@.len(),
            decreases batch@.len(),
        {
            let ghost consumed = n0 - batch@.len();
            let ghost pre = batch@;
            let p = batch.remove(0);
            proof {
                assert(p@ == views_of(pre)[0]);
                assert(p@ == batch_views[consumed]);
                assert(batch@ =~= pre.skip(1));
                assert forall|i: int|
                    0 <= i < batch@.len() implies (#[trigger] views_of(batch@)[i])
                    == batch_views.skip(consumed + 1)[i] by {
                    assert(views_of(batch@)[i] == batch@[i]@);
                    assert(batch@[i] == pre[i + 1]);
                    assert(views_of(pre)[i + 1] == pre[i + 1]@);
                    assert(views_of(pre)[i + 1] == batch_views.skip(consumed)[i + 1]);
                    assert(batch_views.skip(consumed)[i + 1] == batch_views[consumed + 1 + i]);
                    assert(batch_views.skip(consumed + 1)[i] == batch_views[consumed + 1 + i]);
                }
                assert(views_of(batch@) =~= batch_views.skip(consumed + 1));
                batch_views.lemma_filter_map_take_succ(
                    |s: Seq<u8>| transform_spec(t, s),
                    consumed,
                );
            }
            spin_delay(delay_cycles);
            match self.stage.apply(p) {
                Ok(q) => {
                    out.push(q);
                    proof {
                        assert(views_of(out@) =~= processed(t, batch_views.take(consumed + 1)));
                    }
                },
                Err(_) => {
                    failures = failures + 1;
                    proof {
                        assert(views_of(out@) =~= processed(t, batch_views.take(consumed + 1)));
                    }
                },
            }
        }
        proof {
            assert(batch_views.take(n0 as int) =~= batch_views);
            lemma_processed_len(t, batch_views);
        }
        self.parse_failures.add(failures);
        let n_out = out.len();
        let sent = self.sink.send(out);
        self.tx_drops.add((n_out - sent) as u64);
    }
}

/// How one cycle of a pipeline relates its state after the cycle to its
/// state before it: the bounded batch leaves the source and is counted;
/// the transformed survivors, in order, are offered to the sink, which
/// accepts exactly what fits; every failure and every un-accepted
/// survivor is dropped and counted.
pub open spec fn cycle_rel<Rx: PacketRx, Tx: PacketTx>(
    p0: Pipeline<Rx, Tx>,
    p1: Pipeline<Rx, Tx>,
) -> bool {
    &&& p1.wf()
    &&& p1.xform() == p0.xform()
    &&& p1.batch_limit() == p0.batch_limit()
    &&& p1.delay() == p0.delay()
    &&& p1.rx_avail() == p0.rx_avail().skip(p0.next_batch().len() as int)
    &&& p1.spec_source().rx_count() == sat_add(
        p0.spec_source().rx_count(),
        p0.next_batch().len() as u64,
    )
    &&& p1.tx_done() == p0.tx_done() + p0.next_survivors().take(p0.next_sent())
    &&& p1.tx_room() == p0.tx_room() - p0.next_sent()
    &&& p1.spec_sink().tx_count() == sat_add(p0.spec_sink().tx_count(), p0.next_sent() as u64)
    &&& p1.parse_fail_count() == sat_add(
        p0.parse_fail_count(),
        (p0.next_batch().len() - p0.next_survivors().len()) as u64,
    )
    &&& p1.drop_count() == sat_add(
        p0.drop_count(),
        (p0.next_survivors().len() - p0.next_sent()) as u64,
    )
}

} // verus!
