//! Queue endpoints: the receive and transmit capabilities of one hardware
//! or virtual queue, and an in-memory ring variant.
//!
//! The pipeline is agnostic to which variant it holds: anything satisfying
//! the capability contracts can stand as a source or a sink. Receiving is a
//! non-blocking poll that returns fewer packets than requested exactly when
//! fewer are available; transmitting accepts packets up to the free space of
//! the ring and consumes the rest.

use vstd::math::min;
use vstd::prelude::*;

use crate::buffer::BufferHandle;
use crate::counter::{sat_add, StatCounter};

verus! {

/// The byte contents of a sequence of buffered packets.
pub open spec fn views_of(pkts: Seq<BufferHandle>) -> Seq<Seq<u8>> {
    pkts.map_values(|p: BufferHandle| p@)
}

/// Receive capability of one queue endpoint.
pub trait PacketRx {
    /// Well-formedness of the endpoint.
    spec fn rx_wf(&self) -> bool;

    /// The packets currently available to be received, oldest first.
    spec fn rx_queue(&self) -> Seq<Seq<u8>>;

    /// Monotonic count of packets handed out so far.
    spec fn rx_count(&self) -> u64;

    /// Pull up to `max` packets from the queue, oldest first.
    ///
    /// Never waits: the result is exactly the shorter of `max` and what is
    /// currently available, so an empty queue yields an empty batch at once.
    /// Every handle handed out is exclusively owned.
    fn recv(&mut self, max: usize) -> (pkts: Vec<BufferHandle>)
        requires
            old(self).rx_wf(),
        ensures
            final(self).rx_wf(),
            pkts@.len() == min(max as int, old(self).rx_queue().len() as int),
            views_of(pkts@) == old(self).rx_queue().take(pkts@.len() as int),
            final(self).rx_queue() == old(self).rx_queue().skip(pkts@.len() as int),
            forall|i: int| 0 <= i < pkts@.len() ==> (#[trigger] pkts@[i]).rc() == 1,
            final(self).rx_count() == sat_add(old(self).rx_count(), pkts@.len() as u64),
    ;
}

/// Transmit capability of one queue endpoint.
pub trait PacketTx {
    /// Well-formedness of the endpoint.
    spec fn tx_wf(&self) -> bool;

    /// The packets accepted for transmission so far, oldest first.
    spec fn tx_queue(&self) -> Seq<Seq<u8>>;

    /// How many more packets the ring can accept before it is full.
    spec fn tx_space(&self) -> nat;

    /// Monotonic count of packets accepted so far.
    spec fn tx_count(&self) -> u64;

    /// Hand a batch of packets to the ring, oldest first.
    ///
    /// Ownership of every handle transfers to the endpoint. The ring
    /// accepts exactly the longest prefix that fits in its free space and
    /// releases the rest; the caller learns the accepted count and must
    /// drop or account for the remainder, never retry within the cycle.
    fn send(&mut self, pkts: Vec<BufferHandle>) -> (sent: usize)
        requires
            old(self).tx_wf(),
            forall|i: int| 0 <= i < pkts@.len() ==> (#[trigger] pkts@[i]).rc() == 1,
        ensures
            final(self).tx_wf(),
            sent == min(pkts@.len() as int, old(self).tx_space() as int),
            final(self).tx_queue() == old(self).tx_queue() + views_of(pkts@).take(sent as int),
            final(self).tx_space() == old(self).tx_space() - sent,
            final(self).tx_count() == sat_add(old(self).tx_count(), sent as u64),
    ;
}

/// A queue endpoint backed by an in-memory ring, used for inter-pipeline
/// or test traffic; interchangeable with a hardware-backed endpoint.
pub struct VirtualQueue {
    ring: Vec<BufferHandle>,
    capacity: usize,
    received: StatCounter,
    transmitted: StatCounter,
}

impl VirtualQueue {
    /// The ring never exceeds its capacity and every buffered packet is
    /// exclusively owned by the ring.
    pub closed spec fn wf(&self) -> bool {
        &&& self.ring@.len() <= self.capacity
        &&& forall|i: int| 0 <= i < self.ring@.len() ==> (#[trigger] self.ring@[i]).rc() == 1
    }

    /// The packets currently buffered, oldest first.
    pub closed spec fn contents(&self) -> Seq<Seq<u8>> {
        views_of(self.ring@)
    }

    pub closed spec fn spec_capacity(&self) -> usize {
        self.capacity
    }

    /// An empty ring with room for `capacity` packets.
    pub fn new(capacity: usize) -> (r: VirtualQueue)
        ensures
            r.wf(),
            r.contents() == Seq::<Seq<u8>>::empty(),
            r.spec_capacity() == capacity,
            r.rx_count() == 0,
            r.tx_count() == 0,
    {
        let r = VirtualQueue {
            ring: Vec::new(),
            capacity,
            received: StatCounter::new(),
            transmitted: StatCounter::new(),
        };
        proof {
            assert(views_of(r.ring@) =~= Seq::<Seq<u8>>::empty());
        }
        r
    }

    /// How many packets are currently buffered.
    pub fn len(&self) -> (r: usize)
        ensures
            r == self.contents().len(),
    {
        self.ring.len()
    }

    /// The ring's capacity.
    pub fn capacity(&self) -> (r: usize)
        ensures
            r == self.spec_capacity(),
    {
        self.capacity
    }

    /// How many packets this endpoint has handed out.
    pub fn received_count(&self) -> (r: u64)
        ensures
            r == self.rx_count(),
    {
        self.received.count()
    }

    /// How many packets this endpoint has accepted.
    pub fn transmitted_count(&self) -> (r: u64)
        ensures
            r == self.tx_count(),
    {
        self.transmitted.count()
    }

    /// Borrow the `i`-th buffered packet, oldest first.
    pub fn peek(&self, i: usize) -> (r: &BufferHandle)
        requires
            i < self.contents().len(),
        ensures
            r@ == self.contents()[i as int],
    {
        &self.ring[i]
    }
}

impl PacketRx for VirtualQueue {
    closed spec fn rx_wf(&self) -> bool {
        self.wf()
    }

    closed spec fn rx_queue(&self) -> Seq<Seq<u8>> {
        self.contents()
    }

    closed spec fn rx_count(&self) -> u64 {
        self.received.spec_count()
    }

    fn recv(&mut self, max: usize) -> (pkts: Vec<BufferHandle>) {
        let ghost ring0 = self.ring@;
        let mut pkts: Vec<BufferHandle> = Vec::new();
        while pkts.len() < max && self.ring.len() > 0
            invariant
                self.wf(),
                pkts@.len() <= max,
                self.capacity == old(self).capacity,
                self.received == old(self).received,
                self.transmitted == old(self).transmitted,
                pkts@.len() + self.ring@.len() == ring0.len(),
                self.ring@ == ring0.skip(pkts@.len() as int),
                forall|i: int| 0 <= i < pkts@.len() ==> #[trigger] pkts@[i] == ring0[i],
            decreases self.ring@.len(),
        {
            let ghost k = pkts@.len() as int;
            let p = self.ring.remove(0);
            proof {
                assert(p == ring0.skip(k)[0]);
                assert(p == ring0[k]);
            }
            pkts.push(p);
            proof {
                assert(self.ring@ =~= ring0.skip(k + 1));
            }
        }
        let n = pkts.len();
        self.received.add(n as u64);
        proof {
            assert(views_of(pkts@) =~= views_of(ring0).take(pkts@.len() as int));
        }
        pkts
    }
}

impl PacketTx for VirtualQueue {
    closed spec fn tx_wf(&self) -> bool {
        self.wf()
    }

    closed spec fn tx_queue(&self) -> Seq<Seq<u8>> {
        self.contents()
    }

    closed spec fn tx_space(&self) -> nat {
        (self.capacity - self.ring@.len()) as nat
    }

    closed spec fn tx_count(&self) -> u64 {
        self.transmitted.spec_count()
    }

    fn send(&mut self, pkts: Vec<BufferHandle>) -> (sent: usize) {
        let ghost ring0 = self.ring@;
        let ghost pkts0 = pkts@;
        let ghost space0 = (self.capacity - self.ring@.len()) as int;
        let mut pkts = pkts;
        let mut sent: usize = 0;
        while pkts.len() > 0
            invariant
                self.wf(),
                self.capacity == old(self).capacity,
                self.received == old(self).received,
                self.transmitted == old(self).transmitted,
                space0 == old(self).capacity - ring0.len(),
                pkts@ == pkts0.skip(pkts0.len() - pkts@.len()),
                sent == min(pkts0.len() - pkts@.len(), space0),
                self.ring@ == ring0 + pkts0.take(sent as int),
                forall|i: int| 0 <= i < pkts0.len() ==> (#[trigger] pkts0[i]).rc() == 1,
            decreases pkts@.len(),
        {
            let ghost consumed = pkts0.len() - pkts@.len();
            let p = pkts.remove(0);
            proof {
                assert(p == pkts0[consumed]);
                assert(pkts@ =~= pkts0.skip(pkts0.len() - pkts@.len()));
            }
            if self.ring.len() < self.capacity {
                self.ring.push(p);
                sent = sent + 1;
                proof {
                    assert(self.ring@ =~= ring0 + pkts0.take(sent as int));
                }
            } else {
                p.release();
            }
        }
        self.transmitted.add(sent as u64);
        proof {
            assert(views_of(ring0 + pkts0.take(sent as int)) =~= views_of(ring0) + views_of(
                pkts0,
            ).take(sent as int));
        }
        sent
    }
}

} // verus!
