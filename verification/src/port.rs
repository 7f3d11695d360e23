//! Ports and port queues.
//!
//! A port is one network interface, physical or virtual, exposing one or
//! more queues. A port queue pairs one receive queue and one transmit queue
//! bound to a single port; it is immutable after creation apart from its
//! statistics counters, and is handed out behind a cache-aligned wrapper so
//! that per-core queue state never shares a cache line across cores.

use vstd::prelude::*;

use crate::align::CacheAligned;
use crate::buffer::BufferHandle;
use crate::counter::StatCounter;
use crate::mac::MacAddr;
use crate::queue::{PacketRx, PacketTx};

verus! {

/// Identity capability: which hardware address a queue or port belongs to.
pub trait PortInfo {
    /// The owning port's hardware address.
    spec fn mac_spec(&self) -> Seq<u8>;

    fn mac_address(&self) -> (m: MacAddr)
        ensures
            m@ == self.mac_spec(),
    ;
}

/// Statistics for one direction of one port queue.
pub struct PortStats {
    pub stats: StatCounter,
}

impl PortStats {
    /// A zeroed counter on its own cache line.
    pub fn new() -> (r: CacheAligned<PortStats>)
        ensures
            r@.stats.spec_count() == 0,
    {
        CacheAligned::allocate(PortStats { stats: StatCounter::new() })
    }
}

/// One network interface: identity and queue counts, created from
/// configuration when the context is built.
#[derive(Clone, Copy, Debug)]
pub struct Port {
    pub mac: MacAddr,
    pub rxqs: usize,
    pub txqs: usize,
}

impl Port {
    pub fn new(mac: MacAddr, rxqs: usize, txqs: usize) -> (r: Port)
        ensures
            r.mac == mac,
            r.rxqs == rxqs,
            r.txqs == txqs,
    {
        Port { mac, rxqs, txqs }
    }
}

impl PortInfo for Port {
    open spec fn mac_spec(&self) -> Seq<u8> {
        self.mac@
    }

    fn mac_address(&self) -> (m: MacAddr) {
        self.mac
    }
}

/// One (port, receive queue index, transmit queue index) pairing, together
/// with the queue endpoints and the per-queue statistics counters.
pub struct PortQueue<Rx, Tx> {
    port: Port,
    rxq: usize,
    txq: usize,
    rx: Rx,
    tx: Tx,
    rx_stats: CacheAligned<PortStats>,
    tx_stats: CacheAligned<PortStats>,
}

impl<Rx: PacketRx, Tx: PacketTx> PortQueue<Rx, Tx> {
    pub closed spec fn spec_port(&self) -> Port {
        self.port
    }

    pub closed spec fn spec_rxq(&self) -> usize {
        self.rxq
    }

    pub closed spec fn spec_txq(&self) -> usize {
        self.txq
    }

    pub closed spec fn spec_rx(&self) -> Rx {
        self.rx
    }

    pub closed spec fn spec_tx(&self) -> Tx {
        self.tx
    }

    pub fn new(port: Port, rxq: usize, txq: usize, rx: Rx, tx: Tx) -> (r: PortQueue<Rx, Tx>)
        requires
            rx.rx_wf(),
            tx.tx_wf(),
        ensures
            r.rx_wf(),
            r.tx_wf(),
            r.spec_port() == port,
            r.spec_rxq() == rxq,
            r.spec_txq() == txq,
            r.rx_queue() == rx.rx_queue(),
            r.tx_queue() == tx.tx_queue(),
            r.tx_space() == tx.tx_space(),
            r.rx_count() == 0,
            r.tx_count() == 0,
    {
        PortQueue { port, rxq, txq, rx, tx, rx_stats: PortStats::new(), tx_stats: PortStats::new() }
    }

    /// Receive queue index of this pairing.
    pub fn rxq(&self) -> (r: usize)
        ensures
            r == self.spec_rxq(),
    {
        self.rxq
    }

    /// Transmit queue index of this pairing.
    pub fn txq(&self) -> (r: usize)
        ensures
            r == self.spec_txq(),
    {
        self.txq
    }

    /// Borrow the receive endpoint.
    pub fn rx_endpoint(&self) -> (r: &Rx)
        ensures
            *r == self.spec_rx(),
    {
        &self.rx
    }

    /// Borrow the transmit endpoint.
    pub fn tx_endpoint(&self) -> (r: &Tx)
        ensures
            *r == self.spec_tx(),
    {
        &self.tx
    }

    /// The pair of monotonic per-queue counters:
    /// (packets received, packets transmitted).
    pub fn stats(&self) -> (r: (u64, u64))
        ensures
            r.0 == self.rx_count(),
            r.1 == self.tx_count(),
    {
        (self.rx_stats.inner().stats.count(), self.tx_stats.inner().stats.count())
    }
}

impl<Rx: PacketRx, Tx: PacketTx> PacketRx for PortQueue<Rx, Tx> {
    closed spec fn rx_wf(&self) -> bool {
        self.rx.rx_wf()
    }

    closed spec fn rx_queue(&self) -> Seq<Seq<u8>> {
        self.rx.rx_queue()
    }

    closed spec fn rx_count(&self) -> u64 {
        self.rx_stats@.stats.spec_count()
    }

    fn recv(&mut self, max: usize) -> (pkts: Vec<BufferHandle>) {
        let pkts = self.rx.recv(max);
        let n = pkts.len();
        let stats = self.rx_stats.inner_mut();
        stats.stats.add(n as u64);
        pkts
    }
}

impl<Rx: PacketRx, Tx: PacketTx> PacketTx for PortQueue<Rx, Tx> {
    closed spec fn tx_wf(&self) -> bool {
        self.tx.tx_wf()
    }

    closed spec fn tx_queue(&self) -> Seq<Seq<u8>> {
        self.tx.tx_queue()
    }

    closed spec fn tx_space(&self) -> nat {
        self.tx.tx_space()
    }

    closed spec fn tx_count(&self) -> u64 {
        self.tx_stats@.stats.spec_count()
    }

    fn send(&mut self, pkts: Vec<BufferHandle>) -> (sent: usize) {
        let sent = self.tx.send(pkts);
        let stats = self.tx_stats.inner_mut();
        stats.stats.add(sent as u64);
        sent
    }
}

impl<Rx: PacketRx, Tx: PacketTx> PortInfo for PortQueue<Rx, Tx> {
    closed spec fn mac_spec(&self) -> Seq<u8> {
        self.port.mac@
    }

    fn mac_address(&self) -> (m: MacAddr) {
        self.port.mac
    }
}

impl<T: PacketRx> PacketRx for CacheAligned<T> {
    open spec fn rx_wf(&self) -> bool {
        self@.rx_wf()
    }

    open spec fn rx_queue(&self) -> Seq<Seq<u8>> {
        self@.rx_queue()
    }

    open spec fn rx_count(&self) -> u64 {
        self@.rx_count()
    }

    fn recv(&mut self, max: usize) -> (pkts: Vec<BufferHandle>) {
        self.inner_mut().recv(max)
    }
}

impl<T: PacketTx> PacketTx for CacheAligned<T> {
    open spec fn tx_wf(&self) -> bool {
        self@.tx_wf()
    }

    open spec fn tx_queue(&self) -> Seq<Seq<u8>> {
        self@.tx_queue()
    }

    open spec fn tx_space(&self) -> nat {
        self@.tx_space()
    }

    open spec fn tx_count(&self) -> u64 {
        self@.tx_count()
    }

    fn send(&mut self, pkts: Vec<BufferHandle>) -> (sent: usize) {
        self.inner_mut().send(pkts)
    }
}

impl<T: PortInfo> PortInfo for CacheAligned<T> {
    open spec fn mac_spec(&self) -> Seq<u8> {
        self@.mac_spec()
    }

    fn mac_address(&self) -> (m: MacAddr) {
        self.inner().mac_address()
    }
}

} // verus!
