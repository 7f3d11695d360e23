use netbricks::align::CacheAligned;
use netbricks::buffer::BufferHandle;
use netbricks::mac::MacAddr;
use netbricks::pipeline::{Pipeline, Transform};
use netbricks::port::{Port, PortQueue};
use netbricks::queue::{PacketRx, PacketTx, VirtualQueue};

fn eth_frame(dst: [u8; 6], src: [u8; 6], ethertype: u16, payload_len: usize) -> Vec<u8> {
    let mut v: Vec<u8> = Vec::new();
    v.extend_from_slice(&dst);
    v.extend_from_slice(&src);
    v.push((ethertype >> 8) as u8);
    v.push((ethertype & 0xff) as u8);
    let mut i: usize = 0;
    while i < payload_len {
        v.push(0);
        i += 1;
    }
    v
}

fn marked_frame(marker: u8, ethertype: u16) -> BufferHandle {
    BufferHandle::from_bytes(eth_frame([marker; 6], [0x10 + marker; 6], ethertype, 2))
}

#[test]
fn swap_pipeline_transmits_swapped_macs() {
    let aa: [u8; 6] = [0xAA; 6];
    let bb: [u8; 6] = [0xBB; 6];
    // one packet with source AA:AA:AA:AA:AA:AA and destination BB:...
    let mut rx = VirtualQueue::new(4);
    let sent = rx.send(vec![BufferHandle::from_bytes(eth_frame(bb, aa, 0x0800, 8))]);
    assert_eq!(sent, 1);
    let port = Port::new(MacAddr::new([2, 0, 0, 0, 0, 1]), 1, 1);
    let source = CacheAligned::allocate(PortQueue::new(port, 0, 0, rx, VirtualQueue::new(1)));
    let sink = CacheAligned::allocate(
        PortQueue::new(port, 0, 0, VirtualQueue::new(1), VirtualQueue::new(4)),
    );
    let mut p = Pipeline::new(source, Transform::SwapAddresses, sink, 32, 0);
    p.run_once();
    let out_ring = p.sink_ref().inner().tx_endpoint();
    assert_eq!(out_ring.len(), 1);
    let out = out_ring.peek(0);
    // transmitted frame has source BB:... and destination AA:...
    assert_eq!(out.contents()[0..6], [0xAA; 6]);
    assert_eq!(out.contents()[6..12], [0xBB; 6]);
    assert_eq!(p.parse_failure_count(), 0);
    assert_eq!(p.tx_drop_count(), 0);
    assert_eq!(p.source_ref().inner().stats().0, 1);
    assert_eq!(p.sink_ref().inner().stats().1, 1);
}

#[test]
fn malformed_frame_is_dropped_and_counted() {
    // a frame shorter than a header among 4 well-formed frames, and a sink
    // that accepts only 3: exactly 3 frames are transmitted, the parse
    // error counter grows by 1, the full-ring drop counter by 1
    let mut rx = VirtualQueue::new(8);
    rx.send(vec![
        marked_frame(1, 0x0800),
        marked_frame(2, 0x0800),
        BufferHandle::from_bytes(vec![0xEE; 6]),
        marked_frame(4, 0x0800),
        marked_frame(5, 0x0800),
    ]);
    let sink = VirtualQueue::new(3);
    let mut p = Pipeline::new(rx, Transform::SwapAddresses, sink, 32, 0);
    p.run_once();
    assert_eq!(p.parse_failure_count(), 1);
    assert_eq!(p.tx_drop_count(), 1);
    let out = p.sink_ref();
    assert_eq!(out.len(), 3);
    // the swapped survivors, in their original order (markers 1, 2, 4)
    assert_eq!(out.peek(0).byte_at(0), 0x11);
    assert_eq!(out.peek(1).byte_at(0), 0x12);
    assert_eq!(out.peek(2).byte_at(0), 0x14);
}

#[test]
fn full_ring_drops_are_counted_exactly() {
    // the sink accepts only 2 of 5 survivors: 3 drops, counted
    let mut rx = VirtualQueue::new(8);
    rx.send(vec![
        marked_frame(1, 0),
        marked_frame(2, 0),
        marked_frame(3, 0),
        marked_frame(4, 0),
        marked_frame(5, 0),
    ]);
    let sink = VirtualQueue::new(2);
    let mut p = Pipeline::new(rx, Transform::Forward, sink, 32, 0);
    p.run_once();
    assert_eq!(p.tx_drop_count(), 3);
    assert_eq!(p.parse_failure_count(), 0);
    let out = p.sink_ref();
    assert_eq!(out.len(), 2);
    assert_eq!(out.peek(0).byte_at(0), 1);
    assert_eq!(out.peek(1).byte_at(0), 2);
}

#[test]
fn filter_keeps_survivor_order() {
    // survivors (ethertype matches) come out in their input order
    let mut rx = VirtualQueue::new(8);
    rx.send(vec![
        marked_frame(1, 0x0800),
        marked_frame(2, 0x0806),
        marked_frame(3, 0x0800),
        BufferHandle::from_bytes(vec![1, 2, 3]),
        marked_frame(5, 0x0800),
    ]);
    let sink = VirtualQueue::new(8);
    let mut p = Pipeline::new(rx, Transform::RequireEtherType(0x0800), sink, 32, 0);
    p.run_once();
    let out = p.sink_ref();
    assert_eq!(out.len(), 3);
    assert_eq!(out.peek(0).byte_at(0), 1);
    assert_eq!(out.peek(1).byte_at(0), 3);
    assert_eq!(out.peek(2).byte_at(0), 5);
    assert_eq!(p.parse_failure_count(), 2);
    assert_eq!(p.tx_drop_count(), 0);
}

#[test]
fn batch_size_bounds_one_cycle() {
    let mut rx = VirtualQueue::new(8);
    rx.send(vec![marked_frame(1, 0), marked_frame(2, 0), marked_frame(3, 0)]);
    let sink = VirtualQueue::new(8);
    let mut p = Pipeline::new(rx, Transform::Forward, sink, 2, 0);
    p.run_once();
    assert_eq!(p.sink_ref().len(), 2);
    assert_eq!(p.source_ref().len(), 1);
    p.run_once();
    assert_eq!(p.sink_ref().len(), 3);
    assert_eq!(p.source_ref().len(), 0);
}

#[test]
fn chained_transforms_compose_in_order() {
    // swap the addresses first, then keep only one ethertype
    let mut rx = VirtualQueue::new(8);
    rx.send(vec![marked_frame(1, 0x0800), marked_frame(2, 0x0806), marked_frame(3, 0x0800)]);
    let stage = Transform::Then(
        Box::new(Transform::SwapAddresses),
        Box::new(Transform::RequireEtherType(0x0800)),
    );
    let mut p = Pipeline::new(rx, stage, VirtualQueue::new(8), 32, 0);
    p.run_once();
    let out = p.sink_ref();
    assert_eq!(out.len(), 2);
    // survivors kept their order and carry the swapped addresses
    assert_eq!(out.peek(0).byte_at(0), 0x11);
    assert_eq!(out.peek(0).byte_at(6), 1);
    assert_eq!(out.peek(1).byte_at(0), 0x13);
    assert_eq!(p.parse_failure_count(), 1);
}

#[test]
fn transform_apply_reports_the_error_kind() {
    let keep = Transform::RequireEtherType(0x0800);
    let short = BufferHandle::from_bytes(vec![0; 5]);
    assert!(matches!(keep.apply(short), Err(netbricks::errors::ParseError::TooShort)));
    let foreign = marked_frame(1, 0x0806);
    assert!(matches!(
        keep.apply(foreign),
        Err(netbricks::errors::ParseError::UnsupportedEtherType)
    ));
    let good = marked_frame(2, 0x0800);
    assert!(keep.apply(good).is_ok());
    let anything = BufferHandle::from_bytes(vec![]);
    assert!(Transform::Forward.apply(anything).is_ok());
}

#[test]
fn empty_source_cycle_is_a_no_op() {
    let rx = VirtualQueue::new(4);
    let sink = VirtualQueue::new(4);
    let mut p = Pipeline::new(rx, Transform::SwapAddresses, sink, 32, 7);
    p.run_once();
    assert_eq!(p.sink_ref().len(), 0);
    assert_eq!(p.parse_failure_count(), 0);
    assert_eq!(p.tx_drop_count(), 0);
}
