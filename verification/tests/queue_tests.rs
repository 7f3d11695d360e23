use netbricks::buffer::BufferHandle;
use netbricks::queue::{PacketRx, PacketTx, VirtualQueue};

fn packet(marker: u8) -> BufferHandle {
    BufferHandle::from_bytes(vec![marker; 16])
}

#[test]
fn receive_on_empty_queue_returns_empty_batch() {
    let mut q = VirtualQueue::new(8);
    let batch = q.recv(32);
    assert_eq!(batch.len(), 0);
    assert_eq!(q.received_count(), 0);
}

#[test]
fn receive_returns_at_most_what_is_available() {
    let mut q = VirtualQueue::new(8);
    let sent = q.send(vec![packet(1), packet(2)]);
    assert_eq!(sent, 2);
    let batch = q.recv(32);
    assert_eq!(batch.len(), 2);
    assert_eq!(batch[0].byte_at(0), 1);
    assert_eq!(batch[1].byte_at(0), 2);
}

#[test]
fn receive_keeps_order_and_exclusive_ownership() {
    let mut q = VirtualQueue::new(8);
    q.send(vec![packet(9), packet(8), packet(7)]);
    let batch = q.recv(2);
    assert_eq!(batch.len(), 2);
    assert_eq!(batch[0].byte_at(0), 9);
    assert_eq!(batch[1].byte_at(0), 8);
    assert!(batch.iter().all(|p| p.refcnt() == 1));
    // the rest stays queued, in order
    assert_eq!(q.len(), 1);
    assert_eq!(q.peek(0).byte_at(0), 7);
    assert_eq!(q.received_count(), 2);
}

#[test]
fn send_accepts_only_what_fits() {
    let mut q = VirtualQueue::new(2);
    let sent = q.send(vec![packet(1), packet(2), packet(3), packet(4), packet(5)]);
    assert_eq!(sent, 2);
    assert_eq!(q.len(), 2);
    assert_eq!(q.peek(0).byte_at(0), 1);
    assert_eq!(q.peek(1).byte_at(0), 2);
    assert_eq!(q.transmitted_count(), 2);
    assert_eq!(q.capacity(), 2);
}

#[test]
fn send_then_receive_round_trips() {
    let mut q = VirtualQueue::new(4);
    q.send(vec![packet(42)]);
    let batch = q.recv(1);
    assert_eq!(batch.len(), 1);
    assert_eq!(batch[0].byte_at(0), 42);
    assert_eq!(batch[0].len(), 16);
    let again = q.recv(1);
    assert_eq!(again.len(), 0);
}

#[test]
fn handles_leaving_a_queue_are_always_exclusive() {
    // a deterministic pseudo-random walk of sends and receives: every
    // handle a queue ever hands out is exclusively owned
    let mut state: u64 = 0x2545F4914F6CDD1D;
    let mut q = VirtualQueue::new(16);
    let mut marker: u8 = 0;
    for _ in 0..200 {
        state = state.wrapping_mul(6364136223846793005).wrapping_add(1442695040888963407);
        let roll = (state >> 33) as usize;
        if roll % 3 == 0 {
            let n = roll % 5;
            let mut batch: Vec<BufferHandle> = Vec::new();
            for _ in 0..n {
                batch.push(packet(marker));
                marker = marker.wrapping_add(1);
            }
            q.send(batch);
        } else {
            let got = q.recv(roll % 7);
            for p in &got {
                assert_eq!(p.refcnt(), 1);
            }
        }
    }
    while q.len() > 0 {
        let got = q.recv(3);
        for p in &got {
            assert_eq!(p.refcnt(), 1);
        }
    }
}
