use netbricks::buffer::BufferHandle;
use netbricks::errors::TaskError;
use netbricks::pipeline::{Pipeline, Transform};
use netbricks::queue::{PacketTx, VirtualQueue};
use netbricks::scheduler::{Scheduler, SchedulerState};

fn loaded_pipeline(n_packets: u8, batch: usize) -> Pipeline<VirtualQueue, VirtualQueue> {
    let mut rx = VirtualQueue::new(16);
    let mut i: u8 = 0;
    while i < n_packets {
        rx.send(vec![BufferHandle::from_bytes(vec![i; 16])]);
        i += 1;
    }
    Pipeline::new(rx, Transform::Forward, VirtualQueue::new(16), batch, 0)
}

#[test]
fn scheduler_starts_idle_and_empty() {
    let s: Scheduler<VirtualQueue, VirtualQueue> = Scheduler::new();
    assert_eq!(s.state(), SchedulerState::Idle);
    assert_eq!(s.num_tasks(), 0);
    assert!(!s.stop_requested());
}

#[test]
fn run_cycle_drives_every_task_in_order() {
    let mut s: Scheduler<VirtualQueue, VirtualQueue> = Scheduler::new();
    assert!(s.add_task(loaded_pipeline(3, 2)).is_ok());
    s.start();
    assert!(s.add_task(loaded_pipeline(1, 2)).is_ok());
    assert_eq!(s.num_tasks(), 2);
    s.run_cycle();
    // each task ran exactly one bounded cycle
    assert_eq!(s.task_ref(0).sink_ref().len(), 2);
    assert_eq!(s.task_ref(1).sink_ref().len(), 1);
    s.run_cycle();
    assert_eq!(s.task_ref(0).sink_ref().len(), 3);
    assert_eq!(s.task_ref(1).sink_ref().len(), 1);
}

#[test]
fn stop_is_observed_within_one_cycle() {
    let mut s: Scheduler<VirtualQueue, VirtualQueue> = Scheduler::new();
    assert!(s.add_task(loaded_pipeline(4, 1)).is_ok());
    s.start();
    s.run_cycle();
    assert_eq!(s.state(), SchedulerState::Running);
    assert_eq!(s.task_ref(0).sink_ref().len(), 1);
    s.request_stop();
    s.run_cycle();
    // the flag was observed at the head of the cycle: state is terminal
    // and no further task work happened
    assert_eq!(s.state(), SchedulerState::Stopped);
    assert_eq!(s.task_ref(0).sink_ref().len(), 1);
}

#[test]
fn add_task_fails_after_stop() {
    let mut s: Scheduler<VirtualQueue, VirtualQueue> = Scheduler::new();
    s.start();
    s.request_stop();
    s.run_cycle();
    assert_eq!(s.state(), SchedulerState::Stopped);
    let r = s.add_task(loaded_pipeline(0, 1));
    assert_eq!(r, Err(TaskError::SchedulerStopped));
    assert_eq!(s.num_tasks(), 0);
}
