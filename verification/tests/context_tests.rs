use netbricks::context::{Config, Context};
use netbricks::errors::ConfigError;
use netbricks::mac::MacAddr;
use netbricks::pipeline::{Pipeline, Transform};
use netbricks::port::Port;
use netbricks::queue::VirtualQueue;
use netbricks::scheduler::SchedulerState;

fn one_port() -> Port {
    Port::new(MacAddr::new([2, 0, 0, 0, 0, 9]), 1, 1)
}

fn simple_pipeline() -> Pipeline<VirtualQueue, VirtualQueue> {
    Pipeline::new(VirtualQueue::new(4), Transform::Forward, VirtualQueue::new(4), 8, 0)
}

#[test]
fn initialize_without_cores_is_fatal() {
    let cfg = Config { cores: vec![], ports: vec![one_port()] };
    let r: Result<Context<VirtualQueue, VirtualQueue>, ConfigError> = Context::initialize(cfg);
    assert!(matches!(r, Err(ConfigError::NoCores)));
}

#[test]
fn initialize_with_duplicate_core_is_fatal() {
    let cfg = Config { cores: vec![0, 1, 0], ports: vec![] };
    let r: Result<Context<VirtualQueue, VirtualQueue>, ConfigError> = Context::initialize(cfg);
    assert!(matches!(r, Err(ConfigError::DuplicateCore)));
}

#[test]
fn initialize_builds_one_idle_scheduler_per_core() {
    let cfg = Config { cores: vec![0, 2, 5], ports: vec![one_port()] };
    let ctx: Context<VirtualQueue, VirtualQueue> = Context::initialize(cfg).unwrap();
    assert_eq!(ctx.num_schedulers(), 3);
    assert_eq!(ctx.num_ports(), 1);
    let mut i: usize = 0;
    while i < 3 {
        assert_eq!(ctx.scheduler_ref(i).state(), SchedulerState::Idle);
        assert_eq!(ctx.scheduler_ref(i).num_tasks(), 0);
        i += 1;
    }
    assert!(ctx.port(0).mac.equals(&MacAddr::new([2, 0, 0, 0, 0, 9])));
}

#[test]
fn execute_dispatches_pending_pipelines_to_their_cores() {
    let cfg = Config { cores: vec![0, 1], ports: vec![] };
    let mut ctx: Context<VirtualQueue, VirtualQueue> = Context::initialize(cfg).unwrap();
    ctx.start_schedulers();
    assert_eq!(ctx.scheduler_ref(0).state(), SchedulerState::Running);
    assert_eq!(ctx.scheduler_ref(1).state(), SchedulerState::Running);
    ctx.add_pipeline_to_run(1, simple_pipeline());
    ctx.add_pipeline_to_run(0, simple_pipeline());
    ctx.add_pipeline_to_run(1, simple_pipeline());
    ctx.execute();
    assert_eq!(ctx.scheduler_ref(0).num_tasks(), 1);
    assert_eq!(ctx.scheduler_ref(1).num_tasks(), 2);
}

#[test]
fn stop_signals_every_scheduler() {
    let cfg = Config { cores: vec![0, 1], ports: vec![] };
    let mut ctx: Context<VirtualQueue, VirtualQueue> = Context::initialize(cfg).unwrap();
    ctx.start_schedulers();
    ctx.stop();
    assert!(ctx.scheduler_ref(0).stop_requested());
    assert!(ctx.scheduler_ref(1).stop_requested());
    // states are untouched by the request itself; each scheduler's own
    // loop observes the flag on its next cycle
    assert_eq!(ctx.scheduler_ref(0).state(), SchedulerState::Running);
}
