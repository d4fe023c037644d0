use dashboard::attacks::run_all_schedule;
use dashboard::demo::{healthy_count, DemoState};
use dashboard::types::InstanceState;

#[test]
fn instance_count_always_three() {
    let s = DemoState::new();
    let instances = s.wasm.instances;
    assert_eq!(instances, [InstanceState::Healthy, InstanceState::Healthy, InstanceState::Healthy]);
    assert_eq!(instances.len(), 3, "must have exactly 3 instances for tmr");
}

#[test]
fn faulty_count_never_exceeds_one() {
    let mut s = DemoState::new();
    s.wasm_instance_trapped(1);
    let states = s.wasm.instances;
    assert_eq!(states, [InstanceState::Healthy, InstanceState::Faulty, InstanceState::Healthy]);
    let faulty_count = states.iter().filter(|s| **s == InstanceState::Faulty).count();
    assert!(faulty_count <= 1, "demo should have at most 1 faulty instance at a time");
    assert_eq!(healthy_count(&states), 2);
}

#[test]
fn running_all_completes_in_order() {
    let attack_order = ["bufferOverflow", "dataExfil", "pathTraversal", "killLeader", "heartbeatTimeout"];
    let schedule = run_all_schedule();
    let names: Vec<&str> = schedule.iter().map(|a| a.attack).collect();
    assert_eq!(names, attack_order);
    assert_eq!(schedule.len(), 5, "run_all should execute exactly 5 attacks");
}

#[test]
fn is_running_prevents_double_trigger() {
    let mut s = DemoState::new();
    assert!(s.try_begin_attack());
    let is_running = s.is_running;
    assert!(is_running);
    let can_trigger = s.try_begin_attack();
    assert!(!can_trigger, "should not trigger while running");
}

#[test]
fn worker_pool_always_has_active() {
    let mut s = DemoState::new();
    s.python_worker_crashed(0);
    let workers = s.python.workers;
    assert_eq!(workers, [false, true, true]); // w0 dead, w1 active, w2 standby
    assert_eq!(s.python.active_worker, 1);
    let active_count = workers.iter().filter(|w| **w).count();
    assert!(active_count >= 1, "must have at least 1 active worker");
}
