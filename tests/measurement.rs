use dashboard::attacks::get_attack_config;
use dashboard::demo::DemoState;
use dashboard::timing::{base_restart_ms, speedup_factor};

#[test]
fn speedup_calculation_is_correct() {
    // 1500 ms against 0.03 ms, in microseconds
    let python_us: u64 = 1_500_000;
    let wasm_us: u64 = 30;
    let speedup = speedup_factor(python_us, wasm_us).unwrap();
    assert!(speedup > 40000 && speedup < 60000, "speedup should be ~50000x");
}

#[test]
fn speedup_handles_zero_wasm_time() {
    let python_us: u64 = 1_500_000;
    let wasm_us: u64 = 0;
    let speedup = speedup_factor(python_us, wasm_us);
    assert!(speedup.is_none() || speedup.unwrap() > 0);
}

#[test]
fn downtime_accumulates_correctly() {
    let crashes = 3u64;
    let restart_ms = 1500u64;
    let mut s = DemoState::new();
    for _ in 0..crashes {
        let w = s.python.active_worker;
        s.python_worker_crashed(w);
        s.python_worker_respawned(restart_ms);
    }
    assert_eq!(s.python.downtime_ms, 4500, "3 crashes x 1500ms = 4500ms");
    assert_eq!(s.python.crashed, 3);
}

#[test]
fn wasm_downtime_always_zero() {
    let mut s = DemoState::new();
    for i in 0..3u8 {
        s.wasm_instance_trapped(i);
        s.wasm_instance_rebuilt(i);
        let old = s.wasm_leader_crashed();
        s.wasm_leader_elected(dashboard::demo::next_index(old));
        s.wasm_instance_rebuilt(old);
    }
    let wasm_downtime: u64 = s.wasm.downtime_ms;
    assert_eq!(wasm_downtime, 0, "wasm should never have downtime");
}

#[test]
fn negative_time_rejected() {
    let measured_time: i32 = -5;
    let nominal = get_attack_config("pathTraversal").restart_ms;
    assert_eq!(base_restart_ms(measured_time, nominal), nominal, "negative time should be invalid");
}

#[test]
fn python_time_has_upper_bound() {
    let python_coldstart = get_attack_config("pathTraversal").restart_ms;
    assert_eq!(python_coldstart, 1500);
    let max_reasonable = 10000;
    assert!(python_coldstart < max_reasonable, "python coldstart should be under 10s");
}

#[test]
fn reset_clears_all_metrics() {
    let mut s = DemoState::new();
    s.start_python_session();
    s.start_wasm_session("[METRICS] Instantiate: 0.03ms (real)".to_string());
    s.python_worker_crashed(0);
    s.python_worker_respawned(1700);
    s.wasm_instance_trapped(2);
    s.reset();
    let python_processed: u32 = s.python.processed;
    let python_crashed: u32 = s.python.crashed;
    let python_downtime_ms: u64 = s.python.downtime_ms;
    let wasm_processed: u32 = s.wasm.processed;
    let wasm_rejected: u32 = s.wasm.rejected;

    assert_eq!(python_processed, 0);
    assert_eq!(python_crashed, 0);
    assert_eq!(python_downtime_ms, 0);
    assert_eq!(wasm_processed, 0);
    assert_eq!(wasm_rejected, 0);
}
