use dashboard::attacks::{get_attack_code, get_attack_config, run_all_schedule, ATTACK_DATA_EXFIL, RUN_ALL_SPACING_MS, UNKNOWN_ATTACK_CODE};
use dashboard::demo::{healthy_peers, DemoState};
use dashboard::modbus::parse_frame;
use dashboard::ota::{
    calc_download_time_ms, currency_scale, fleet_size_from_input, network_from_name, ota_compare, ota_report, time_scale,
    total_bandwidth_kb, update_cost_micros, CurrencyScale, NetworkType, TimeScale, DEFAULT_FLEET_SIZE,
};
use dashboard::outcome::parse_attack_outcome;
use dashboard::sensor::init_sensor;
use dashboard::simulation::SimulationRuns;
use dashboard::tabs::Tab;
use dashboard::timing::{base_restart_ms, restart_delay_ms, speedup_factor};
use dashboard::types::{InstanceState, LogEntry, LogLevel};

#[test]
fn known_attacks_get_their_own_record() {
    for id in ["bufferOverflow", "dataExfil", "pathTraversal", "killLeader", "heartbeatTimeout"] {
        let c = get_attack_config(id);
        assert_ne!(c.name, "Unknown Attack");
        assert!(!c.name.is_empty());
    }
    let k = get_attack_config("killLeader");
    assert_eq!(k.name, "Kill Leader");
    assert_eq!(k.restart_ms, 1500);
    assert_eq!(k.wasm_trap, "leader instance terminated");
    let h = get_attack_config("heartbeatTimeout");
    assert_eq!(h.restart_ms, 2000);
    assert_eq!(h.wit_func, "(N/A - network scenario)");
}

#[test]
fn lookup_is_case_sensitive() {
    let c = get_attack_config("BufferOverflow");
    assert_eq!(c.name, "Unknown Attack");
    assert_eq!(c.restart_ms, 1000);
    assert_eq!(c.wasm_trap, "trap");
    assert_eq!(c.wit_func, "unknown()");
}

#[test]
fn attack_code_by_identifier() {
    assert_eq!(get_attack_code("dataExfil"), ATTACK_DATA_EXFIL);
    assert_eq!(get_attack_code("killLeader"), UNKNOWN_ATTACK_CODE);
    assert_eq!(get_attack_code(""), UNKNOWN_ATTACK_CODE);
}

#[test]
fn restart_delay_is_floored_at_500() {
    assert_eq!(restart_delay_ms(0, -200), 500);
    assert_eq!(restart_delay_ms(0, 200), 500);
    assert_eq!(restart_delay_ms(600, -200), 500);
    assert_eq!(restart_delay_ms(1500, 200), 1700);
    assert_eq!(restart_delay_ms(1500, -200), 1300);
    assert_eq!(restart_delay_ms(u32::MAX, 200), u32::MAX as u64 + 200);
    for base in [0u32, 100, 499, 500, 700, 1800, 2100] {
        for jitter in [-200i32, -1, 0, 1, 200] {
            assert!(restart_delay_ms(base, jitter) >= 500);
        }
    }
}

#[test]
fn measured_cold_start_replaces_nominal_delay() {
    assert_eq!(base_restart_ms(1234, 1800), 1234);
    assert_eq!(base_restart_ms(0, 1800), 1800);
}

#[test]
fn speedup_is_floor_of_ratio() {
    assert_eq!(speedup_factor(1_500_000, 30), Some(50000));
    assert_eq!(speedup_factor(10, 3), Some(3));
    assert_eq!(speedup_factor(0, 3), None);
}

#[test]
fn leader_crash_accrues_downtime_at_once() {
    let mut s = DemoState::new();
    let next = s.python_leader_crashed(1500);
    assert_eq!(next, 1);
    assert_eq!(s.python.workers, [false, true, true]);
    assert_eq!(s.python.downtime_ms, 1500);
    assert_eq!(s.python.crashed, 1);
    assert!(s.python.restarting);
    s.python_leader_respawned(next);
    assert_eq!(s.python.workers, [true, true, true]);
    assert_eq!(s.python.active_worker, 1);
    assert_eq!(s.python.downtime_ms, 1500);
    assert!(!s.python.restarting);
}

#[test]
fn mixed_crashes_sum_their_delays() {
    let mut s = DemoState::new();
    s.python_worker_crashed(0);
    s.python_worker_respawned(1300);
    let next = s.python_leader_crashed(1700);
    s.python_leader_respawned(next);
    s.python_worker_crashed(s.python.active_worker);
    s.python_worker_respawned(500);
    assert_eq!(s.python.downtime_ms, 3500);
    assert_eq!(s.python.crashed, 3);
}

#[test]
fn second_fault_replaces_the_first() {
    let mut s = DemoState::new();
    s.wasm_instance_trapped(0);
    s.wasm_instance_trapped(2);
    assert_eq!(s.wasm.instances, [InstanceState::Healthy, InstanceState::Healthy, InstanceState::Faulty]);
    assert_eq!(s.wasm.faulty_instance, Some(2));
    assert_eq!(s.wasm.rejected, 2);
    // the late rebuild of the first instance changes nothing
    s.wasm_instance_rebuilt(0);
    assert_eq!(s.wasm.faulty_instance, Some(2));
    s.wasm_instance_rebuilt(2);
    assert_eq!(s.wasm.faulty_instance, None);
}

#[test]
fn reset_restores_pools_and_leader() {
    let mut s = DemoState::new();
    s.start_python_session();
    s.start_wasm_session("metrics".to_string());
    let old = s.wasm_leader_crashed();
    s.wasm_leader_elected(1);
    assert_eq!(old, 0);
    s.python_leader_crashed(900);
    assert!(s.try_begin_run_all());
    s.reset();
    assert_eq!(s.wasm.instances, [InstanceState::Healthy; 3]);
    assert_eq!(s.wasm.faulty_instance, None);
    assert_eq!(s.wasm.leader_id, 0);
    assert_eq!(s.python.workers, [true, true, true]);
    assert_eq!(s.python.active_worker, 0);
    assert!(!s.python.restarting);
    assert!(s.python.logs.is_empty());
    assert!(s.wasm.logs.is_empty());
    assert!(!s.is_running);
    assert!(!s.running_all);
}

#[test]
fn sessions_open_once() {
    let mut s = DemoState::new();
    s.start_python_session();
    assert_eq!(s.python.processed, 5);
    assert_eq!(s.python.logs.len(), 2);
    assert_eq!(s.python.logs[0].message, "$ python gateway.py --workers 3");
    assert_eq!(s.python.logs[1].level, LogLevel::Success);
    s.log_python(LogEntry::new(LogLevel::Warn, "[ATTACK] Incoming: Kill Leader"));
    s.start_python_session();
    assert_eq!(s.python.logs.len(), 3);
    s.start_wasm_session("[METRICS] Instantiate: 0.03ms (real)".to_string());
    assert_eq!(s.wasm.logs.len(), 3);
    assert_eq!(s.wasm.logs[2].message, "[METRICS] Instantiate: 0.03ms (real)");
    assert_eq!(s.wasm.processed, 5);
    s.log_wasm(LogEntry::new(LogLevel::Error, "x"));
    assert_eq!(s.wasm.logs.len(), 4);
    assert_eq!(LogLevel::Warn.as_str(), "warn");
    assert_eq!(LogLevel::Error.as_str(), "error");
}

#[test]
fn run_all_holds_the_demo() {
    let mut s = DemoState::new();
    assert!(s.try_begin_run_all());
    assert!(!s.try_begin_run_all());
    // each attack of the run may start while the run holds the demo
    assert!(s.try_begin_attack());
    s.python_worker_crashed(0);
    s.python_worker_respawned(800);
    assert!(s.is_running);
    s.finish_run_all();
    assert!(!s.is_running);
    assert!(!s.running_all);
}

#[test]
fn single_attack_released_by_respawn() {
    let mut s = DemoState::new();
    assert!(s.try_begin_attack());
    assert!(!s.try_begin_run_all());
    s.python_worker_crashed(0);
    s.python_worker_respawned(800);
    assert!(!s.is_running);
}

#[test]
fn sensor_run_is_exclusive() {
    let mut s = DemoState::new();
    assert!(s.try_begin_sensor_run());
    assert!(!s.try_begin_sensor_run());
    s.finish_sensor_run();
    assert!(s.try_begin_sensor_run());
}

#[test]
fn peers_of_each_slot() {
    assert_eq!(healthy_peers(0), (1, 2));
    assert_eq!(healthy_peers(1), (0, 2));
    assert_eq!(healthy_peers(2), (0, 1));
}

#[test]
fn schedule_is_spaced() {
    let schedule = run_all_schedule();
    for (i, a) in schedule.iter().enumerate() {
        assert_eq!(a.delay_ms, i as u64 * RUN_ALL_SPACING_MS);
        assert_eq!(a.is_leader_attack, i >= 3);
    }
    assert_eq!(schedule[4].delay_ms, 14000);
}

#[test]
fn ota_cellular_fleet_of_thousand() {
    let r = ota_report(1000, NetworkType::Cellular);
    assert_eq!(r.docker_time_ms, 40_000); // 40 s
    assert_eq!(r.wasm_time_ms, 40); // 0.04 s
    assert_eq!(r.docker_bandwidth_kb, 50_000_000);
    assert_eq!(r.wasm_bandwidth_kb, 50_000);
    assert_eq!(r.docker_cost_micros, 5_000_000_000); // $5,000
    assert_eq!(r.wasm_cost_micros, 5_000_000); // $5
    assert_eq!(r.yearly_savings_micros, 59_940_000_000); // $59,940
    assert_eq!(r.size_ratio, 1000);
}

#[test]
fn ota_other_links() {
    let e = ota_report(100, NetworkType::Ethernet);
    assert_eq!(e.docker_time_ms, 4000);
    assert_eq!(e.wasm_time_ms, 4);
    assert_eq!(e.docker_cost_micros, 5_000_000); // $5
    let s = ota_report(10000, NetworkType::Satellite);
    assert_eq!(s.docker_time_ms, 400_000);
    assert_eq!(s.docker_cost_micros, 5_000_000_000_000); // $5M
    assert_eq!(s.yearly_savings_micros, 59_940_000_000_000);
}

#[test]
fn ota_general_formulas() {
    let r = ota_compare(7, 30, 40, 3, 11);
    assert_eq!(r.docker_time_ms, 80);
    assert_eq!(r.yearly_savings_micros, (30 - 40) * 7 * 11 * 12);
    assert_eq!(r.size_ratio, 0);
    assert_eq!(calc_download_time_ms(50, 100), 4);
    assert_eq!(total_bandwidth_kb(u32::MAX, u32::MAX), u32::MAX as u64 * u32::MAX as u64);
    assert_eq!(update_cost_micros(u32::MAX, u32::MAX, u32::MAX), (u32::MAX as u128).pow(3));
}

#[test]
fn network_selector_values() {
    assert_eq!(network_from_name("ethernet"), NetworkType::Ethernet);
    assert_eq!(network_from_name("satellite"), NetworkType::Satellite);
    assert_eq!(network_from_name("cellular"), NetworkType::Cellular);
    assert_eq!(network_from_name("Ethernet"), NetworkType::Cellular);
    assert_eq!(NetworkType::Satellite.speed_mbps(), 1);
    assert_eq!(NetworkType::Satellite.cost_per_mb(), 10000);
}

#[test]
fn fleet_input_parsing() {
    assert_eq!(fleet_size_from_input("2500"), 2500);
    assert_eq!(fleet_size_from_input("+7"), 7);
    assert_eq!(fleet_size_from_input("007"), 7);
    assert_eq!(fleet_size_from_input(""), DEFAULT_FLEET_SIZE);
    assert_eq!(fleet_size_from_input("+"), DEFAULT_FLEET_SIZE);
    assert_eq!(fleet_size_from_input("-5"), DEFAULT_FLEET_SIZE);
    assert_eq!(fleet_size_from_input(" 5"), DEFAULT_FLEET_SIZE);
    assert_eq!(fleet_size_from_input("4294967295"), u32::MAX);
    assert_eq!(fleet_size_from_input("4294967296"), DEFAULT_FLEET_SIZE);
}

#[test]
fn display_scales() {
    assert_eq!(time_scale(40), TimeScale::Millis);
    assert_eq!(time_scale(999), TimeScale::Millis);
    assert_eq!(time_scale(1000), TimeScale::Seconds);
    assert_eq!(time_scale(40_000), TimeScale::Seconds);
    assert_eq!(time_scale(400_000), TimeScale::Minutes);
    assert_eq!(time_scale(3_600_000), TimeScale::Hours);
    assert_eq!(currency_scale(-5), CurrencyScale::Cents);
    assert_eq!(currency_scale(999_999), CurrencyScale::Cents);
    assert_eq!(currency_scale(5_000_000), CurrencyScale::Dollars);
    assert_eq!(currency_scale(5_000_000_000), CurrencyScale::Thousands);
    assert_eq!(currency_scale(59_940_000_000_000), CurrencyScale::Millions);
}

#[test]
fn modbus_frame_fields() {
    let f = parse_frame(&[0x11, 0x03, 0x00, 0x6b, 0x00, 0x03, 0x76, 0x87]).ok().unwrap();
    assert_eq!(f.device_id, 0x11);
    assert_eq!(f.function_code, 0x03);
    assert_eq!(f.data, vec![0x00, 0x6b, 0x00, 0x03]);
    let g = parse_frame(&[1, 2, 3, 4]).ok().unwrap();
    assert!(g.data.is_empty());
}

#[test]
fn modbus_short_frame_rejected() {
    assert_eq!(parse_frame(&[1, 2, 3]).err(), Some("Frame too short"));
    assert_eq!(parse_frame(&[]).err(), Some("Frame too short"));
}

#[test]
fn attack_outcome_fields() {
    let o = parse_attack_outcome("CRASHED|IndexError|buffer[64] out of bounds|0.4ms");
    assert_eq!(o.status, "CRASHED");
    assert_eq!(o.error_type, "IndexError");
    assert_eq!(o.message, "buffer[64] out of bounds");
    let p = parse_attack_outcome("BLOCKED|socket.error|Network access denied");
    assert_eq!(p.message, "Network access denied");
    let e = parse_attack_outcome("a||");
    assert_eq!((e.status.as_str(), e.error_type.as_str(), e.message.as_str()), ("a", "", ""));
}

#[test]
fn attack_outcome_fallback() {
    let o = parse_attack_outcome("VULNERABLE|only two");
    assert_eq!(o.status, "CRASHED");
    assert_eq!(o.error_type, "Exception");
    assert_eq!(o.message, "VULNERABLE|only two");
    let q = parse_attack_outcome("{'status': 'unknown'}");
    assert_eq!(q.message, "{'status': 'unknown'}");
}

#[test]
fn tab_labels() {
    assert_eq!(Tab::Problem.label(), "The Problem");
    assert_eq!(Tab::Proof.label(), "The Proof");
}

#[test]
fn sensor_initialises() {
    assert!(init_sensor());
}

#[test]
fn simulation_runs_are_exclusive_and_counted() {
    let mut runs = SimulationRuns::new();
    assert!(!runs.has_results());
    assert!(runs.try_begin());
    assert!(!runs.try_begin());
    runs.finish();
    assert!(!runs.running);
    assert_eq!(runs.run_count, 1);
    assert!(runs.has_results());
}
