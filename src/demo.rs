use vstd::prelude::*;

use crate::types::{log_view, InstanceState, LogEntry, LogLevel};

verus! {

/// Number of instances in the sandboxed pool and of workers in the interpreted pool.
pub const POOL_SIZE: u8 = 3;

/// Messages handled on each side before the first attack of a session.
pub const WARMUP_PROCESSED: u32 = 5;

/// The slot after `i`, wrapping around the pool.
pub open spec fn next_slot(i: int) -> int {
    (i + 1) % (POOL_SIZE as int)
}

/// Returns the slot that takes over from slot `i`.
pub fn next_index(i: u8) -> (r: u8)
    requires
        i < POOL_SIZE,
    ensures
        r == next_slot(i as int),
        r < POOL_SIZE,
        r != i,
{
    (i + 1) % POOL_SIZE
}

/// 1 for a faulty instance, 0 for a healthy one.
pub open spec fn fault_flag(s: InstanceState) -> int {
    if s == InstanceState::Faulty {
        1
    } else {
        0
    }
}

/// Number of faulty instances in the pool.
pub open spec fn faulty_count(a: [InstanceState; 3]) -> int {
    fault_flag(a@[0]) + fault_flag(a@[1]) + fault_flag(a@[2])
}

/// The pool with only instance `i` faulty.
pub open spec fn only_faulty(i: int) -> Seq<InstanceState> {
    Seq::new(3, |j: int| if j == i { InstanceState::Faulty } else { InstanceState::Healthy })
}

/// Counters, pools and terminal of the interpreted runtime's side.
pub struct PythonSide {
    pub processed: u32,
    pub crashed: u32,
    pub downtime_ms: u64,
    pub workers: [bool; 3],
    pub active_worker: u8,
    pub restarting: bool,
    pub logs: Vec<LogEntry>,
}

/// Counters, pool and terminal of the sandboxed runtime's side.
pub struct WasmSide {
    pub processed: u32,
    pub rejected: u32,
    pub downtime_ms: u64,
    pub instances: [InstanceState; 3],
    pub faulty_instance: Option<u8>,
    pub leader_id: u8,
    pub logs: Vec<LogEntry>,
}

/// The state of the attack demo: both sides and the flags that keep two
/// operations from overlapping.
pub struct DemoState {
    pub python: PythonSide,
    pub wasm: WasmSide,
    pub is_running: bool,
    pub running_all: bool,
    pub sensor_running: bool,
}

/// Both flags and the wasm side are as they were.
pub open spec fn python_step_frame(pre: DemoState, post: DemoState) -> bool {
    &&& post.wasm == pre.wasm
    &&& post.running_all == pre.running_all
    &&& post.sensor_running == pre.sensor_running
    &&& post.python.processed == pre.python.processed
    &&& post.python.logs == pre.python.logs
}

/// Worker `w` of the interpreted pool crashed: it is down, the next worker
/// takes over, a respawn is under way and one more crash is counted.
pub open spec fn worker_crash_post(pre: DemoState, w: int, post: DemoState) -> bool {
    &&& python_step_frame(pre, post)
    &&& post.is_running == pre.is_running
    &&& post.python.workers@ == seq![true, true, true].update(w, false)
    &&& post.python.active_worker == next_slot(w)
    &&& post.python.restarting
    &&& post.python.crashed == pre.python.crashed + 1
    &&& post.python.downtime_ms == pre.python.downtime_ms
}

/// The crashed worker came back after `delay` ms: the pool is whole again, the
/// delay is added to the downtime, and a single attack releases the demo.
pub open spec fn worker_respawn_post(pre: DemoState, delay: int, post: DemoState) -> bool {
    &&& python_step_frame(pre, post)
    &&& post.is_running == (pre.is_running && pre.running_all)
    &&& post.python.workers@ == seq![true, true, true]
    &&& post.python.active_worker == pre.python.active_worker
    &&& !post.python.restarting
    &&& post.python.crashed == pre.python.crashed
    &&& post.python.downtime_ms == pre.python.downtime_ms + delay
}

/// The leading worker crashed with a respawn of `delay` ms ahead: it is down, the
/// delay is added to the downtime at once, and one more crash is counted.
pub open spec fn leader_crash_post(pre: DemoState, delay: int, post: DemoState) -> bool {
    &&& python_step_frame(pre, post)
    &&& post.is_running == pre.is_running
    &&& post.python.workers@ == pre.python.workers@.update(pre.python.active_worker as int, false)
    &&& post.python.active_worker == pre.python.active_worker
    &&& post.python.restarting
    &&& post.python.crashed == pre.python.crashed + 1
    &&& post.python.downtime_ms == pre.python.downtime_ms + delay
}

/// The crashed leader came back and worker `leader` leads: the pool is whole
/// again and a single attack releases the demo.
pub open spec fn leader_respawn_post(pre: DemoState, leader: int, post: DemoState) -> bool {
    &&& python_step_frame(pre, post)
    &&& post.is_running == (pre.is_running && pre.running_all)
    &&& post.python.workers@ == seq![true, true, true]
    &&& post.python.active_worker == leader
    &&& !post.python.restarting
    &&& post.python.crashed == pre.python.crashed
    &&& post.python.downtime_ms == pre.python.downtime_ms
}

/// One whole crash of the interpreted side with a restart delay of `delay` ms:
/// a worker crash and its respawn, or a leader crash and its respawn.
pub open spec fn crash_cycle(pre: DemoState, delay: int, post: DemoState) -> bool {
    ||| exists|mid: DemoState, w: int|
        #[trigger] worker_crash_post(pre, w, mid) && #[trigger] worker_respawn_post(mid, delay, post)
    ||| exists|mid: DemoState, leader: int|
        #[trigger] leader_crash_post(pre, delay, mid) && #[trigger] leader_respawn_post(mid, leader, post)
}

/// Sum of a list of delays.
pub open spec fn total_ms(delays: Seq<u64>) -> int
    decreases delays.len(),
{
    if delays.len() == 0 {
        0
    } else {
        total_ms(delays.drop_last()) + delays.last()
    }
}

/// After crashes with restart delays d1..dN, the downtime of the interpreted
/// side has grown by exactly d1 + ... + dN, and its crash count by N.
pub proof fn lemma_downtime_is_sum(states: Seq<DemoState>, delays: Seq<u64>)
    requires
        states.len() == delays.len() + 1,
        forall|i: int| 0 <= i < delays.len() ==> crash_cycle(states[i], delays[i] as int, states[i + 1]),
    ensures
        states.last().python.downtime_ms == states[0].python.downtime_ms + total_ms(delays),
        states.last().python.crashed == states[0].python.crashed + delays.len(),
    decreases delays.len(),
{
    if delays.len() > 0 {
        let n = delays.len() - 1;
        lemma_downtime_is_sum(states.drop_last(), delays.drop_last());
        assert(crash_cycle(states[n], delays[n] as int, states[n + 1]));
        assert(states.drop_last().last() == states[n]);
        assert(delays.drop_last() =~= delays.subrange(0, n));
    }
}

/// In every state the demo can reach, at most one instance is faulty and the
/// sandboxed side's downtime is zero, however many attacks have run.
pub proof fn lemma_sandbox_invariants(s: DemoState)
    requires
        s.wf(),
    ensures
        faulty_count(s.wasm.instances) <= 1,
        s.wasm.downtime_ms == 0,
{
}

impl WasmSide {
    /// At most one instance is faulty, `faulty_instance` names it, the leader is
    /// a slot of the pool, and the sandboxed side never accrues downtime.
    pub open spec fn wf(&self) -> bool {
        &&& faulty_count(self.instances) <= 1
        &&& self.leader_id < POOL_SIZE
        &&& self.downtime_ms == 0
        &&& match self.faulty_instance {
            Some(i) => i < POOL_SIZE && self.instances@[i as int] == InstanceState::Faulty,
            None => faulty_count(self.instances) == 0,
        }
    }
}

impl DemoState {
    /// The sandboxed side is well formed and a worker of the pool leads.
    pub open spec fn wf(&self) -> bool {
        &&& self.wasm.wf()
        &&& self.python.active_worker < POOL_SIZE
    }

    /// The state of a fresh demo, which a reset returns to: no counts, no lines,
    /// every instance healthy and every worker alive, slot 0 leading on both
    /// sides, nothing running.
    pub open spec fn is_initial(&self) -> bool {
        &&& self.python.processed == 0
        &&& self.python.crashed == 0
        &&& self.python.downtime_ms == 0
        &&& self.wasm.processed == 0
        &&& self.wasm.rejected == 0
        &&& self.wasm.downtime_ms == 0
        &&& self.wasm.instances@ == seq![InstanceState::Healthy, InstanceState::Healthy, InstanceState::Healthy]
        &&& self.wasm.faulty_instance is None
        &&& self.wasm.leader_id == 0
        &&& self.python.workers@ == seq![true, true, true]
        &&& self.python.active_worker == 0
        &&& !self.python.restarting
        &&& self.python.logs@.len() == 0
        &&& self.wasm.logs@.len() == 0
        &&& !self.is_running
        &&& !self.running_all
    }

    /// Creates a fresh demo.
    pub fn new() -> (r: DemoState)
        ensures
            r.wf(),
            r.is_initial(),
            !r.sensor_running,
    {
        DemoState {
            python: PythonSide {
                processed: 0,
                crashed: 0,
                downtime_ms: 0,
                workers: [true, true, true],
                active_worker: 0,
                restarting: false,
                logs: Vec::new(),
            },
            wasm: WasmSide {
                processed: 0,
                rejected: 0,
                downtime_ms: 0,
                instances: [InstanceState::Healthy, InstanceState::Healthy, InstanceState::Healthy],
                faulty_instance: None,
                leader_id: 0,
                logs: Vec::new(),
            },
            is_running: false,
            running_all: false,
            sensor_running: false,
        }
    }

    /// Clears both terminals, zeroes the counters and restores both pools.
    pub fn reset(&mut self)
        ensures
            final(self).wf(),
            final(self).is_initial(),
            final(self).sensor_running == old(self).sensor_running,
    {
        let sensor_running = self.sensor_running;
        *self = DemoState::new();
        self.sensor_running = sensor_running;
    }

    /// Starts a single attack unless another operation holds the demo. During a
    /// run of all attacks the run holds the flag and each attack may start.
    pub fn try_begin_attack(&mut self) -> (started: bool)
        ensures
            started == (!old(self).is_running || old(self).running_all),
            final(self).is_running == (old(self).is_running || !old(self).running_all),
            final(self).running_all == old(self).running_all,
            final(self).sensor_running == old(self).sensor_running,
            final(self).python == old(self).python,
            final(self).wasm == old(self).wasm,
    {
        if self.is_running && !self.running_all {
            return false;
        }
        if !self.running_all {
            self.is_running = true;
        }
        true
    }

    /// Starts a run of all attacks unless an operation is in flight.
    pub fn try_begin_run_all(&mut self) -> (started: bool)
        ensures
            started == (!old(self).is_running && !old(self).running_all),
            started ==> final(self).is_running && final(self).running_all,
            !started ==> final(self).is_running == old(self).is_running,
            !started ==> final(self).running_all == old(self).running_all,
            final(self).sensor_running == old(self).sensor_running,
            final(self).python == old(self).python,
            final(self).wasm == old(self).wasm,
    {
        if self.is_running || self.running_all {
            return false;
        }
        self.is_running = true;
        self.running_all = true;
        true
    }

    /// Ends a run of all attacks and releases the demo.
    pub fn finish_run_all(&mut self)
        ensures
            !final(self).is_running,
            !final(self).running_all,
            final(self).sensor_running == old(self).sensor_running,
            final(self).python == old(self).python,
            final(self).wasm == old(self).wasm,
    {
        self.is_running = false;
        self.running_all = false;
    }

    /// Starts the sensor comparison unless one is already under way.
    pub fn try_begin_sensor_run(&mut self) -> (started: bool)
        ensures
            started == !old(self).sensor_running,
            final(self).sensor_running,
            final(self).is_running == old(self).is_running,
            final(self).running_all == old(self).running_all,
            final(self).python == old(self).python,
            final(self).wasm == old(self).wasm,
    {
        if self.sensor_running {
            return false;
        }
        self.sensor_running = true;
        true
    }

    /// Marks the sensor comparison as done.
    pub fn finish_sensor_run(&mut self)
        ensures
            !final(self).sensor_running,
            final(self).is_running == old(self).is_running,
            final(self).running_all == old(self).running_all,
            final(self).python == old(self).python,
            final(self).wasm == old(self).wasm,
    {
        self.sensor_running = false;
    }

    /// Worker `worker` of the interpreted pool crashed under an attack.
    pub fn python_worker_crashed(&mut self, worker: u8)
        requires
            old(self).wf(),
            worker < POOL_SIZE,
            old(self).python.crashed < u32::MAX,
        ensures
            final(self).wf(),
            worker_crash_post(*old(self), worker as int, *final(self)),
    {
        self.python.workers = [true, true, true];
        self.python.workers[worker as usize] = false;
        self.python.active_worker = next_index(worker);
        self.python.restarting = true;
        self.python.crashed = self.python.crashed + 1;
        assert(self.python.workers@ =~= seq![true, true, true].update(worker as int, false));
    }

    /// The crashed worker respawned after `delay_ms`.
    pub fn python_worker_respawned(&mut self, delay_ms: u64)
        requires
            old(self).wf(),
            old(self).python.downtime_ms + delay_ms <= u64::MAX,
        ensures
            final(self).wf(),
            worker_respawn_post(*old(self), delay_ms as int, *final(self)),
    {
        self.python.workers = [true, true, true];
        self.python.restarting = false;
        self.python.downtime_ms = self.python.downtime_ms + delay_ms;
        if !self.running_all {
            self.is_running = false;
        }
        assert(self.python.workers@ =~= seq![true, true, true]);
    }

    /// The leading worker crashed; its respawn will take `delay_ms`. Returns the
    /// worker that leads once the respawn is over.
    pub fn python_leader_crashed(&mut self, delay_ms: u64) -> (next: u8)
        requires
            old(self).wf(),
            old(self).python.crashed < u32::MAX,
            old(self).python.downtime_ms + delay_ms <= u64::MAX,
        ensures
            final(self).wf(),
            leader_crash_post(*old(self), delay_ms as int, *final(self)),
            next == next_slot(old(self).python.active_worker as int),
    {
        let leader = self.python.active_worker;
        self.python.workers[leader as usize] = false;
        self.python.restarting = true;
        self.python.downtime_ms = self.python.downtime_ms + delay_ms;
        self.python.crashed = self.python.crashed + 1;
        next_index(leader)
    }

    /// The crashed leader respawned and worker `leader` now leads.
    pub fn python_leader_respawned(&mut self, leader: u8)
        requires
            old(self).wf(),
            leader < POOL_SIZE,
        ensures
            final(self).wf(),
            leader_respawn_post(*old(self), leader as int, *final(self)),
    {
        self.python.workers = [true, true, true];
        self.python.active_worker = leader;
        self.python.restarting = false;
        if !self.running_all {
            self.is_running = false;
        }
        assert(self.python.workers@ =~= seq![true, true, true]);
    }

    /// Instance `idx` trapped on a blocked capability: it alone is marked
    /// faulty, and one more rejected attack is counted.
    pub fn wasm_instance_trapped(&mut self, idx: u8)
        requires
            old(self).wf(),
            idx < POOL_SIZE,
            old(self).wasm.rejected < u32::MAX,
        ensures
            final(self).wf(),
            final(self).wasm.instances@ == only_faulty(idx as int),
            final(self).wasm.faulty_instance == Some(idx),
            final(self).wasm.rejected == old(self).wasm.rejected + 1,
            final(self).wasm.processed == old(self).wasm.processed,
            final(self).wasm.leader_id == old(self).wasm.leader_id,
            final(self).wasm.downtime_ms == old(self).wasm.downtime_ms,
            final(self).wasm.logs == old(self).wasm.logs,
            final(self).python == old(self).python,
            final(self).is_running == old(self).is_running,
            final(self).running_all == old(self).running_all,
            final(self).sensor_running == old(self).sensor_running,
    {
        self.mark_only_faulty(idx);
        self.wasm.rejected = self.wasm.rejected + 1;
    }

    /// The leading instance went down: it alone is marked faulty until it is
    /// rebuilt. Returns its index.
    pub fn wasm_leader_crashed(&mut self) -> (leader: u8)
        requires
            old(self).wf(),
        ensures
            final(self).wf(),
            leader == old(self).wasm.leader_id,
            final(self).wasm.instances@ == only_faulty(leader as int),
            final(self).wasm.faulty_instance == Some(leader),
            final(self).wasm.rejected == old(self).wasm.rejected,
            final(self).wasm.processed == old(self).wasm.processed,
            final(self).wasm.leader_id == old(self).wasm.leader_id,
            final(self).wasm.downtime_ms == old(self).wasm.downtime_ms,
            final(self).wasm.logs == old(self).wasm.logs,
            final(self).python == old(self).python,
            final(self).is_running == old(self).is_running,
            final(self).running_all == old(self).running_all,
            final(self).sensor_running == old(self).sensor_running,
    {
        let leader = self.wasm.leader_id;
        self.mark_only_faulty(leader);
        leader
    }

    /// Instance `leader` won the election; the attack counts as rejected.
    pub fn wasm_leader_elected(&mut self, leader: u8)
        requires
            old(self).wf(),
            leader < POOL_SIZE,
            old(self).wasm.rejected < u32::MAX,
        ensures
            final(self).wf(),
            final(self).wasm.leader_id == leader,
            final(self).wasm.rejected == old(self).wasm.rejected + 1,
            final(self).wasm.instances == old(self).wasm.instances,
            final(self).wasm.faulty_instance == old(self).wasm.faulty_instance,
            final(self).wasm.processed == old(self).wasm.processed,
            final(self).wasm.downtime_ms == old(self).wasm.downtime_ms,
            final(self).wasm.logs == old(self).wasm.logs,
            final(self).python == old(self).python,
            final(self).is_running == old(self).is_running,
            final(self).running_all == old(self).running_all,
            final(self).sensor_running == old(self).sensor_running,
    {
        self.wasm.leader_id = leader;
        self.wasm.rejected = self.wasm.rejected + 1;
    }

    /// Instance `idx` was rebuilt. If it is the faulty one, the pool is healthy
    /// again; if a later fault has already replaced it, nothing changes.
    pub fn wasm_instance_rebuilt(&mut self, idx: u8)
        requires
            old(self).wf(),
            idx < POOL_SIZE,
        ensures
            final(self).wf(),
            old(self).wasm.instances@[idx as int] == InstanceState::Faulty ==> {
                &&& final(self).wasm.instances@ == seq![InstanceState::Healthy, InstanceState::Healthy, InstanceState::Healthy]
                &&& final(self).wasm.faulty_instance is None
            },
            old(self).wasm.instances@[idx as int] == InstanceState::Healthy ==> {
                &&& final(self).wasm.instances == old(self).wasm.instances
                &&& final(self).wasm.faulty_instance == old(self).wasm.faulty_instance
            },
            final(self).wasm.rejected == old(self).wasm.rejected,
            final(self).wasm.processed == old(self).wasm.processed,
            final(self).wasm.leader_id == old(self).wasm.leader_id,
            final(self).wasm.downtime_ms == old(self).wasm.downtime_ms,
            final(self).wasm.logs == old(self).wasm.logs,
            final(self).python == old(self).python,
            final(self).is_running == old(self).is_running,
            final(self).running_all == old(self).running_all,
            final(self).sensor_running == old(self).sensor_running,
    {
        if self.wasm.instances[idx as usize] == InstanceState::Faulty {
            self.wasm.instances[idx as usize] = InstanceState::Healthy;
            self.wasm.faulty_instance = None;
            assert(self.wasm.instances@ =~= seq![InstanceState::Healthy, InstanceState::Healthy, InstanceState::Healthy]);
        }
    }

    /// Marks instance `idx` as the only faulty one.
    fn mark_only_faulty(&mut self, idx: u8)
        requires
            old(self).wf(),
            idx < POOL_SIZE,
        ensures
            final(self).wf(),
            final(self).wasm.instances@ == only_faulty(idx as int),
            final(self).wasm.faulty_instance == Some(idx),
            final(self).wasm.rejected == old(self).wasm.rejected,
            final(self).wasm.processed == old(self).wasm.processed,
            final(self).wasm.leader_id == old(self).wasm.leader_id,
            final(self).wasm.downtime_ms == old(self).wasm.downtime_ms,
            final(self).wasm.logs == old(self).wasm.logs,
            final(self).python == old(self).python,
            final(self).is_running == old(self).is_running,
            final(self).running_all == old(self).running_all,
            final(self).sensor_running == old(self).sensor_running,
    {
        self.wasm.instances = [InstanceState::Healthy, InstanceState::Healthy, InstanceState::Healthy];
        self.wasm.instances[idx as usize] = InstanceState::Faulty;
        self.wasm.faulty_instance = Some(idx);
        assert(self.wasm.instances@ =~= only_faulty(idx as int));
    }

    /// Opens the interpreted side's terminal on the first attack of a session:
    /// when it is empty it gets the pool's start-up lines and the warm-up count.
    pub fn start_python_session(&mut self)
        requires
            old(self).wf(),
        ensures
            final(self).wf(),
            old(self).python.logs@.len() == 0 ==> {
                &&& log_view(final(self).python.logs@) == seq![
                    (LogLevel::Info, "$ python gateway.py --workers 3"@),
                    (LogLevel::Success, "[OK] Worker pool: W0 active, W1/W2 standby"@),
                ]
                &&& final(self).python.processed == WARMUP_PROCESSED
            },
            old(self).python.logs@.len() > 0 ==> final(self).python.logs == old(self).python.logs,
            old(self).python.logs@.len() > 0 ==> final(self).python.processed == old(self).python.processed,
            final(self).python.crashed == old(self).python.crashed,
            final(self).python.downtime_ms == old(self).python.downtime_ms,
            final(self).python.workers == old(self).python.workers,
            final(self).python.active_worker == old(self).python.active_worker,
            final(self).python.restarting == old(self).python.restarting,
            final(self).wasm == old(self).wasm,
            final(self).is_running == old(self).is_running,
            final(self).running_all == old(self).running_all,
            final(self).sensor_running == old(self).sensor_running,
    {
        if self.python.logs.len() == 0 {
            let mut logs: Vec<LogEntry> = Vec::new();
            logs.push(LogEntry::new(LogLevel::Info, "$ python gateway.py --workers 3"));
            logs.push(LogEntry::new(LogLevel::Success, "[OK] Worker pool: W0 active, W1/W2 standby"));
            self.python.logs = logs;
            self.python.processed = WARMUP_PROCESSED;
            assert(log_view(self.python.logs@) =~= seq![
                (LogLevel::Info, "$ python gateway.py --workers 3"@),
                (LogLevel::Success, "[OK] Worker pool: W0 active, W1/W2 standby"@),
            ]);
        }
    }

    /// Opens the sandboxed side's terminal on the first attack of a session:
    /// when it is empty it gets the pool's start-up lines, ending with
    /// `metrics_line` (the measured instantiation time), and the warm-up count.
    pub fn start_wasm_session(&mut self, metrics_line: String)
        requires
            old(self).wf(),
        ensures
            final(self).wf(),
            old(self).wasm.logs@.len() == 0 ==> {
                &&& log_view(final(self).wasm.logs@) == seq![
                    (LogLevel::Info, "$ wasmtime gateway.wasm --mode 2oo3"@),
                    (LogLevel::Success, "[OK] 2oo3 TMR: I0, I1, I2 initialized"@),
                    (LogLevel::Info, metrics_line@),
                ]
                &&& final(self).wasm.processed == WARMUP_PROCESSED
            },
            old(self).wasm.logs@.len() > 0 ==> final(self).wasm.logs == old(self).wasm.logs,
            old(self).wasm.logs@.len() > 0 ==> final(self).wasm.processed == old(self).wasm.processed,
            final(self).wasm.rejected == old(self).wasm.rejected,
            final(self).wasm.downtime_ms == old(self).wasm.downtime_ms,
            final(self).wasm.instances == old(self).wasm.instances,
            final(self).wasm.faulty_instance == old(self).wasm.faulty_instance,
            final(self).wasm.leader_id == old(self).wasm.leader_id,
            final(self).python == old(self).python,
            final(self).is_running == old(self).is_running,
            final(self).running_all == old(self).running_all,
            final(self).sensor_running == old(self).sensor_running,
    {
        if self.wasm.logs.len() == 0 {
            let mut logs: Vec<LogEntry> = Vec::new();
            logs.push(LogEntry::new(LogLevel::Info, "$ wasmtime gateway.wasm --mode 2oo3"));
            logs.push(LogEntry::new(LogLevel::Success, "[OK] 2oo3 TMR: I0, I1, I2 initialized"));
            logs.push(LogEntry { level: LogLevel::Info, message: metrics_line });
            self.wasm.logs = logs;
            self.wasm.processed = WARMUP_PROCESSED;
            assert(log_view(self.wasm.logs@) =~= seq![
                (LogLevel::Info, "$ wasmtime gateway.wasm --mode 2oo3"@),
                (LogLevel::Success, "[OK] 2oo3 TMR: I0, I1, I2 initialized"@),
                (LogLevel::Info, metrics_line@),
            ]);
        }
    }

    /// Appends a line to the interpreted side's terminal.
    pub fn log_python(&mut self, entry: LogEntry)
        requires
            old(self).wf(),
        ensures
            final(self).wf(),
            final(self).python.logs@ == old(self).python.logs@.push(entry),
            final(self).python.processed == old(self).python.processed,
            final(self).python.crashed == old(self).python.crashed,
            final(self).python.downtime_ms == old(self).python.downtime_ms,
            final(self).python.workers == old(self).python.workers,
            final(self).python.active_worker == old(self).python.active_worker,
            final(self).python.restarting == old(self).python.restarting,
            final(self).wasm == old(self).wasm,
            final(self).is_running == old(self).is_running,
            final(self).running_all == old(self).running_all,
            final(self).sensor_running == old(self).sensor_running,
    {
        self.python.logs.push(entry);
    }

    /// Appends a line to the sandboxed side's terminal.
    pub fn log_wasm(&mut self, entry: LogEntry)
        requires
            old(self).wf(),
        ensures
            final(self).wf(),
            final(self).wasm.logs@ == old(self).wasm.logs@.push(entry),
            final(self).wasm.processed == old(self).wasm.processed,
            final(self).wasm.rejected == old(self).wasm.rejected,
            final(self).wasm.downtime_ms == old(self).wasm.downtime_ms,
            final(self).wasm.instances == old(self).wasm.instances,
            final(self).wasm.faulty_instance == old(self).wasm.faulty_instance,
            final(self).wasm.leader_id == old(self).wasm.leader_id,
            final(self).python == old(self).python,
            final(self).is_running == old(self).is_running,
            final(self).running_all == old(self).running_all,
            final(self).sensor_running == old(self).sensor_running,
    {
        self.wasm.logs.push(entry);
    }
}

/// Returns how many of the three instances are healthy.
pub fn healthy_count(instances: &[InstanceState; 3]) -> (r: u8)
    ensures
        r == 3 - faulty_count(*instances),
{
    let mut n: u8 = 0;
    if instances[0] == InstanceState::Healthy {
        n = n + 1;
    }
    if instances[1] == InstanceState::Healthy {
        n = n + 1;
    }
    if instances[2] == InstanceState::Healthy {
        n = n + 1;
    }
    n
}

/// The two slots other than `slot`, in ascending order: the instances whose
/// outputs still agree while `slot` is faulty.
pub fn healthy_peers(slot: u8) -> (r: (u8, u8))
    requires
        slot < POOL_SIZE,
    ensures
        r.0 < r.1 < POOL_SIZE,
        r.0 != slot,
        r.1 != slot,
{
    if slot == 0 {
        (1, 2)
    } else if slot == 1 {
        (0, 2)
    } else {
        (0, 1)
    }
}

} // verus!
