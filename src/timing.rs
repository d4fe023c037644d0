use vstd::prelude::*;

verus! {

/// Shortest restart delay ever simulated, in milliseconds.
pub const MIN_RESTART_MS: u64 = 500;

/// Nominal respawn time of a crashed leader, in milliseconds.
pub const LEADER_RESTART_MS: u32 = 1500;

/// Largest jitter, either way, added to a nominal restart delay.
pub const JITTER_SPAN_MS: i32 = 200;

/// The delay actually waited: the nominal delay moved by the jitter, floored at
/// the minimum.
pub open spec fn restart_delay(base: int, jitter: int) -> int {
    if base + jitter > MIN_RESTART_MS {
        base + jitter
    } else {
        MIN_RESTART_MS as int
    }
}

/// The nominal restart delay: the measured cold start of the interpreted
/// runtime when one was captured (a positive value), else the scenario's own.
pub fn base_restart_ms(measured_ms: i32, nominal_ms: u32) -> (r: u32)
    ensures
        measured_ms > 0 ==> r == measured_ms,
        measured_ms <= 0 ==> r == nominal_ms,
{
    if measured_ms > 0 {
        measured_ms as u32
    } else {
        nominal_ms
    }
}

/// Applies a jitter draw to a nominal delay and floors the result at
/// `MIN_RESTART_MS`.
pub fn restart_delay_ms(base_ms: u32, jitter_ms: i32) -> (r: u64)
    ensures
        r == restart_delay(base_ms as int, jitter_ms as int),
        r >= MIN_RESTART_MS,
{
    let shifted: i64 = base_ms as i64 + jitter_ms as i64;
    if shifted > MIN_RESTART_MS as i64 {
        shifted as u64
    } else {
        MIN_RESTART_MS
    }
}

/// For every nominal delay and every jitter draw within the span, the delay
/// waited is at least `MIN_RESTART_MS`, and it exceeds the nominal delay by
/// no more than the span.
pub proof fn lemma_restart_delay_bounds(base: int, jitter: int)
    requires
        base >= 0,
        -JITTER_SPAN_MS <= jitter <= JITTER_SPAN_MS,
    ensures
        restart_delay(base, jitter) >= MIN_RESTART_MS,
        restart_delay(base, jitter) <= if base + JITTER_SPAN_MS > MIN_RESTART_MS {
            base + JITTER_SPAN_MS
        } else {
            MIN_RESTART_MS as int
        },
{
}

/// How many times faster the sandboxed start is than the interpreted one, in
/// whole times; `None` when either time is missing (zero).
pub fn speedup_factor(interpreted_us: u64, sandboxed_us: u64) -> (r: Option<u64>)
    ensures
        (interpreted_us == 0 || sandboxed_us == 0) <==> r is None,
        r matches Some(k) ==> k == interpreted_us / sandboxed_us,
{
    if interpreted_us == 0 || sandboxed_us == 0 {
        None
    } else {
        Some(interpreted_us / sandboxed_us)
    }
}

} // verus!
