use vstd::prelude::*;

use crate::attacks::same_text;

verus! {

/// Size of one container update, in kilobytes (50 MB).
pub const DOCKER_UPDATE_SIZE_KB: u32 = 50000;

/// Size of one compiled module update, in kilobytes (0.05 MB).
pub const WASM_UPDATE_SIZE_KB: u32 = 50;

/// Update cycles in a year.
pub const UPDATES_PER_YEAR: u32 = 12;

/// Fleet size used when the input holds no number.
pub const DEFAULT_FLEET_SIZE: u32 = 1000;

/// The link that carries an update to the fleet.
#[derive(Clone, Copy, Debug, PartialEq, Eq, Structural)]
pub enum NetworkType {
    Ethernet,
    Cellular,
    Satellite,
}

impl NetworkType {
    /// Link speed in megabits per second.
    pub open spec fn spec_speed_mbps(self) -> u32 {
        match self {
            NetworkType::Ethernet => 100,
            NetworkType::Cellular => 10,
            NetworkType::Satellite => 1,
        }
    }

    /// Price of one megabyte, in thousandths of a dollar.
    pub open spec fn spec_cost_per_mb(self) -> u32 {
        match self {
            NetworkType::Ethernet => 1,
            NetworkType::Cellular => 100,
            NetworkType::Satellite => 10000,
        }
    }

    /// Link speed in megabits per second.
    pub fn speed_mbps(&self) -> (r: u32)
        ensures
            r == self.spec_speed_mbps(),
            r > 0,
    {
        match self {
            NetworkType::Ethernet => 100,
            NetworkType::Cellular => 10,
            NetworkType::Satellite => 1,
        }
    }

    /// Price of one megabyte, in thousandths of a dollar.
    pub fn cost_per_mb(&self) -> (r: u32)
        ensures
            r == self.spec_cost_per_mb(),
    {
        match self {
            NetworkType::Ethernet => 1,
            NetworkType::Cellular => 100,
            NetworkType::Satellite => 10000,
        }
    }
}

/// The link named by a selector value: "ethernet" or "satellite", and
/// cellular for anything else.
pub open spec fn network_named(name: Seq<char>) -> NetworkType {
    if name == "ethernet"@ {
        NetworkType::Ethernet
    } else if name == "satellite"@ {
        NetworkType::Satellite
    } else {
        NetworkType::Cellular
    }
}

/// Returns the link named by a selector value.
pub fn network_from_name(name: &str) -> (r: NetworkType)
    ensures
        r == network_named(name@),
{
    if same_text(name, "ethernet") {
        NetworkType::Ethernet
    } else if same_text(name, "satellite") {
        NetworkType::Satellite
    } else {
        NetworkType::Cellular
    }
}

/// Download time in milliseconds of `size_kb` kilobytes over a link of
/// `speed_mbps` megabits per second: size × 8 / speed, rounded down.
pub fn calc_download_time_ms(size_kb: u32, speed_mbps: u32) -> (r: u64)
    requires
        speed_mbps > 0,
    ensures
        r == (size_kb as int * 8) / (speed_mbps as int),
{
    (size_kb as u64 * 8) / speed_mbps as u64
}

/// Kilobytes sent to the whole fleet for one update.
pub fn total_bandwidth_kb(size_kb: u32, fleet_size: u32) -> (r: u64)
    ensures
        r == size_kb as int * fleet_size as int,
{
    proof {
        assert(size_kb as int * fleet_size as int <= u32::MAX as int * u32::MAX as int) by (nonlinear_arith);
    }
    size_kb as u64 * fleet_size as u64
}

/// Cost in millionths of a dollar of sending `size_kb` kilobytes to each
/// device of the fleet at `cost_per_mb` thousandths of a dollar per megabyte.
pub open spec fn update_cost(size_kb: int, fleet_size: int, cost_per_mb: int) -> int {
    size_kb * fleet_size * cost_per_mb
}

/// Computes `update_cost`.
pub fn update_cost_micros(size_kb: u32, fleet_size: u32, cost_per_mb: u32) -> (r: u128)
    ensures
        r == update_cost(size_kb as int, fleet_size as int, cost_per_mb as int),
{
    let bandwidth: u64 = total_bandwidth_kb(size_kb, fleet_size);
    proof {
        assert(bandwidth as int * cost_per_mb as int <= u64::MAX as int * u32::MAX as int) by (nonlinear_arith)
            requires
                bandwidth <= u64::MAX,
                cost_per_mb <= u32::MAX,
        ;
    }
    bandwidth as u128 * cost_per_mb as u128
}

/// Both kinds of update compared over one fleet and one link.
pub struct OtaReport {
    pub docker_time_ms: u64,
    pub wasm_time_ms: u64,
    pub docker_bandwidth_kb: u64,
    pub wasm_bandwidth_kb: u64,
    pub docker_cost_micros: u128,
    pub wasm_cost_micros: u128,
    pub yearly_savings_micros: i128,
    pub size_ratio: u32,
}

/// What a comparison holds: per-device download times, fleet-wide bandwidth,
/// cost per update cycle of each kind, the yearly savings of the smaller
/// update, and how many times smaller it is.
pub open spec fn compares(r: OtaReport, fleet_size: int, docker_kb: int, wasm_kb: int, speed_mbps: int, cost_per_mb: int) -> bool {
    &&& r.docker_time_ms == (docker_kb * 8) / speed_mbps
    &&& r.wasm_time_ms == (wasm_kb * 8) / speed_mbps
    &&& r.docker_bandwidth_kb == docker_kb * fleet_size
    &&& r.wasm_bandwidth_kb == wasm_kb * fleet_size
    &&& r.docker_cost_micros == update_cost(docker_kb, fleet_size, cost_per_mb)
    &&& r.wasm_cost_micros == update_cost(wasm_kb, fleet_size, cost_per_mb)
    &&& r.yearly_savings_micros == (docker_kb - wasm_kb) * fleet_size * cost_per_mb * UPDATES_PER_YEAR
    &&& r.size_ratio == docker_kb / wasm_kb
}

/// Compares updates of `docker_kb` and `wasm_kb` kilobytes per device for a
/// fleet of `fleet_size` devices over a link of `speed_mbps` megabits per second
/// priced at `cost_per_mb` thousandths of a dollar per megabyte.
pub fn ota_compare(fleet_size: u32, docker_kb: u32, wasm_kb: u32, speed_mbps: u32, cost_per_mb: u32) -> (r: OtaReport)
    requires
        speed_mbps > 0,
        wasm_kb > 0,
    ensures
        compares(r, fleet_size as int, docker_kb as int, wasm_kb as int, speed_mbps as int, cost_per_mb as int),
{
    let docker_cost: u128 = update_cost_micros(docker_kb, fleet_size, cost_per_mb);
    let wasm_cost: u128 = update_cost_micros(wasm_kb, fleet_size, cost_per_mb);
    proof {
        let f = fleet_size as int;
        let p = cost_per_mb as int;
        assert(docker_kb as int * f * p <= u32::MAX as int * u32::MAX as int * u32::MAX as int) by (nonlinear_arith)
            requires
                0 <= docker_kb <= u32::MAX,
                0 <= f <= u32::MAX,
                0 <= p <= u32::MAX,
        ;
        assert(wasm_kb as int * f * p <= u32::MAX as int * u32::MAX as int * u32::MAX as int) by (nonlinear_arith)
            requires
                0 <= wasm_kb <= u32::MAX,
                0 <= f <= u32::MAX,
                0 <= p <= u32::MAX,
        ;
        assert((docker_kb as int * f * p - wasm_kb as int * f * p) * 12 == (docker_kb as int - wasm_kb as int)
            * f * p * 12) by (nonlinear_arith);
    }
    let savings: i128 = (docker_cost as i128 - wasm_cost as i128) * UPDATES_PER_YEAR as i128;
    OtaReport {
        docker_time_ms: calc_download_time_ms(docker_kb, speed_mbps),
        wasm_time_ms: calc_download_time_ms(wasm_kb, speed_mbps),
        docker_bandwidth_kb: total_bandwidth_kb(docker_kb, fleet_size),
        wasm_bandwidth_kb: total_bandwidth_kb(wasm_kb, fleet_size),
        docker_cost_micros: docker_cost,
        wasm_cost_micros: wasm_cost,
        yearly_savings_micros: savings,
        size_ratio: docker_kb / wasm_kb,
    }
}

/// Compares a container update with a compiled module update for a fleet of
/// `fleet_size` devices on the given link.
pub fn ota_report(fleet_size: u32, network: NetworkType) -> (r: OtaReport)
    ensures
        compares(
            r,
            fleet_size as int,
            DOCKER_UPDATE_SIZE_KB as int,
            WASM_UPDATE_SIZE_KB as int,
            network.spec_speed_mbps() as int,
            network.spec_cost_per_mb() as int,
        ),
{
    ota_compare(fleet_size, DOCKER_UPDATE_SIZE_KB, WASM_UPDATE_SIZE_KB, network.speed_mbps(), network.cost_per_mb())
}

/// The unit a duration is shown in.
#[derive(Clone, Copy, Debug, PartialEq, Eq, Structural)]
pub enum TimeScale {
    Millis,
    Seconds,
    Minutes,
    Hours,
}

/// Picks the unit for a duration of `ms` milliseconds: milliseconds under a
/// second, seconds under a minute, minutes under an hour, hours beyond.
pub fn time_scale(ms: u64) -> (r: TimeScale)
    ensures
        ms < 1000 <==> r == TimeScale::Millis,
        1000 <= ms < 60_000 <==> r == TimeScale::Seconds,
        60_000 <= ms < 3_600_000 <==> r == TimeScale::Minutes,
        3_600_000 <= ms <==> r == TimeScale::Hours,
{
    if ms < 1000 {
        TimeScale::Millis
    } else if ms < 60_000 {
        TimeScale::Seconds
    } else if ms < 3_600_000 {
        TimeScale::Minutes
    } else {
        TimeScale::Hours
    }
}

/// The unit an amount of money is shown in.
#[derive(Clone, Copy, Debug, PartialEq, Eq, Structural)]
pub enum CurrencyScale {
    Cents,
    Dollars,
    Thousands,
    Millions,
}

/// Picks the unit for an amount of `micros` millionths of a dollar: cents
/// under a dollar, whole dollars under a thousand, thousands under a million,
/// millions beyond.
pub fn currency_scale(micros: i128) -> (r: CurrencyScale)
    ensures
        micros < 1_000_000 <==> r == CurrencyScale::Cents,
        1_000_000 <= micros < 1_000_000_000 <==> r == CurrencyScale::Dollars,
        1_000_000_000 <= micros < 1_000_000_000_000 <==> r == CurrencyScale::Thousands,
        1_000_000_000_000 <= micros <==> r == CurrencyScale::Millions,
{
    if micros < 1_000_000 {
        CurrencyScale::Cents
    } else if micros < 1_000_000_000 {
        CurrencyScale::Dollars
    } else if micros < 1_000_000_000_000 {
        CurrencyScale::Thousands
    } else {
        CurrencyScale::Millions
    }
}

/// Whether every character is an ASCII decimal digit.
pub open spec fn all_digits(d: Seq<char>) -> bool {
    forall|i: int| 0 <= i < d.len() ==> '0' <= #[trigger] d[i] <= '9'
}

/// The number written by a string of decimal digits.
pub open spec fn digits_value(d: Seq<char>) -> int
    decreases d.len(),
{
    if d.len() == 0 {
        0
    } else {
        digits_value(d.drop_last()) * 10 + (d.last() as int - '0' as int)
    }
}

/// The `u32` a text denotes: an optional `+` followed by one or more decimal
/// digits whose value fits; `None` for any other text.
pub open spec fn decimal_u32(s: Seq<char>) -> Option<u32> {
    let d = if s.len() > 0 && s[0] == '+' {
        s.drop_first()
    } else {
        s
    };
    if d.len() > 0 && all_digits(d) && digits_value(d) <= u32::MAX {
        Some(digits_value(d) as u32)
    } else {
        None
    }
}

/// Relies on `<u32 as FromStr>::from_str`: it accepts an optional `+` followed
/// by decimal digits whose value fits, and refuses anything else.
#[verifier::external_body]
fn parse_u32(s: &str) -> (r: Option<u32>)
    ensures
        r == decimal_u32(s@),
{
    s.parse::<u32>().ok()
}

/// The fleet size typed into the input, or `DEFAULT_FLEET_SIZE` when the input
/// holds no number.
pub fn fleet_size_from_input(input: &str) -> (r: u32)
    ensures
        r == match decimal_u32(input@) {
            Some(n) => n,
            None => DEFAULT_FLEET_SIZE,
        },
{
    match parse_u32(input) {
        Some(n) => n,
        None => DEFAULT_FLEET_SIZE,
    }
}

} // verus!
