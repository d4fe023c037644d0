//! The logic of an edge-security demonstration dashboard: the scripted attack
//! table, the state machine of the attack demo (worker and instance pools,
//! counters, terminals), restart-delay rules, the OTA bandwidth and cost
//! calculator, and a Modbus frame splitter.

pub mod attacks;
pub mod demo;
pub mod modbus;
pub mod ota;
pub mod outcome;
pub mod sensor;
pub mod simulation;
pub mod tabs;
pub mod timing;
pub mod types;
