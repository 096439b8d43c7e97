//! Records of the Observatory's analysis views that carry no measurement
//! in floating point: causal chains, interrupt counters, binary layout,
//! configuration drift, firmware, security findings, the source-to-silicon
//! path, and events across machines.
use vstd::prelude::*;

use crate::model::TruthLevel;

verus! {

/// One step of a causal chain behind an observation.
#[derive(Debug, Clone)]
pub struct CausalStep {
    pub title: String,
    pub detail: String,
    pub truth: TruthLevel,
}

/// Interrupt rate of one source on one CPU.
#[derive(Debug, Clone)]
pub struct IrqStat {
    pub irq: String,
    pub source: String,
    pub cpu: usize,
    pub interrupts_per_second: u64,
}

/// One section of an executable image.
#[derive(Debug, Clone)]
pub struct BinarySection {
    pub name: String,
    pub size_bytes: u64,
    pub flags: String,
}

/// The layout of an executable image.
#[derive(Debug, Clone)]
pub struct BinarySnapshot {
    pub path: String,
    pub format: String,
    pub architecture: String,
    pub entry_point: u64,
    pub build_id: String,
    pub sections: Vec<BinarySection>,
    pub libraries: Vec<String>,
}

/// One item that differs between two machines or two points in time.
#[derive(Debug, Clone)]
pub struct DiffEntry {
    pub category: String,
    pub item: String,
    pub before: String,
    pub after: String,
    pub severity: String,
}

/// A firmware or microcode version of a component.
#[derive(Debug, Clone)]
pub struct FirmwareEntry {
    pub component: String,
    pub value: String,
    pub truth: TruthLevel,
}

/// A security-relevant finding on a machine.
#[derive(Debug, Clone)]
pub struct SecurityObservation {
    pub subject: String,
    pub detail: String,
    pub severity: String,
    pub truth: TruthLevel,
}

/// One layer of the path from source code down to the executing silicon.
#[derive(Debug, Clone)]
pub struct SourceSiliconStep {
    pub layer: String,
    pub value: String,
    pub truth: TruthLevel,
}

/// An event on one machine, placed on a timeline shared by the fleet.
#[derive(Debug, Clone)]
pub struct CrossMachineEvent {
    pub offset_ms: i32,
    pub machine: String,
    pub event: String,
    pub truth: TruthLevel,
}

} // verus!
