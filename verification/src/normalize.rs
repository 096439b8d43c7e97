//! The integer part of turning an Agent's telemetry into the snapshot that
//! the Observatory shows: which process each logical CPU is attributed to,
//! the clamped core frequencies, the memory counters, and the event that
//! records the snapshot. Usage percentages and rates are floating point and
//! stay with the caller.
use vstd::prelude::*;

use crate::model;
use crate::protocol;
use crate::text::{copy_str, decimal, decimal_string, push_str};

verus! {

/// Where an exported process last ran, as the telemetry reports it.
#[derive(Debug, Clone)]
pub struct ProcessPlacement {
    pub name: String,
    /// Logical CPU on which the process was last observed executing.
    pub last_cpu: usize,
    pub cpu_rate_available: bool,
}

/// A logical CPU and its reported frequency.
#[derive(Debug, Clone, Copy, PartialEq, Eq, Structural)]
pub struct CpuFrequency {
    pub logical_id: usize,
    pub frequency_mhz: u64,
}

/// The integer facts of one logical CPU in the Observatory's snapshot.
#[derive(Debug, Clone)]
pub struct CoreAttribution {
    pub logical_id: usize,
    pub frequency_mhz: u32,
    /// The process attributed to the CPU, or `unattributed`.
    pub process: String,
}

/// `p` counts as running on logical CPU `id`: it last ran there and has a
/// CPU rate.
pub open spec fn runs_on(p: ProcessPlacement, id: usize) -> bool {
    p.last_cpu == id && p.cpu_rate_available
}

/// `name` is the attribution of logical CPU `id`: the name of the first
/// process (the telemetry lists them by CPU usage) that runs on it, or
/// `unattributed` where none does.
pub open spec fn attribution_is(name: Seq<char>, ps: Seq<ProcessPlacement>, id: usize) -> bool {
    &&& (forall|j: int| 0 <= j < ps.len() ==> !runs_on(ps[j], id)) ==> name == "unattributed"@
    &&& forall|i: int|
        0 <= i < ps.len() && runs_on(ps[i], id) && (forall|j: int| 0 <= j < i ==> !runs_on(ps[j], id))
            ==> name == ps[i].name@
}

/// The process attributed to a logical CPU.
pub fn attributed_process(processes: &Vec<ProcessPlacement>, logical_id: usize) -> (r: String)
    ensures
        attribution_is(r@, processes@, logical_id),
{
    let mut i: usize = 0;
    while i < processes.len()
        invariant
            i <= processes.len(),
            forall|j: int| 0 <= j < i ==> !runs_on(processes@[j], logical_id),
        decreases processes.len() - i,
    {
        if processes[i].last_cpu == logical_id && processes[i].cpu_rate_available {
            proof {
                assert forall|k: int|
                    0 <= k < processes@.len() && runs_on(processes@[k], logical_id) && (forall|j: int|
                        0 <= j < k ==> !runs_on(processes@[j], logical_id)) implies k == i by {
                    if k < i {
                    } else if k > i {
                        assert(!runs_on(processes@[i as int], logical_id));
                    }
                }
            }
            return processes[i].name.clone();
        }
        i += 1;
    }
    copy_str("unattributed")
}

/// A frequency in MHz as the snapshot keeps it: values past `u32::MAX`
/// become `u32::MAX`.
pub fn clamp_frequency_mhz(frequency_mhz: u64) -> (r: u32)
    ensures
        r == if frequency_mhz <= u32::MAX {
            frequency_mhz
        } else {
            u32::MAX as u64
        },
{
    if frequency_mhz <= u32::MAX as u64 {
        frequency_mhz as u32
    } else {
        u32::MAX
    }
}

/// The integer facts of each logical CPU, in the telemetry's order.
pub fn attribute_cores(cpus: &Vec<CpuFrequency>, processes: &Vec<ProcessPlacement>) -> (r: Vec<
    CoreAttribution,
>)
    ensures
        r@.len() == cpus@.len(),
        forall|k: int|
            0 <= k < cpus@.len() ==> {
                &&& (#[trigger] r@[k]).logical_id == cpus@[k].logical_id
                &&& r@[k].frequency_mhz == if cpus@[k].frequency_mhz <= u32::MAX {
                    cpus@[k].frequency_mhz
                } else {
                    u32::MAX as u64
                }
                &&& attribution_is(r@[k].process@, processes@, cpus@[k].logical_id)
            },
{
    let mut r: Vec<CoreAttribution> = Vec::new();
    let mut k: usize = 0;
    while k < cpus.len()
        invariant
            k <= cpus.len(),
            r@.len() == k,
            forall|m: int|
                0 <= m < k ==> {
                    &&& (#[trigger] r@[m]).logical_id == cpus@[m].logical_id
                    &&& r@[m].frequency_mhz == if cpus@[m].frequency_mhz <= u32::MAX {
                        cpus@[m].frequency_mhz
                    } else {
                        u32::MAX as u64
                    }
                    &&& attribution_is(r@[m].process@, processes@, cpus@[m].logical_id)
                },
        decreases cpus.len() - k,
    {
        let cpu = cpus[k];
        let core = CoreAttribution {
            logical_id: cpu.logical_id,
            frequency_mhz: clamp_frequency_mhz(cpu.frequency_mhz),
            process: attributed_process(processes, cpu.logical_id),
        };
        r.push(core);
        k += 1;
    }
    r
}

/// The memory counters that the Observatory shows, copied from the
/// telemetry.
pub fn memory_snapshot(wire: &protocol::MemorySnapshot) -> (r: model::MemorySnapshot)
    ensures
        r == (model::MemorySnapshot {
            total_bytes: wire.total_bytes,
            used_bytes: wire.used_bytes,
            available_bytes: wire.available_bytes,
            cached_bytes: wire.cached_bytes,
            active_bytes: wire.active_bytes,
            dirty_bytes: wire.dirty_bytes,
            page_faults_per_second: wire.page_faults_per_second,
        }),
{
    model::MemorySnapshot {
        total_bytes: wire.total_bytes,
        used_bytes: wire.used_bytes,
        available_bytes: wire.available_bytes,
        cached_bytes: wire.cached_bytes,
        active_bytes: wire.active_bytes,
        dirty_bytes: wire.dirty_bytes,
        page_faults_per_second: wire.page_faults_per_second,
    }
}

/// The event that records a received snapshot.
pub fn telemetry_event_message(captured_at_unix_ms: u64) -> (r: String)
    ensures
        r@ == "M6 telemetry received // snapshot "@ + decimal(captured_at_unix_ms as nat),
{
    let mut r = copy_str("M6 telemetry received // snapshot ");
    let n = decimal_string(captured_at_unix_ms);
    push_str(&mut r, n.as_str());
    r
}

} // verus!
