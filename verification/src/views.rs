//! The Observatory's pages and what each needs of the selected machine.
use vstd::prelude::*;

use crate::model::ComponentId;
use vstd::view::View as _;

verus! {

/// A page of the Observatory.
#[derive(Debug, Clone, Copy, PartialEq, Eq, Structural)]
pub enum View {
    Overview,
    Server,
    Fleet,
    Cpu,
    Memory,
    Gpu,
    Processes,
    Network,
    Npu,
    NpuMemory,
    NpuRuntime,
    Replay,
    Causality,
    Syscalls,
    Flamegraph,
    MemoryMap,
    Scheduler,
    Cache,
    Interrupts,
    PacketFlow,
    Fabric,
    Numa,
    StorageIo,
    PowerThermal,
    Locks,
    Containers,
    Database,
    Traces,
    Compare,
    Diff,
    CrossMachine,
    Anomalies,
    Incidents,
    SourceSilicon,
    Firmware,
    Security,
    Binary,
    Autopsy,
    Kernel,
    Logs,
}

impl View {
    pub const CORE: [View; 3] = [View::Overview, View::Server, View::Fleet];

    pub const LIVE: [View; 5] = [View::Cpu, View::Memory, View::Gpu, View::Processes, View::Network];

    pub const NPU: [View; 3] = [View::Npu, View::NpuMemory, View::NpuRuntime];

    pub const DEEP: [View; 9] = [View::Replay, View::Causality, View::Syscalls, View::Flamegraph, View::MemoryMap, View::Scheduler, View::Cache, View::Interrupts, View::PacketFlow];

    pub const HARDWARE: [View; 4] = [View::Fabric, View::Numa, View::StorageIo, View::PowerThermal];

    pub const SERVER_STACK: [View; 3] = [View::Locks, View::Containers, View::Database];

    pub const DISTRIBUTED: [View; 4] = [View::Traces, View::Compare, View::Diff, View::CrossMachine];

    pub const INTELLIGENCE: [View; 5] = [View::Anomalies, View::Incidents, View::SourceSilicon, View::Firmware, View::Security];

    pub const FORENSICS: [View; 4] = [View::Binary, View::Autopsy, View::Kernel, View::Logs];

    pub open spec fn spec_label(self) -> Seq<char> {
        match self {
            View::Overview => "THE MACHINE"@,
            View::Server => "THE SERVER"@,
            View::Fleet => "FLEET"@,
            View::Cpu => "CPU"@,
            View::Memory => "MEMORY"@,
            View::Gpu => "GPU"@,
            View::Processes => "PROCESSES"@,
            View::Network => "NETWORK"@,
            View::Npu => "NPU OVERVIEW"@,
            View::NpuMemory => "NPU MEMORY"@,
            View::NpuRuntime => "NPU RUNTIME"@,
            View::Replay => "TIME MACHINE"@,
            View::Causality => "CAUSALITY"@,
            View::Syscalls => "SYSCALLS"@,
            View::Flamegraph => "FLAMEGRAPH"@,
            View::MemoryMap => "MEMORY MAP"@,
            View::Scheduler => "SCHEDULER"@,
            View::Cache => "CACHE / PMU"@,
            View::Interrupts => "IRQ / SOFTIRQ"@,
            View::PacketFlow => "PACKET FLOW"@,
            View::Fabric => "PCIe FABRIC"@,
            View::Numa => "NUMA"@,
            View::StorageIo => "STORAGE I/O"@,
            View::PowerThermal => "POWER / THERMAL"@,
            View::Locks => "LOCKS"@,
            View::Containers => "CGROUPS"@,
            View::Database => "DATABASE"@,
            View::Traces => "TRACES"@,
            View::Compare => "COMPARE"@,
            View::Diff => "SNAPSHOT DIFF"@,
            View::CrossMachine => "CROSS-MACHINE"@,
            View::Anomalies => "ANOMALIES"@,
            View::Incidents => "INCIDENTS"@,
            View::SourceSilicon => "SOURCE → SILICON"@,
            View::Firmware => "FIRMWARE"@,
            View::Security => "SECURITY"@,
            View::Binary => "BINARY"@,
            View::Autopsy => "AUTOPSY"@,
            View::Kernel => "KERNEL"@,
            View::Logs => "LOGS"@,
        }
    }

    /// The page's navigation label.
    pub fn label(self) -> (r: &'static str)
        ensures
            r@ == self.spec_label(),
    {
        match self {
            View::Overview => "THE MACHINE",
            View::Server => "THE SERVER",
            View::Fleet => "FLEET",
            View::Cpu => "CPU",
            View::Memory => "MEMORY",
            View::Gpu => "GPU",
            View::Processes => "PROCESSES",
            View::Network => "NETWORK",
            View::Npu => "NPU OVERVIEW",
            View::NpuMemory => "NPU MEMORY",
            View::NpuRuntime => "NPU RUNTIME",
            View::Replay => "TIME MACHINE",
            View::Causality => "CAUSALITY",
            View::Syscalls => "SYSCALLS",
            View::Flamegraph => "FLAMEGRAPH",
            View::MemoryMap => "MEMORY MAP",
            View::Scheduler => "SCHEDULER",
            View::Cache => "CACHE / PMU",
            View::Interrupts => "IRQ / SOFTIRQ",
            View::PacketFlow => "PACKET FLOW",
            View::Fabric => "PCIe FABRIC",
            View::Numa => "NUMA",
            View::StorageIo => "STORAGE I/O",
            View::PowerThermal => "POWER / THERMAL",
            View::Locks => "LOCKS",
            View::Containers => "CGROUPS",
            View::Database => "DATABASE",
            View::Traces => "TRACES",
            View::Compare => "COMPARE",
            View::Diff => "SNAPSHOT DIFF",
            View::CrossMachine => "CROSS-MACHINE",
            View::Anomalies => "ANOMALIES",
            View::Incidents => "INCIDENTS",
            View::SourceSilicon => "SOURCE → SILICON",
            View::Firmware => "FIRMWARE",
            View::Security => "SECURITY",
            View::Binary => "BINARY",
            View::Autopsy => "AUTOPSY",
            View::Kernel => "KERNEL",
            View::Logs => "LOGS",
        }
    }

    pub open spec fn spec_requires_npu(self) -> bool {
        self == View::Npu || self == View::NpuMemory || self == View::NpuRuntime
    }

    /// Whether the page shows NPU data, which not every machine has.
    pub fn requires_npu(self) -> (r: bool)
        ensures
            r == self.spec_requires_npu(),
    {
        match self {
            View::Npu | View::NpuMemory | View::NpuRuntime => true,
            _ => false,
        }
    }
}

/// The page, the inspected component and the inspected instruction.
#[derive(Debug, Clone, Copy, PartialEq, Eq, Structural)]
pub struct Selection {
    pub view: View,
    pub selected: ComponentId,
    pub selected_instruction: Option<u64>,
}

/// What a machine without an NPU may show: no NPU page and no NPU selection.
pub open spec fn capable(s: Selection, npu_available: bool) -> bool {
    npu_available || (!s.view.spec_requires_npu() && s.selected != ComponentId::Npu)
}

/// The selection once a machine's capabilities are enforced.
pub open spec fn spec_enforced(s: Selection, npu_available: bool) -> Selection {
    let view = if s.view.spec_requires_npu() && !npu_available {
        View::Overview
    } else {
        s.view
    };
    if s.selected == ComponentId::Npu && !npu_available {
        Selection { view, selected: ComponentId::Cpu, selected_instruction: None }
    } else {
        Selection { view, ..s }
    }
}

/// Leaves NPU pages and the NPU selection where the machine has no NPU:
/// the page falls back to the overview, the selection to the CPU (dropping
/// the inspected instruction).
pub fn enforce_view_capabilities(s: Selection, npu_available: bool) -> (r: Selection)
    ensures
        r == spec_enforced(s, npu_available),
        capable(r, npu_available),
        capable(s, npu_available) ==> r == s,
{
    let mut r = s;
    if r.view.requires_npu() && !npu_available {
        r.view = View::Overview;
    }
    if r.selected == ComponentId::Npu && !npu_available {
        r.selected = ComponentId::Cpu;
        r.selected_instruction = None;
    }
    r
}

/// Enforcing a machine's capabilities leaves a selection that the machine
/// can show, changes nothing that it could already show, and a second
/// enforcement changes nothing more.
pub proof fn law_enforcement_settles(s: Selection, npu_available: bool)
    ensures
        capable(spec_enforced(s, npu_available), npu_available),
        capable(s, npu_available) ==> spec_enforced(s, npu_available) == s,
        spec_enforced(spec_enforced(s, npu_available), npu_available) == spec_enforced(
            s,
            npu_available,
        ),
{
}

} // verus!
