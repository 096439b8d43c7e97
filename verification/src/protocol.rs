//! The messages that the Agent, the Fleet Hub and the Observatory exchange,
//! and the data that they carry (apart from floating-point telemetry).
use vstd::prelude::*;

use crate::text::copy_str;

verus! {

/// Version of the Agent / Hub / Observatory message protocol.
pub const PROTOCOL_VERSION: u16 = 2;

/// Version of the telemetry snapshot schema.
pub const TELEMETRY_SCHEMA_VERSION: u16 = 1;

/// Who a machine is, as its Agent reports it.
#[derive(Debug, Clone)]
pub struct MachineIdentity {
    pub machine_id: String,
    pub machine_name: String,
    /// Defaults to `workstation` where a message leaves it out.
    pub role: String,
    pub os: String,
    pub architecture: String,
    pub agent_version: String,
}

/// The role of a machine whose Agent does not report one.
pub fn default_machine_role() -> (r: String)
    ensures
        r@ == "workstation"@,
{
    copy_str("workstation")
}

/// A command from the Hub to an Agent.
#[derive(Debug, Clone)]
pub struct AgentCommand {
    pub protocol_version: u16,
    pub request_id: u64,
    pub command: AgentCommandKind,
}

#[derive(Debug, Clone)]
pub enum AgentCommandKind {
    ProcessMemoryMap { pid: u32, expected_started_at_unix_ms: Option<u64> },
    InstructionVeinSample { pid: u32, expected_started_at_unix_ms: Option<u64> },
}

/// An Agent's answer to a command.
#[derive(Debug, Clone)]
pub struct AgentResponse {
    pub protocol_version: u16,
    pub request_id: u64,
    pub result: AgentResponseKind,
}

#[derive(Debug, Clone)]
pub enum AgentResponseKind {
    ProcessMemoryMap { map: ProcessMemoryMap },
    InstructionVein { batch: InstructionVeinBatch },
    Error { code: String, message: String },
}

/// A request from the Observatory to the Hub.
#[derive(Debug, Clone)]
pub struct ObservatoryRequest {
    pub protocol_version: u16,
    pub request_id: u64,
    pub request: ObservatoryRequestKind,
}

#[derive(Debug, Clone)]
pub enum ObservatoryRequestKind {
    ProcessMemoryMap { machine_id: String, pid: u32, expected_started_at_unix_ms: Option<u64> },
    InstructionVeinSample {
        machine_id: String,
        pid: u32,
        expected_started_at_unix_ms: Option<u64>,
    },
}

/// The Hub's answer to an Observatory request.
#[derive(Debug, Clone)]
pub enum ObservatoryResponseKind {
    ProcessMemoryMap { machine_id: String, map: ProcessMemoryMap },
    InstructionVein { machine_id: String, batch: InstructionVeinBatch },
    Error { code: String, message: String },
}

/// The first message of an Agent.
#[derive(Debug, Clone)]
pub struct AgentHello {
    pub protocol_version: u16,
    pub machine: MachineIdentity,
}

impl AgentHello {
    /// A hello for this protocol version.
    pub fn new(machine: MachineIdentity) -> (r: AgentHello)
        ensures
            r.protocol_version == PROTOCOL_VERSION,
            r.machine == machine,
    {
        AgentHello { protocol_version: PROTOCOL_VERSION, machine }
    }
}

/// How recently the Hub heard from a machine.
#[derive(Debug, Clone, Copy, PartialEq, Eq, Structural)]
pub enum MachineStatus {
    Online,
    Stale,
    Offline,
}

/// A process's virtual address space, as an Agent reads it.
#[derive(Debug, Clone)]
pub struct ProcessMemoryMap {
    pub pid: u32,
    pub process_name: String,
    pub executable: Option<String>,
    pub captured_at_unix_ms: u64,
    pub total_virtual_bytes: u64,
    pub region_count: usize,
    pub writable_executable_regions: usize,
    pub overview: ProcessMemoryOverview,
    pub regions: Vec<ProcessMemoryRegion>,
}

/// Bytes of the address space by kind of mapping.
#[derive(Debug, Clone, Copy, PartialEq, Eq, Default, Structural)]
pub struct ProcessMemoryOverview {
    pub heap_bytes: u64,
    pub anonymous_bytes: u64,
    pub shared_library_bytes: u64,
    pub mapped_file_bytes: u64,
    pub stack_bytes: u64,
    pub executable_image_bytes: u64,
    pub special_bytes: u64,
}

#[derive(Debug, Clone, Copy, PartialEq, Eq, Structural)]
pub enum ProcessMemoryRegionKind {
    Heap,
    Anonymous,
    SharedLibrary,
    MappedFile,
    Stack,
    ExecutableImage,
    Special,
    Other,
}

#[derive(Debug, Clone, Copy, PartialEq, Eq, Structural)]
pub struct ProcessMemoryPermissions {
    pub readable: bool,
    pub writable: bool,
    pub executable: bool,
    pub private: bool,
    pub shared: bool,
}

/// One mapping of a process's address space.
#[derive(Debug, Clone)]
pub struct ProcessMemoryRegion {
    pub start_address: u64,
    pub end_address: u64,
    pub size_bytes: u64,
    pub permissions: ProcessMemoryPermissions,
    pub offset: u64,
    pub device_major: u32,
    pub device_minor: u32,
    pub inode: u64,
    pub pathname: Option<String>,
    pub kind: ProcessMemoryRegionKind,
}

/// One instruction sampled from a running process.
#[derive(Debug, Clone)]
pub struct InstructionVeinSample {
    pub ip: u64,
    pub pid: u32,
    pub tid: u32,
    pub cpu: u32,
    pub perf_time: u64,
    pub bytes: Vec<u8>,
    pub instruction: String,
}

/// A batch of samples of one process, in chronological order.
#[derive(Debug, Clone)]
pub struct InstructionVeinBatch {
    pub pid: u32,
    pub samples: Vec<InstructionVeinSample>,
}

/// Scheduler counters of a machine.
#[derive(Debug, Clone, Copy, PartialEq, Eq, Structural)]
pub struct SchedulerSnapshot {
    pub context_switches_per_second: u64,
    pub runnable_tasks: u64,
    pub blocked_tasks: u64,
    pub context_switch_rate_available: bool,
}

/// Memory counters of a machine, as an Agent reports them.
#[derive(Debug, Clone, Copy, PartialEq, Eq, Structural)]
pub struct MemorySnapshot {
    pub total_bytes: u64,
    pub used_bytes: u64,
    pub available_bytes: u64,
    pub cached_bytes: u64,
    pub active_bytes: u64,
    pub dirty_bytes: u64,
    pub page_faults_per_second: u64,
    pub major_page_faults_per_second: u64,
    pub total_swap_bytes: u64,
    pub used_swap_bytes: u64,
    pub memory_detail_available: bool,
    pub fault_rates_available: bool,
}

} // verus!
