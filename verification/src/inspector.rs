//! Inspecting one process of a fleet machine: its memory map, and the
//! stream of its sampled instructions (the "Instruction Vein").
//!
//! The inspector decides which requests go to the Hub and what their answers
//! do; sending the requests and keeping time are the caller's.
use vstd::prelude::*;

use crate::hub::{
    instruction_vein_request, is_map_request, is_vein_request, next_request_id,
    process_memory_map_request, spec_next_request_id, RequestIds, ResponseTable,
};
use crate::memory_map::MemoryRegionFilter;
use crate::model::{ComponentId, InstructionArchitecture, InstructionSample, TruthLevel};
use crate::protocol::{InstructionVeinBatch, InstructionVeinSample, ObservatoryRequest, ObservatoryResponseKind, ProcessMemoryMap};
use crate::text::{
    chars_of, copy_str, decimal, decimal_string, is_whitespace, is_ws, push_str, str_eq,
    string_from, trim, trim_bounds,
};

verus! {

/// Most instruction samples kept, newest first.
pub const INSTRUCTION_VEIN_BUFFER_SIZE: usize = 512;

/// The process that the user chose to inspect.
#[derive(Debug)]
pub struct ProcessMemoryTarget {
    pub machine_id: String,
    pub machine_name: String,
    pub pid: u32,
    pub process_name: String,
    pub started_at_unix_ms: Option<u64>,
}

impl Clone for ProcessMemoryTarget {
    fn clone(&self) -> (r: ProcessMemoryTarget)
        ensures
            r == *self,
    {
        ProcessMemoryTarget {
            machine_id: self.machine_id.clone(),
            machine_name: self.machine_name.clone(),
            pid: self.pid,
            process_name: self.process_name.clone(),
            started_at_unix_ms: self.started_at_unix_ms,
        }
    }
}

/// The inspection state of the Observatory.
#[derive(Debug)]
pub struct Inspector {
    /// Ids of requests to the Hub.
    pub requests: RequestIds,
    pub memory_map_target: Option<ProcessMemoryTarget>,
    pub memory_map_request_id: Option<u64>,
    pub memory_map_result: Option<ProcessMemoryMap>,
    pub memory_map_error: Option<String>,
    pub memory_map_page: usize,
    pub memory_map_search: String,
    pub memory_map_filter: MemoryRegionFilter,
    pub memory_map_selected_region: Option<usize>,
    pub instruction_vein_target: Option<ProcessMemoryTarget>,
    pub instruction_vein_request_id: Option<u64>,
    /// Machine and process of the Vein request in flight.
    pub instruction_vein_request_target: Option<(String, u32)>,
    /// Newest first.
    pub instruction_vein_samples: Vec<InstructionSample>,
    pub instruction_vein_next_sequence: u64,
}

/// What polling for an Instruction Vein answer came to.
#[derive(Debug, Clone, PartialEq, Eq)]
pub enum VeinPoll {
    /// No request is in flight.
    Idle,
    /// The answer has not come yet.
    Waiting,
    /// The answer is for another machine or process than the request.
    RoutingMismatch,
    /// The answer is for a process no longer inspected; it is dropped.
    Stale,
    /// This many samples were added.
    Accepted(usize),
    /// The Hub reported an error.
    Failed { code: String, message: String },
    /// The Hub answered with a memory map.
    WrongKind,
}

/// The first token of an instruction's text: what precedes its first white
/// space character (all of it where there is none).
pub open spec fn spec_mnemonic(instruction: Seq<char>) -> Seq<char> {
    if exists|i: int| 0 <= i < instruction.len() && is_ws(instruction[i]) {
        instruction.take(first_ws(instruction))
    } else {
        instruction
    }
}

/// The operands: what follows the first white space character, trimmed
/// (empty where there is none).
pub open spec fn spec_operands(instruction: Seq<char>) -> Seq<char> {
    if exists|i: int| 0 <= i < instruction.len() && is_ws(instruction[i]) {
        trim(instruction.skip(first_ws(instruction) + 1))
    } else {
        Seq::empty()
    }
}

pub open spec fn first_ws(s: Seq<char>) -> int {
    choose|i: int| 0 <= i < s.len() && is_ws(s[i]) && forall|j: int| 0 <= j < i ==> !is_ws(s[j])
}

/// The newest sample time of a batch (0 for an empty batch).
pub open spec fn newest_perf_time(samples: Seq<InstructionVeinSample>) -> u64
    decreases samples.len(),
{
    if samples.len() == 0 {
        0
    } else {
        let prev = newest_perf_time(samples.drop_last());
        if samples.last().perf_time > prev {
            samples.last().perf_time
        } else {
            prev
        }
    }
}

/// The sequence number `k` steps after `start`.
pub open spec fn sequence_after(start: u64, k: nat) -> u64
    decreases k,
{
    if k == 0 {
        start
    } else {
        spec_next_request_id(sequence_after(start, (k - 1) as nat))
    }
}

pub open spec fn vein_note() -> Seq<char> {
    "live Linux perf sample // process_vm_readv // iced-x86"@
}

/// `s` is the display sample made of the wire sample `b`.
pub open spec fn converted_sample(
    s: InstructionSample,
    b: InstructionVeinSample,
    sequence: u64,
    newest: u64,
    process_name: Seq<char>,
) -> bool {
    &&& s.sequence == sequence
    &&& s.age_nanos == newest - b.perf_time
    &&& s.component == ComponentId::Cpu
    &&& s.truth == TruthLevel::Sampled
    &&& s.pid == b.pid
    &&& s.tid == b.tid
    &&& s.process_name@ == process_name
    &&& s.cpu_id == Some(b.cpu as usize)
    &&& s.architecture == InstructionArchitecture::X86_64
    &&& s.address == b.ip
    &&& s.bytes@ == b.bytes@
    &&& s.mnemonic@ == spec_mnemonic(b.instruction@)
    &&& s.operands@ == spec_operands(b.instruction@)
    &&& s.note matches Some(n) && n@ == vein_note()
}

/// The sample list after a batch arrives: the batch, newest first, ahead of
/// the samples kept before, cut to the buffer size.
pub open spec fn merged_samples(
    out: Seq<InstructionSample>,
    batch: Seq<InstructionVeinSample>,
    kept: Seq<InstructionSample>,
    start: u64,
    process_name: Seq<char>,
) -> bool {
    let n = batch.len();
    let newest = newest_perf_time(batch);
    &&& out.len() == if n + kept.len() < 512 { n + kept.len() } else { 512 }
    &&& forall|k: int|
        0 <= k < out.len() && k < n ==> converted_sample(
            #[trigger] out[k],
            batch[n - 1 - k],
            sequence_after(start, (n - 1 - k) as nat),
            newest,
            process_name,
        )
    &&& forall|k: int| n <= k < out.len() ==> #[trigger] out[k] == kept[k - n]
}

/// The Vein never holds more than `INSTRUCTION_VEIN_BUFFER_SIZE` samples,
/// and after a non-empty batch the first sample shown is the batch's last,
/// its newest.
pub proof fn law_vein_buffer_bounded(
    out: Seq<InstructionSample>,
    batch: Seq<InstructionVeinSample>,
    kept: Seq<InstructionSample>,
    start: u64,
    process_name: Seq<char>,
)
    requires
        merged_samples(out, batch, kept, start, process_name),
    ensures
        out.len() <= INSTRUCTION_VEIN_BUFFER_SIZE,
        batch.len() > 0 ==> converted_sample(
            out[0],
            batch.last(),
            sequence_after(start, (batch.len() - 1) as nat),
            newest_perf_time(batch),
            process_name,
        ),
{
    if batch.len() > 0 {
        assert(0 < out.len());
        assert(converted_sample(
            out[0],
            batch[batch.len() - 1 - 0],
            sequence_after(start, (batch.len() - 1 - 0) as nat),
            newest_perf_time(batch),
            process_name,
        ));
    }
}

/// Sequence numbers in the Vein run strictly down from the first sample,
/// are never 0, and stay below `next`, the next number to hand out.
pub open spec fn sequences_ordered(samples: Seq<InstructionSample>, next: u64) -> bool {
    &&& forall|i: int, j: int|
        0 <= i < j < samples.len() ==> (#[trigger] samples[i]).sequence > (#[trigger] samples[j]).sequence
    &&& forall|i: int| 0 <= i < samples.len() ==> 0 < (#[trigger] samples[i]).sequence < next
}

proof fn lemma_sequence_after(start: u64, n: nat)
    requires
        start + n <= u64::MAX,
    ensures
        forall|k: nat| k <= n ==> #[trigger] sequence_after(start, k) == start + k,
    decreases n,
{
    if n > 0 {
        lemma_sequence_after(start, (n - 1) as nat);
        assert(sequence_after(start, n) == spec_next_request_id(sequence_after(start, (n - 1) as nat)));
    }
}

proof fn lemma_newest_attained(samples: Seq<InstructionVeinSample>)
    requires
        samples.len() > 0,
    ensures
        exists|k: int| 0 <= k < samples.len() && samples[k].perf_time == newest_perf_time(samples),
    decreases samples.len(),
{
    let last = samples.len() - 1;
    if samples.len() == 1 {
        assert(samples.drop_last().len() == 0);
        assert(newest_perf_time(samples.drop_last()) == 0);
        assert(samples[0].perf_time == newest_perf_time(samples));
    } else {
        let rest = samples.drop_last();
        lemma_newest_attained(rest);
        if samples.last().perf_time > newest_perf_time(rest) {
            assert(samples[last].perf_time == newest_perf_time(samples));
        } else {
            let k = choose|k: int| 0 <= k < rest.len() && rest[k].perf_time == newest_perf_time(rest);
            assert(samples[k] == rest[k]);
        }
    }
}

/// A batch keeps the Vein's numbering in order: where the kept samples are
/// numbered strictly downwards, are never 0 and stay below the counter, and
/// the counter has room for the batch, the same holds afterwards with the
/// counter advanced by the batch's length. The batch's samples, newest
/// first, carry the numbers from the counter plus the batch's length less
/// one down to the counter, all sampled CPU instructions of x86-64; and
/// where the whole batch fits in the buffer, the one taken at the newest
/// time has age 0.
pub proof fn law_vein_sequences(
    out: Seq<InstructionSample>,
    batch: Seq<InstructionVeinSample>,
    kept: Seq<InstructionSample>,
    start: u64,
    process_name: Seq<char>,
)
    requires
        merged_samples(out, batch, kept, start, process_name),
        sequences_ordered(kept, start),
        start > 0,
        start + batch.len() <= u64::MAX,
    ensures
        sequence_after(start, batch.len()) == start + batch.len(),
        sequences_ordered(out, sequence_after(start, batch.len())),
        forall|k: int|
            0 <= k < out.len() && k < batch.len() ==> {
                &&& (#[trigger] out[k]).sequence == start + batch.len() - 1 - k
                &&& out[k].truth == TruthLevel::Sampled
                &&& out[k].component == ComponentId::Cpu
                &&& out[k].architecture == InstructionArchitecture::X86_64
            },
        0 < batch.len() <= INSTRUCTION_VEIN_BUFFER_SIZE ==> exists|k: int|
            0 <= k < batch.len() && k < out.len() && (#[trigger] out[k]).age_nanos == 0,
{
    let n = batch.len();
    lemma_sequence_after(start, n);
    assert(sequence_after(start, n) == start + n);
    assert forall|k: int| 0 <= k < out.len() && k < n implies (#[trigger] out[k]).sequence == start + n - 1 - k by {
        assert(sequence_after(start, (n - 1 - k) as nat) == start + (n - 1 - k));
    }
    assert forall|i: int, j: int| 0 <= i < j < out.len() implies (#[trigger] out[i]).sequence
        > (#[trigger] out[j]).sequence by {
        if j < n {
            assert(out[i].sequence == start + n - 1 - i);
            assert(out[j].sequence == start + n - 1 - j);
        } else if i < n {
            assert(out[i].sequence == start + n - 1 - i);
            assert(out[j] == kept[j - n]);
            assert(0 < kept[j - n].sequence < start);
        } else {
            assert(out[i] == kept[i - n]);
            assert(out[j] == kept[j - n]);
            assert(kept[i - n].sequence > kept[j - n].sequence);
        }
    }
    assert forall|i: int| 0 <= i < out.len() implies 0 < (#[trigger] out[i]).sequence < start + n by {
        if i < n {
            assert(out[i].sequence == start + n - 1 - i);
        } else {
            assert(out[i] == kept[i - n]);
            assert(0 < kept[i - n].sequence < start);
        }
    }
    if 0 < n <= INSTRUCTION_VEIN_BUFFER_SIZE {
        lemma_newest_attained(batch);
        let b = choose|b: int| 0 <= b < n && batch[b].perf_time == newest_perf_time(batch);
        let k = n - 1 - b;
        assert(converted_sample(
            out[k],
            batch[n - 1 - k],
            sequence_after(start, (n - 1 - k) as nat),
            newest_perf_time(batch),
            process_name,
        ));
        assert(out[k].age_nanos == 0);
    }
}

proof fn lemma_newest(samples: Seq<InstructionVeinSample>)
    ensures
        forall|k: int| 0 <= k < samples.len() ==> samples[k].perf_time <= newest_perf_time(samples),
    decreases samples.len(),
{
    if samples.len() > 0 {
        lemma_newest(samples.drop_last());
        assert forall|k: int| 0 <= k < samples.len() implies samples[k].perf_time <= newest_perf_time(samples) by {
            if k < samples.len() - 1 {
                assert(samples[k] == samples.drop_last()[k]);
            }
        }
    }
}

fn newest_of(samples: &Vec<InstructionVeinSample>) -> (r: u64)
    ensures
        r == newest_perf_time(samples@),
{
    let mut m: u64 = 0;
    let mut i: usize = 0;
    while i < samples.len()
        invariant
            i <= samples.len(),
            m == newest_perf_time(samples@.take(i as int)),
        decreases samples.len() - i,
    {
        assert(samples@.take(i + 1).drop_last() =~= samples@.take(i as int));
        if samples[i].perf_time > m {
            m = samples[i].perf_time;
        }
        i += 1;
    }
    assert(samples@.take(samples.len() as int) =~= samples@);
    m
}

proof fn lemma_first_ws_is(s: Seq<char>, i: int)
    requires
        0 <= i < s.len(),
        is_ws(s[i]),
        forall|j: int| 0 <= j < i ==> !is_ws(s[j]),
    ensures
        first_ws(s) == i,
{
    let k = first_ws(s);
    assert(0 <= k < s.len() && is_ws(s[k]) && forall|j: int| 0 <= j < k ==> !is_ws(s[j]));
    if k < i {
        assert(!is_ws(s[k]));
    } else if k > i {
        assert(!is_ws(s[i]));
    }
}

/// Splits an instruction's text into mnemonic and operands.
pub fn split_instruction(instruction: &str) -> (r: (String, String))
    ensures
        r.0@ == spec_mnemonic(instruction@),
        r.1@ == spec_operands(instruction@),
{
    let v = chars_of(instruction);
    let mut i: usize = 0;
    while i < v.len() && !is_whitespace(v[i])
        invariant
            i <= v.len(),
            v@ == instruction@,
            forall|j: int| 0 <= j < i ==> !is_ws(v@[j]),
        decreases v.len() - i,
    {
        i += 1;
    }
    if i == v.len() {
        let all = string_from(&v, 0, v.len());
        assert(v@.subrange(0, v@.len() as int) =~= v@);
        return (all, String::new());
    }
    proof {
        lemma_first_ws_is(v@, i as int);
    }
    let mnemonic = string_from(&v, 0, i);
    let rest = string_from(&v, i + 1, v.len());
    let rv = chars_of(rest.as_str());
    let (a, b) = trim_bounds(&rv);
    let operands = string_from(&rv, a, b);
    assert(rest@ =~= instruction@.skip(i + 1));
    (mnemonic, operands)
}

/// `o` holds a text, and it is `text`.
pub open spec fn holds_text(o: Option<String>, text: Seq<char>) -> bool {
    o is Some && o.unwrap()@ == text
}

/// What applying the Hub's answer to a memory-map request does: nothing
/// in flight any more; a map for the inspected machine and process is
/// shown, a map for another one leaves the shown map and reports the
/// mismatch, and any other answer clears the map and reports an error.
/// Nothing else changes.
pub open spec fn map_answer_applied(
    before: Inspector,
    after: Inspector,
    response: ObservatoryResponseKind,
) -> bool {
    &&& after == (Inspector {
        memory_map_request_id: None,
        memory_map_result: after.memory_map_result,
        memory_map_error: after.memory_map_error,
        ..before
    })
    &&& match response {
        ObservatoryResponseKind::ProcessMemoryMap { machine_id, map } => match before.memory_map_target {
            Some(t) if t.machine_id@ != machine_id@ => {
                &&& after.memory_map_result == before.memory_map_result
                &&& holds_text(
                    after.memory_map_error,
                    "Memory map returned for machine `"@ + machine_id@ + "` instead of `"@
                        + t.machine_id@ + "`"@,
                )
            },
            Some(t) if t.pid != map.pid => {
                &&& after.memory_map_result == before.memory_map_result
                &&& holds_text(
                    after.memory_map_error,
                    "Memory map returned PID "@ + decimal(map.pid as nat) + " instead of PID "@
                        + decimal(t.pid as nat),
                )
            },
            _ => after.memory_map_error is None && after.memory_map_result == Some(map),
        },
        ObservatoryResponseKind::InstructionVein { .. } => {
            &&& after.memory_map_result is None
            &&& holds_text(
                after.memory_map_error,
                "Received Instruction Vein data for a memory-map request"@,
            )
        },
        ObservatoryResponseKind::Error { code, message } => {
            &&& after.memory_map_result is None
            &&& holds_text(after.memory_map_error, code@ + " // "@ + message@)
        },
    }
}

/// `Some(s)` where `s` is a machine and process.
pub open spec fn routed_to(t: Option<(String, u32)>, machine_id: Seq<char>, pid: u32) -> bool {
    t matches Some((m, p)) && m@ == machine_id && p == pid
}

/// Whether the Vein is due for a request: its overview is shown and not
/// paused, no request is in flight, the inspected process belongs to the
/// selected machine, and the request interval has passed.
pub open spec fn vein_request_due(
    s: Inspector,
    on_overview: bool,
    paused: bool,
    selected_machine_id: Seq<char>,
    interval_elapsed: bool,
) -> bool {
    &&& on_overview
    &&& !paused
    &&& s.instruction_vein_request_id is None
    &&& s.instruction_vein_target is Some
    &&& s.instruction_vein_target.unwrap().machine_id@ == selected_machine_id
    &&& interval_elapsed
}

/// What an answer to a Vein request comes to, given the machine and process
/// that were asked and the process inspected now.
pub open spec fn vein_outcome(
    requested: Option<(String, u32)>,
    target: Option<ProcessMemoryTarget>,
    response: ObservatoryResponseKind,
) -> VeinPoll {
    match response {
        ObservatoryResponseKind::InstructionVein { machine_id, batch } => {
            if !routed_to(requested, machine_id@, batch.pid) {
                VeinPoll::RoutingMismatch
            } else if !(target is Some && target.unwrap().machine_id@ == machine_id@
                && target.unwrap().pid == batch.pid) {
                VeinPoll::Stale
            } else {
                VeinPoll::Accepted(batch.samples@.len() as usize)
            }
        },
        ObservatoryResponseKind::Error { code, message } => VeinPoll::Failed { code, message },
        ObservatoryResponseKind::ProcessMemoryMap { .. } => VeinPoll::WrongKind,
    }
}

impl Inspector {
    /// Nothing inspected yet; request and sequence numbers start at 1.
    pub fn new() -> (r: Inspector)
        ensures
            r.memory_map_target is None,
            r.memory_map_request_id is None,
            r.memory_map_result is None,
            r.memory_map_error is None,
            r.memory_map_page == 0,
            r.memory_map_search@.len() == 0,
            r.memory_map_filter == MemoryRegionFilter::All,
            r.memory_map_selected_region is None,
            r.instruction_vein_target is None,
            r.instruction_vein_request_id is None,
            r.instruction_vein_request_target is None,
            r.instruction_vein_samples@.len() == 0,
            r.instruction_vein_next_sequence == 1,
            r.requests@ == 1,
    {
        Inspector {
            requests: RequestIds::new(),
            memory_map_target: None,
            memory_map_request_id: None,
            memory_map_result: None,
            memory_map_error: None,
            memory_map_page: 0,
            memory_map_search: String::new(),
            memory_map_filter: MemoryRegionFilter::All,
            memory_map_selected_region: None,
            instruction_vein_target: None,
            instruction_vein_request_id: None,
            instruction_vein_request_target: None,
            instruction_vein_samples: Vec::new(),
            instruction_vein_next_sequence: 1,
        }
    }

    /// Starts inspecting a process of the selected machine: both the memory
    /// map and the Vein follow it, the map's view is reset, and the map is
    /// requested (the returned request, for the Hub). Without a selected
    /// machine nothing is requested and the map shows an error.
    pub fn open_process_memory_map(
        &mut self,
        selected_machine_id: &str,
        machine_name: &str,
        pid: u32,
        process_name: &str,
        started_at_unix_ms: Option<u64>,
    ) -> (r: Option<ObservatoryRequest>)
        ensures
            final(self).memory_map_target matches Some(t) && t.machine_id@ == selected_machine_id@
                && t.machine_name@ == machine_name@ && t.pid == pid && t.process_name@
                == process_name@ && t.started_at_unix_ms == started_at_unix_ms,
            final(self).instruction_vein_target == final(self).memory_map_target,
            final(self).instruction_vein_samples@.len() == 0,
            final(self).memory_map_result is None,
            final(self).memory_map_page == 0,
            final(self).memory_map_search@.len() == 0,
            final(self).memory_map_filter == MemoryRegionFilter::All,
            final(self).memory_map_selected_region is None,
            final(self).instruction_vein_request_id == old(self).instruction_vein_request_id,
            final(self).instruction_vein_request_target == old(self).instruction_vein_request_target,
            final(self).instruction_vein_next_sequence == old(self).instruction_vein_next_sequence,
            selected_machine_id@.len() == 0 ==> r is None && final(self).memory_map_request_id is None
                && final(self).memory_map_error is Some && final(self).memory_map_error.unwrap()@
                == "No Fleet machine is selected."@ && final(self).requests@ == old(self).requests@,
            selected_machine_id@.len() > 0 ==> final(self).memory_map_error is None && r is Some
                && is_map_request(
                r.unwrap(),
                old(self).requests@,
                selected_machine_id@,
                pid,
                started_at_unix_ms,
            ) && final(self).memory_map_request_id == Some(old(self).requests@)
                && final(self).requests@ == spec_next_request_id(old(self).requests@),
    {
        let target = ProcessMemoryTarget {
            machine_id: copy_str(selected_machine_id),
            machine_name: copy_str(machine_name),
            pid,
            process_name: copy_str(process_name),
            started_at_unix_ms,
        };
        self.memory_map_target = Some(target.clone());
        self.instruction_vein_target = Some(target);
        self.instruction_vein_samples = Vec::new();
        self.memory_map_result = None;
        self.memory_map_error = None;
        self.memory_map_page = 0;
        self.memory_map_search = String::new();
        self.memory_map_filter = MemoryRegionFilter::All;
        self.memory_map_selected_region = None;
        if selected_machine_id.is_empty() {
            self.memory_map_request_id = None;
            self.memory_map_error = Some(copy_str("No Fleet machine is selected."));
            return None;
        }
        let id = self.requests.issue();
        self.memory_map_request_id = Some(id);
        Some(process_memory_map_request(id, selected_machine_id, pid, started_at_unix_ms))
    }

    /// Asks again for the inspected process's memory map, clearing what was
    /// shown; `None` when no process is inspected.
    pub fn refresh_process_memory_map(&mut self) -> (r: Option<ObservatoryRequest>)
        ensures
            old(self).memory_map_target is None ==> r is None && *final(self) == *old(self),
            old(self).memory_map_target is Some ==> r is Some && is_map_request(
                r.unwrap(),
                old(self).requests@,
                old(self).memory_map_target.unwrap().machine_id@,
                old(self).memory_map_target.unwrap().pid,
                old(self).memory_map_target.unwrap().started_at_unix_ms,
            ) && final(self).memory_map_request_id == Some(old(self).requests@)
                && final(self).requests@ == spec_next_request_id(old(self).requests@)
                && *final(self) == (Inspector {
                requests: final(self).requests,
                memory_map_request_id: Some(old(self).requests@),
                memory_map_result: None,
                memory_map_error: None,
                memory_map_page: 0,
                memory_map_selected_region: None,
                ..*old(self)
            }),
    {
        let (machine_id, pid, started) = match &self.memory_map_target {
            None => {
                return None;
            },
            Some(t) => (t.machine_id.clone(), t.pid, t.started_at_unix_ms),
        };
        self.memory_map_result = None;
        self.memory_map_error = None;
        self.memory_map_page = 0;
        self.memory_map_selected_region = None;
        let id = self.requests.issue();
        self.memory_map_request_id = Some(id);
        Some(process_memory_map_request(id, machine_id.as_str(), pid, started))
    }

    /// The memory-map request could not be queued.
    pub fn memory_map_request_failed(&mut self, error: String)
        ensures
            *final(self) == (Inspector {
                memory_map_request_id: None,
                memory_map_error: Some(error),
                ..*old(self)
            }),
    {
        self.memory_map_request_id = None;
        self.memory_map_error = Some(error);
    }

    /// Applies the Hub's answer to the memory-map request: a map for the
    /// inspected machine and process is shown; any other answer becomes an
    /// error.
    pub fn accept_memory_map_response(&mut self, response: ObservatoryResponseKind)
        ensures
            map_answer_applied(*old(self), *final(self), response),
    {
        self.memory_map_request_id = None;
        match response {
            ObservatoryResponseKind::ProcessMemoryMap { machine_id, map } => {
                if let Some(t) = &self.memory_map_target {
                    if !str_eq(t.machine_id.as_str(), machine_id.as_str()) {
                        let mut e = copy_str("Memory map returned for machine `");
                        push_str(&mut e, machine_id.as_str());
                        push_str(&mut e, "` instead of `");
                        push_str(&mut e, t.machine_id.as_str());
                        push_str(&mut e, "`");
                        self.memory_map_error = Some(e);
                        return;
                    }
                    if t.pid != map.pid {
                        let mut e = copy_str("Memory map returned PID ");
                        let a = decimal_string(map.pid as u64);
                        push_str(&mut e, a.as_str());
                        push_str(&mut e, " instead of PID ");
                        let b = decimal_string(t.pid as u64);
                        push_str(&mut e, b.as_str());
                        self.memory_map_error = Some(e);
                        return;
                    }
                }
                self.memory_map_error = None;
                self.memory_map_result = Some(map);
            },
            ObservatoryResponseKind::InstructionVein { .. } => {
                self.memory_map_result = None;
                self.memory_map_error = Some(
                    copy_str("Received Instruction Vein data for a memory-map request"),
                );
            },
            ObservatoryResponseKind::Error { code, message } => {
                self.memory_map_result = None;
                let mut e = code;
                push_str(&mut e, " // ");
                push_str(&mut e, message.as_str());
                self.memory_map_error = Some(e);
            },
        }
    }

    /// Picks up the answer to the memory-map request, if it has come.
    pub fn poll_process_memory_map(&mut self, table: &mut ResponseTable) -> (r: bool)
        ensures
            old(self).memory_map_request_id is None ==> !r && *final(self) == *old(self) && final(table)@
                == old(table)@,
            old(self).memory_map_request_id matches Some(id) ==> final(table)@ == old(table)@.remove(id)
                && r == old(table)@.contains_key(id)
                && (!r ==> *final(self) == *old(self))
                && (r ==> map_answer_applied(*old(self), *final(self), old(table)@[id])),
    {
        let id = match self.memory_map_request_id {
            None => {
                return false;
            },
            Some(id) => id,
        };
        match table.take(id) {
            None => false,
            Some(response) => {
                self.accept_memory_map_response(response);
                true
            },
        }
    }

    /// Whether to ask for more instruction samples now: only while the
    /// overview that shows them is open and not paused, with no request in
    /// flight, for a process of the selected machine, once the request
    /// interval has passed. The request is recorded as in flight.
    pub fn maybe_request_instruction_vein(
        &mut self,
        on_overview: bool,
        paused: bool,
        selected_machine_id: &str,
        interval_elapsed: bool,
    ) -> (r: Option<ObservatoryRequest>)
        ensures
            !vein_request_due(*old(self), on_overview, paused, selected_machine_id@, interval_elapsed)
                ==> r is None && *final(self) == *old(self),
            vein_request_due(*old(self), on_overview, paused, selected_machine_id@, interval_elapsed)
                ==> r is Some && is_vein_request(
                r.unwrap(),
                old(self).requests@,
                old(self).instruction_vein_target.unwrap().machine_id@,
                old(self).instruction_vein_target.unwrap().pid,
                old(self).instruction_vein_target.unwrap().started_at_unix_ms,
            ) && final(self).instruction_vein_request_id == Some(old(self).requests@)
                && routed_to(
                final(self).instruction_vein_request_target,
                old(self).instruction_vein_target.unwrap().machine_id@,
                old(self).instruction_vein_target.unwrap().pid,
            ) && final(self).requests@ == spec_next_request_id(old(self).requests@)
                && *final(self) == (Inspector {
                requests: final(self).requests,
                instruction_vein_request_id: Some(old(self).requests@),
                instruction_vein_request_target: final(self).instruction_vein_request_target,
                ..*old(self)
            }),
    {
        if !on_overview || paused || self.instruction_vein_request_id.is_some() {
            return None;
        }
        let (machine_id, pid, started) = match &self.instruction_vein_target {
            None => {
                return None;
            },
            Some(t) => (t.machine_id.clone(), t.pid, t.started_at_unix_ms),
        };
        if !str_eq(machine_id.as_str(), selected_machine_id) {
            return None;
        }
        if !interval_elapsed {
            return None;
        }
        let id = self.requests.issue();
        let request = instruction_vein_request(id, machine_id.as_str(), pid, started);
        self.instruction_vein_request_id = Some(id);
        self.instruction_vein_request_target = Some((machine_id, pid));
        Some(request)
    }

    /// The Vein request could not be queued: nothing is in flight.
    pub fn instruction_vein_request_failed(&mut self)
        ensures
            *final(self) == (Inspector {
                instruction_vein_request_id: None,
                instruction_vein_request_target: None,
                ..*old(self)
            }),
    {
        self.instruction_vein_request_id = None;
        self.instruction_vein_request_target = None;
    }

    /// Picks up the answer to the Vein request, if it has come. A batch for
    /// the machine and process that were asked, and still inspected, goes
    /// into the sample list newest first, ahead of the samples kept, which
    /// are cut to the buffer size; any other answer changes no samples.
    pub fn poll_instruction_vein(&mut self, table: &mut ResponseTable) -> (r: VeinPoll)
        ensures
            old(self).instruction_vein_request_id is None ==> r == VeinPoll::Idle && *final(self)
                == *old(self) && final(table)@ == old(table)@,
            old(self).instruction_vein_request_id is Some && !old(table)@.contains_key(
                old(self).instruction_vein_request_id.unwrap(),
            ) ==> r == VeinPoll::Waiting && *final(self) == *old(self) && final(table)@
                == old(table)@,
            old(self).instruction_vein_request_id is Some && old(table)@.contains_key(
                old(self).instruction_vein_request_id.unwrap(),
            ) ==> ({
                let id = old(self).instruction_vein_request_id.unwrap();
                let response = old(table)@[id];
                &&& final(table)@ == old(table)@.remove(id)
                &&& r == vein_outcome(
                    old(self).instruction_vein_request_target,
                    old(self).instruction_vein_target,
                    response,
                )
                &&& *final(self) == (Inspector {
                    instruction_vein_request_id: None,
                    instruction_vein_request_target: None,
                    instruction_vein_samples: final(self).instruction_vein_samples,
                    instruction_vein_next_sequence: final(self).instruction_vein_next_sequence,
                    ..*old(self)
                })
                &&& (r is Accepted ==> (response matches ObservatoryResponseKind::InstructionVein {
                    batch,
                    ..
                } && merged_samples(
                    final(self).instruction_vein_samples@,
                    batch.samples@,
                    old(self).instruction_vein_samples@,
                    old(self).instruction_vein_next_sequence,
                    old(self).instruction_vein_target.unwrap().process_name@,
                ) && final(self).instruction_vein_next_sequence == sequence_after(
                    old(self).instruction_vein_next_sequence,
                    batch.samples@.len(),
                )))
                &&& (!(r is Accepted) ==> final(self).instruction_vein_samples
                    == old(self).instruction_vein_samples && final(self).instruction_vein_next_sequence
                    == old(self).instruction_vein_next_sequence)
            }),
    {
        let id = match self.instruction_vein_request_id {
            None => {
                return VeinPoll::Idle;
            },
            Some(id) => id,
        };
        let response = match table.take(id) {
            None => {
                return VeinPoll::Waiting;
            },
            Some(response) => response,
        };
        self.instruction_vein_request_id = None;
        let requested = self.instruction_vein_request_target.take();
        match response {
            ObservatoryResponseKind::InstructionVein { machine_id, batch } => {
                let routed = match &requested {
                    Some((m, p)) => str_eq(m.as_str(), machine_id.as_str()) && *p == batch.pid,
                    None => false,
                };
                if !routed {
                    return VeinPoll::RoutingMismatch;
                }
                let process_name = match &self.instruction_vein_target {
                    None => {
                        return VeinPoll::Stale;
                    },
                    Some(t) => {
                        if !str_eq(t.machine_id.as_str(), machine_id.as_str()) || t.pid != batch.pid {
                            return VeinPoll::Stale;
                        }
                        t.process_name.clone()
                    },
                };
                let n = self.merge_batch(batch, &process_name);
                VeinPoll::Accepted(n)
            },
            ObservatoryResponseKind::Error { code, message } => VeinPoll::Failed { code, message },
            ObservatoryResponseKind::ProcessMemoryMap { .. } => VeinPoll::WrongKind,
        }
    }

    /// Merges a batch for the inspected process into the sample list.
    fn merge_batch(&mut self, batch: InstructionVeinBatch, process_name: &String) -> (r: usize)
        ensures
            merged_samples(
                final(self).instruction_vein_samples@,
                batch.samples@,
                old(self).instruction_vein_samples@,
                old(self).instruction_vein_next_sequence,
                process_name@,
            ),
            final(self).instruction_vein_next_sequence == sequence_after(
                old(self).instruction_vein_next_sequence,
                batch.samples@.len(),
            ),
            r == batch.samples@.len(),
            *final(self) == (Inspector {
                instruction_vein_samples: final(self).instruction_vein_samples,
                instruction_vein_next_sequence: final(self).instruction_vein_next_sequence,
                ..*old(self)
            }),
    {
        let ghost start = self.instruction_vein_next_sequence;
        let ghost kept = self.instruction_vein_samples@;
        let samples = &batch.samples;
        let n = samples.len();
        let newest = newest_of(samples);
        proof {
            lemma_newest(samples@);
        }
        let mut converted: Vec<InstructionSample> = Vec::new();
        let mut i: usize = 0;
        while i < n
            invariant
                i <= n == samples.len(),
                newest == newest_perf_time(samples@),
                forall|k: int| 0 <= k < samples.len() ==> samples@[k].perf_time <= newest,
                converted.len() == i,
                self.instruction_vein_next_sequence == sequence_after(start, i as nat),
                forall|k: int|
                    0 <= k < i ==> converted_sample(
                        #[trigger] converted@[k],
                        samples@[k],
                        sequence_after(start, k as nat),
                        newest,
                        process_name@,
                    ),
                *self == (Inspector {
                    instruction_vein_next_sequence: self.instruction_vein_next_sequence,
                    ..*old(self)
                }),
                kept == old(self).instruction_vein_samples@,
            decreases n - i,
        {
            let sample = &samples[i];
            let (mnemonic, operands) = split_instruction(sample.instruction.as_str());
            let sequence = self.instruction_vein_next_sequence;
            self.instruction_vein_next_sequence = next_request_id(sequence);
            let s = InstructionSample {
                sequence,
                age_nanos: newest - sample.perf_time,
                component: ComponentId::Cpu,
                truth: TruthLevel::Sampled,
                pid: sample.pid,
                tid: sample.tid,
                process_name: process_name.clone(),
                cpu_id: Some(sample.cpu as usize),
                architecture: InstructionArchitecture::X86_64,
                address: sample.ip,
                bytes: sample.bytes.clone(),
                mnemonic,
                operands,
                note: Some(copy_str("live Linux perf sample // process_vm_readv // iced-x86")),
            };
            converted.push(s);
            i += 1;
        }
        // Newest first: take the converted samples from the back.
        let mut merged: Vec<InstructionSample> = Vec::new();
        while converted.len() > 0
            invariant
                n == samples.len(),
                converted.len() + merged.len() == n,
                forall|k: int| 0 <= k < merged.len() ==> converted_sample(
                    #[trigger] merged@[k],
                    samples@[n - 1 - k],
                    sequence_after(start, (n - 1 - k) as nat),
                    newest,
                    process_name@,
                ),
                forall|k: int| 0 <= k < converted.len() ==> converted_sample(
                    #[trigger] converted@[k],
                    samples@[k],
                    sequence_after(start, k as nat),
                    newest,
                    process_name@,
                ),
            decreases converted.len(),
        {
            let ghost before = converted@;
            let last = converted.pop();
            if let Some(x) = last {
                proof {
                    assert(x == before[before.len() - 1]);
                }
                merged.push(x);
            }
        }
        let ghost fresh = merged@;
        merged.append(&mut self.instruction_vein_samples);
        assert(merged@ == fresh + kept);
        merged.truncate(INSTRUCTION_VEIN_BUFFER_SIZE);
        proof {
            assert forall|k: int| n <= k < merged@.len() implies #[trigger] merged@[k] == kept[k - n] by {
                assert((fresh + kept)[k] == kept[k - n]);
            }
        }
        self.instruction_vein_samples = merged;
        n
    }
}

} // verus!
