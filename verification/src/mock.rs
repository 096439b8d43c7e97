//! The Observatory's demonstration instruction feed: a slow drip of
//! plausible samples, numbered back from the newest, drawn in turn from a
//! fixed set of templates.
use vstd::prelude::*;

use crate::model::{ComponentId, InstructionArchitecture, InstructionSample, TruthLevel};
use crate::text::copy_str;

verus! {

/// Samples in one view of the demonstration feed.
pub const MOCK_SAMPLE_COUNT: usize = 28;

/// Templates that the feed cycles through.
pub const MOCK_TEMPLATE_COUNT: u64 = 20;

/// A template of the feed: component, process, pid, tid, bytes, mnemonic,
/// operands and note.
pub open spec fn mock_template(i: int) -> (
    ComponentId,
    Seq<char>,
    u32,
    u32,
    Seq<u8>,
    Seq<char>,
    Seq<char>,
    Seq<char>,
) {
    if i == 0 {
        (
            ComponentId::Cpu,
            "rustc"@,
            18472,
            18491,
            seq![0x48u8, 0x8Bu8, 0x43u8, 0x08u8],
            "mov"@,
            "rax, [rbx+0x8]"@,
            "mock CPU execution sample"@
        )
    } else if i == 1 {
        (
            ComponentId::Cpu,
            "rustc"@,
            18472,
            18491,
            seq![0x48u8, 0x85u8, 0xC0u8],
            "test"@,
            "rax, rax"@,
            "mock CPU execution sample"@
        )
    } else if i == 2 {
        (
            ComponentId::Cpu,
            "cargo"@,
            18430,
            18430,
            seq![0x75u8, 0xE9u8],
            "jne"@,
            "0x7F23A90E"@,
            "mock branch sample"@
        )
    } else if i == 3 {
        (
            ComponentId::Cpu,
            "wyn-observatory"@,
            18801,
            18808,
            seq![0x48u8, 0x83u8, 0xECu8, 0x20u8],
            "sub"@,
            "rsp, 0x20"@,
            "mock stack-frame activity"@
        )
    } else if i == 4 {
        (
            ComponentId::Memory,
            "firefox"@,
            7291,
            7332,
            seq![0x48u8, 0x8Bu8, 0x04u8, 0x24u8],
            "mov"@,
            "rax, [rsp]"@,
            "mock load classified as memory-relevant"@
        )
    } else if i == 5 {
        (
            ComponentId::Memory,
            "rustc"@,
            18472,
            18495,
            seq![0x48u8, 0x89u8, 0x45u8, 0xE8u8],
            "mov"@,
            "[rbp-0x18], rax"@,
            "mock store classified as memory-relevant"@
        )
    } else if i == 6 {
        (
            ComponentId::Memory,
            "rustc"@,
            18472,
            18495,
            seq![0x0Fu8, 0x18u8, 0x08u8],
            "prefetcht0"@,
            "[rax]"@,
            "mock prefetch sample"@
        )
    } else if i == 7 {
        (
            ComponentId::Memory,
            "kwin_wayland"@,
            2203,
            2240,
            seq![0x48u8, 0x8Du8, 0x54u8, 0x24u8, 0x20u8],
            "lea"@,
            "rdx, [rsp+0x20]"@,
            "mock address-generation sample"@
        )
    } else if i == 8 {
        (
            ComponentId::Gpu,
            "kwin_wayland"@,
            2203,
            2244,
            seq![0xFFu8, 0x15u8, 0x62u8, 0x31u8, 0x00u8, 0x00u8],
            "call"@,
            "qword ptr [rip+0x3162]"@,
            "mock x86-64 host-side GPU submission path; not GPU SASS"@
        )
    } else if i == 9 {
        (
            ComponentId::Gpu,
            "firefox"@,
            7291,
            7368,
            seq![0x48u8, 0x89u8, 0xDFu8],
            "mov"@,
            "rdi, rbx"@,
            "mock host-side graphics call preparation"@
        )
    } else if i == 10 {
        (
            ComponentId::Gpu,
            "kwin_wayland"@,
            2203,
            2244,
            seq![0xE8u8, 0x41u8, 0x02u8, 0x00u8, 0x00u8],
            "call"@,
            "0x7F23B1A0"@,
            "mock host call correlated with GPU activity"@
        )
    } else if i == 11 {
        (
            ComponentId::Gpu,
            "wyn-observatory"@,
            18801,
            18806,
            seq![0x0Fu8, 0x28u8, 0xC1u8],
            "movaps"@,
            "xmm0, xmm1"@,
            "mock renderer-side SIMD activity"@
        )
    } else if i == 12 {
        (
            ComponentId::Storage,
            "rustc"@,
            18472,
            18472,
            seq![0x0Fu8, 0x05u8],
            "syscall"@,
            ""@,
            "mock syscall correlated with storage I/O"@
        )
    } else if i == 13 {
        (
            ComponentId::Storage,
            "cargo"@,
            18430,
            18430,
            seq![0x48u8, 0x89u8, 0xC7u8],
            "mov"@,
            "rdi, rax"@,
            "mock file-I/O call preparation"@
        )
    } else if i == 14 {
        (
            ComponentId::Storage,
            "rustc"@,
            18472,
            18498,
            seq![0x48u8, 0x8Bu8, 0x55u8, 0xF0u8],
            "mov"@,
            "rdx, [rbp-0x10]"@,
            "mock buffer preparation near storage activity"@
        )
    } else if i == 15 {
        (
            ComponentId::Storage,
            "cargo"@,
            18430,
            18430,
            seq![0xE8u8, 0x88u8, 0x01u8, 0x00u8, 0x00u8],
            "call"@,
            "0x7F23C040"@,
            "mock call correlated with executable write"@
        )
    } else if i == 16 {
        (
            ComponentId::Network,
            "firefox"@,
            7291,
            7351,
            seq![0x0Fu8, 0x05u8],
            "syscall"@,
            ""@,
            "mock syscall correlated with socket activity"@
        )
    } else if i == 17 {
        (
            ComponentId::Network,
            "firefox"@,
            7291,
            7351,
            seq![0x48u8, 0x89u8, 0xD6u8],
            "mov"@,
            "rsi, rdx"@,
            "mock network-buffer call preparation"@
        )
    } else if i == 18 {
        (
            ComponentId::Network,
            "pipewire"@,
            3118,
            3155,
            seq![0x48u8, 0x8Bu8, 0x7Du8, 0xE0u8],
            "mov"@,
            "rdi, [rbp-0x20]"@,
            "mock socket/buffer processing sample"@
        )
    } else {
        (
            ComponentId::Network,
            "firefox"@,
            7291,
            7351,
            seq![0x85u8, 0xC0u8],
            "test"@,
            "eax, eax"@,
            "mock return-value check after network activity"@
        )
    }
}

fn template_at(i: u64) -> (r: (
    ComponentId,
    &'static str,
    u32,
    u32,
    Vec<u8>,
    &'static str,
    &'static str,
    &'static str,
))
    requires
        i < MOCK_TEMPLATE_COUNT,
    ensures
        (r.0, r.1@, r.2, r.3, r.4@, r.5@, r.6@, r.7@) == mock_template(i as int),
{
    match i {
        0 => (
            ComponentId::Cpu,
            "rustc",
            18472,
            18491,
            vec![0x48u8, 0x8Bu8, 0x43u8, 0x08u8],
            "mov",
            "rax, [rbx+0x8]",
            "mock CPU execution sample",
        ),
        1 => (
            ComponentId::Cpu,
            "rustc",
            18472,
            18491,
            vec![0x48u8, 0x85u8, 0xC0u8],
            "test",
            "rax, rax",
            "mock CPU execution sample",
        ),
        2 => (
            ComponentId::Cpu,
            "cargo",
            18430,
            18430,
            vec![0x75u8, 0xE9u8],
            "jne",
            "0x7F23A90E",
            "mock branch sample",
        ),
        3 => (
            ComponentId::Cpu,
            "wyn-observatory",
            18801,
            18808,
            vec![0x48u8, 0x83u8, 0xECu8, 0x20u8],
            "sub",
            "rsp, 0x20",
            "mock stack-frame activity",
        ),
        4 => (
            ComponentId::Memory,
            "firefox",
            7291,
            7332,
            vec![0x48u8, 0x8Bu8, 0x04u8, 0x24u8],
            "mov",
            "rax, [rsp]",
            "mock load classified as memory-relevant",
        ),
        5 => (
            ComponentId::Memory,
            "rustc",
            18472,
            18495,
            vec![0x48u8, 0x89u8, 0x45u8, 0xE8u8],
            "mov",
            "[rbp-0x18], rax",
            "mock store classified as memory-relevant",
        ),
        6 => (
            ComponentId::Memory,
            "rustc",
            18472,
            18495,
            vec![0x0Fu8, 0x18u8, 0x08u8],
            "prefetcht0",
            "[rax]",
            "mock prefetch sample",
        ),
        7 => (
            ComponentId::Memory,
            "kwin_wayland",
            2203,
            2240,
            vec![0x48u8, 0x8Du8, 0x54u8, 0x24u8, 0x20u8],
            "lea",
            "rdx, [rsp+0x20]",
            "mock address-generation sample",
        ),
        8 => (
            ComponentId::Gpu,
            "kwin_wayland",
            2203,
            2244,
            vec![0xFFu8, 0x15u8, 0x62u8, 0x31u8, 0x00u8, 0x00u8],
            "call",
            "qword ptr [rip+0x3162]",
            "mock x86-64 host-side GPU submission path; not GPU SASS",
        ),
        9 => (
            ComponentId::Gpu,
            "firefox",
            7291,
            7368,
            vec![0x48u8, 0x89u8, 0xDFu8],
            "mov",
            "rdi, rbx",
            "mock host-side graphics call preparation",
        ),
        10 => (
            ComponentId::Gpu,
            "kwin_wayland",
            2203,
            2244,
            vec![0xE8u8, 0x41u8, 0x02u8, 0x00u8, 0x00u8],
            "call",
            "0x7F23B1A0",
            "mock host call correlated with GPU activity",
        ),
        11 => (
            ComponentId::Gpu,
            "wyn-observatory",
            18801,
            18806,
            vec![0x0Fu8, 0x28u8, 0xC1u8],
            "movaps",
            "xmm0, xmm1",
            "mock renderer-side SIMD activity",
        ),
        12 => (
            ComponentId::Storage,
            "rustc",
            18472,
            18472,
            vec![0x0Fu8, 0x05u8],
            "syscall",
            "",
            "mock syscall correlated with storage I/O",
        ),
        13 => (
            ComponentId::Storage,
            "cargo",
            18430,
            18430,
            vec![0x48u8, 0x89u8, 0xC7u8],
            "mov",
            "rdi, rax",
            "mock file-I/O call preparation",
        ),
        14 => (
            ComponentId::Storage,
            "rustc",
            18472,
            18498,
            vec![0x48u8, 0x8Bu8, 0x55u8, 0xF0u8],
            "mov",
            "rdx, [rbp-0x10]",
            "mock buffer preparation near storage activity",
        ),
        15 => (
            ComponentId::Storage,
            "cargo",
            18430,
            18430,
            vec![0xE8u8, 0x88u8, 0x01u8, 0x00u8, 0x00u8],
            "call",
            "0x7F23C040",
            "mock call correlated with executable write",
        ),
        16 => (
            ComponentId::Network,
            "firefox",
            7291,
            7351,
            vec![0x0Fu8, 0x05u8],
            "syscall",
            "",
            "mock syscall correlated with socket activity",
        ),
        17 => (
            ComponentId::Network,
            "firefox",
            7291,
            7351,
            vec![0x48u8, 0x89u8, 0xD6u8],
            "mov",
            "rsi, rdx",
            "mock network-buffer call preparation",
        ),
        18 => (
            ComponentId::Network,
            "pipewire",
            3118,
            3155,
            vec![0x48u8, 0x8Bu8, 0x7Du8, 0xE0u8],
            "mov",
            "rdi, [rbp-0x20]",
            "mock socket/buffer processing sample",
        ),
        _ => (
            ComponentId::Network,
            "firefox",
            7291,
            7351,
            vec![0x85u8, 0xC0u8],
            "test",
            "eax, eax",
            "mock return-value check after network activity",
        ),
    }
}

/// The sequence number `offset` places before the newest (at least 0).
pub open spec fn mock_sequence(newest: u64, offset: int) -> u64 {
    if offset <= newest {
        (newest - offset) as u64
    } else {
        0
    }
}

/// `s` is the sample `offset` places before the newest: its template is
/// the sequence number modulo the template count, its CPU the sequence plus
/// the thread id modulo 16, its address 4 bytes per step of the sequence
/// modulo 0x300 above `0x7F23A900`, and its age `offset / 3.5` seconds,
/// counted in whole nanoseconds.
pub open spec fn is_mock_sample(s: InstructionSample, newest: u64, offset: int) -> bool {
    let sequence = mock_sequence(newest, offset);
    let t = mock_template((sequence % 20) as int);
    &&& s.sequence == sequence
    &&& s.age_nanos == offset * 2_000_000_000 / 7
    &&& s.component == t.0
    &&& s.truth == TruthLevel::Sampled
    &&& s.pid == t.2
    &&& s.tid == t.3
    &&& s.process_name@ == t.1
    &&& s.cpu_id == Some(((sequence + t.3) % 16) as usize)
    &&& s.architecture == InstructionArchitecture::X86_64
    &&& s.address == 0x7F23_A900 + (sequence % 0x300) * 4
    &&& s.bytes@ == t.4
    &&& s.mnemonic@ == t.5
    &&& s.operands@ == t.6
    &&& s.note is Some
    &&& s.note.unwrap()@ == t.7
}

/// The feed's samples, newest first, numbered down from `newest_sequence`
/// (stopping at 0).
pub fn mock_instruction_samples(newest_sequence: u64) -> (r: Vec<InstructionSample>)
    ensures
        r@.len() == MOCK_SAMPLE_COUNT,
        forall|k: int| 0 <= k < MOCK_SAMPLE_COUNT ==> is_mock_sample(#[trigger] r@[k], newest_sequence, k),
{
    let mut r: Vec<InstructionSample> = Vec::new();
    let mut offset: u64 = 0;
    while offset < 28
        invariant
            offset <= 28,
            r@.len() == offset,
            forall|k: int| 0 <= k < offset ==> is_mock_sample(#[trigger] r@[k], newest_sequence, k),
        decreases 28 - offset,
    {
        let sequence = newest_sequence.saturating_sub(offset);
        let (component, process, pid, tid, bytes, mnemonic, operands, note) = template_at(
            sequence % MOCK_TEMPLATE_COUNT,
        );
        let cpu = (sequence % 16 + tid as u64 % 16) % 16;
        proof {
            vstd::arithmetic::div_mod::lemma_add_mod_noop(sequence as int, tid as int, 16);
        }
        let sample = InstructionSample {
            sequence,
            age_nanos: offset * 2_000_000_000 / 7,
            component,
            truth: TruthLevel::Sampled,
            pid,
            tid,
            process_name: copy_str(process),
            cpu_id: Some(cpu as usize),
            architecture: InstructionArchitecture::X86_64,
            address: 0x7F23_A900 + (sequence % 0x300) * 4,
            bytes,
            mnemonic: copy_str(mnemonic),
            operands: copy_str(operands),
            note: Some(copy_str(note)),
        };
        r.push(sample);
        offset += 1;
    }
    r
}

/// The feed never runs backwards: a later view, asked with a newest
/// number no smaller, starts with a number no smaller.
pub proof fn law_mock_newest_monotone(
    earlier: InstructionSample,
    later: InstructionSample,
    earlier_newest: u64,
    later_newest: u64,
)
    requires
        earlier_newest <= later_newest,
        is_mock_sample(earlier, earlier_newest, 0),
        is_mock_sample(later, later_newest, 0),
    ensures
        earlier.sequence == earlier_newest,
        later.sequence == later_newest,
        earlier.sequence <= later.sequence,
{
}

} // verus!
