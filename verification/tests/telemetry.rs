use wynobserve::checksum::calculate_sha256;
use wynobserve::mock::{mock_instruction_samples, MOCK_SAMPLE_COUNT};
use wynobserve::model::{ComponentId, InstructionArchitecture, TruthLevel};
use wynobserve::normalize::{
    attribute_cores, attributed_process, clamp_frequency_mhz, memory_snapshot, telemetry_event_message, CpuFrequency,
    ProcessPlacement,
};
use wynobserve::protocol::MemorySnapshot;

#[test]
fn mock_feed_numbers_down_from_the_newest() {
    let s = mock_instruction_samples(50_007);
    assert_eq!(s.len(), MOCK_SAMPLE_COUNT);
    assert_eq!(s.len(), 28);
    for (offset, sample) in s.iter().enumerate() {
        assert_eq!(sample.sequence, 50_007 - offset as u64);
        assert_eq!(sample.truth, TruthLevel::Sampled);
        assert_eq!(sample.architecture, InstructionArchitecture::X86_64);
        assert_eq!(sample.address, 0x7F23_A900 + (sample.sequence % 0x300) * 4);
        assert_eq!(sample.cpu_id, Some(((sample.sequence + sample.tid as u64) % 16) as usize));
        assert_eq!(sample.age_nanos, offset as u64 * 2_000_000_000 / 7);
    }
    // 50007 % 20 == 7: the kwin_wayland address-generation template.
    assert_eq!(s[0].process_name, "kwin_wayland");
    assert_eq!(s[0].pid, 2203);
    assert_eq!(s[0].tid, 2240);
    assert_eq!(s[0].component, ComponentId::Memory);
    assert_eq!(s[0].bytes, vec![0x48, 0x8D, 0x54, 0x24, 0x20]);
    assert_eq!(s[0].mnemonic, "lea");
    assert_eq!(s[0].operands, "rdx, [rsp+0x20]");
    assert_eq!(s[0].note.as_deref(), Some("mock address-generation sample"));
    assert_eq!(s[0].cpu_id, Some((50_007 + 2240) % 16));
    // 50000 % 20 == 0: the first template.
    assert_eq!(s[7].process_name, "rustc");
    assert_eq!(s[7].mnemonic, "mov");
    assert_eq!(s[7].operands, "rax, [rbx+0x8]");
    // 49999 % 20 == 19: the last template.
    assert_eq!(s[8].process_name, "firefox");
    assert_eq!(s[8].mnemonic, "test");
    assert_eq!(s[8].component, ComponentId::Network);
    assert_eq!(s[1].age_nanos, 285_714_285);
}

#[test]
fn mock_feed_stops_at_zero() {
    let s = mock_instruction_samples(3);
    assert_eq!(s.len(), 28);
    assert_eq!((s[0].sequence, s[3].sequence, s[27].sequence), (3, 0, 0));
}

fn process(name: &str, last_cpu: usize, rate: bool) -> ProcessPlacement {
    ProcessPlacement { name: name.into(), last_cpu, cpu_rate_available: rate }
}

#[test]
fn cpus_are_attributed_to_the_first_running_process() {
    let processes = vec![process("idle", 2, false), process("rustc", 2, true), process("cargo", 2, true), process("x", 0, true)];
    assert_eq!(attributed_process(&processes, 2), "rustc");
    assert_eq!(attributed_process(&processes, 0), "x");
    assert_eq!(attributed_process(&processes, 1), "unattributed");
    assert_eq!(attributed_process(&Vec::new(), 0), "unattributed");
    let cores = attribute_cores(
        &vec![CpuFrequency { logical_id: 0, frequency_mhz: 4_200 }, CpuFrequency { logical_id: 1, frequency_mhz: u64::MAX }],
        &processes,
    );
    assert_eq!(cores.len(), 2);
    assert_eq!((cores[0].logical_id, cores[0].frequency_mhz, cores[0].process.as_str()), (0, 4_200, "x"));
    assert_eq!((cores[1].logical_id, cores[1].frequency_mhz, cores[1].process.as_str()), (1, u32::MAX, "unattributed"));
}

#[test]
fn frequencies_and_counters() {
    assert_eq!(clamp_frequency_mhz(0), 0);
    assert_eq!(clamp_frequency_mhz(u32::MAX as u64), u32::MAX);
    assert_eq!(clamp_frequency_mhz(u32::MAX as u64 + 1), u32::MAX);
    let wire = MemorySnapshot {
        total_bytes: 10,
        used_bytes: 4,
        available_bytes: 6,
        cached_bytes: 2,
        active_bytes: 3,
        dirty_bytes: 1,
        page_faults_per_second: 7,
        major_page_faults_per_second: 8,
        total_swap_bytes: 9,
        used_swap_bytes: 5,
        memory_detail_available: true,
        fault_rates_available: false,
    };
    let m = memory_snapshot(&wire);
    assert_eq!((m.total_bytes, m.used_bytes, m.available_bytes), (10, 4, 6));
    assert_eq!((m.cached_bytes, m.active_bytes, m.dirty_bytes, m.page_faults_per_second), (2, 3, 1, 7));
    assert_eq!(telemetry_event_message(1_700_000_000_123), "M6 telemetry received // snapshot 1700000000123");
}

#[test]
fn digests_are_sixty_four_lower_case_hex_digits() {
    for data in [&b""[..], b"abc", &[0xFFu8; 1000][..]] {
        let d = calculate_sha256(data);
        assert_eq!(d.len(), 64);
        assert!(d.chars().all(|c| c.is_ascii_digit() || ('a'..='f').contains(&c)));
    }
}
