use wynobserve::hub::{instruction_vein_request, next_request_id, process_memory_map_request, RequestIds, ResponseTable};
use wynobserve::inspector::{split_instruction, Inspector, VeinPoll, INSTRUCTION_VEIN_BUFFER_SIZE};
use wynobserve::memory_map::MemoryRegionFilter;
use wynobserve::model::{ComponentId, InstructionArchitecture, TruthLevel};
use wynobserve::protocol::{
    InstructionVeinBatch, InstructionVeinSample, ObservatoryRequestKind, ObservatoryResponseKind, ProcessMemoryMap,
    ProcessMemoryOverview, PROTOCOL_VERSION,
};
use wynobserve::updater::{
    check_outcome, install_failure, install_outcome, launch_failure, parse_failure, refresh_outcome, report_failure,
    ComponentUpdate, UpdateSnapshot, UpdateState,
};

// ----- request ids and the answer table -----

#[test]
fn request_ids_wrap_past_zero() {
    assert_eq!(next_request_id(1), 2);
    assert_eq!(next_request_id(u64::MAX), 1);
    assert_eq!(next_request_id(0), 1);
    let mut ids = RequestIds::new();
    assert_eq!(ids.issue(), 1);
    assert_eq!(ids.issue(), 2);
    assert_eq!(ids.issue(), 3);
}

#[test]
fn request_messages() {
    let r = process_memory_map_request(7, "m1", 42, Some(1000));
    assert_eq!(r.protocol_version, PROTOCOL_VERSION);
    assert_eq!(r.request_id, 7);
    assert!(matches!(&r.request, ObservatoryRequestKind::ProcessMemoryMap { machine_id, pid: 42, expected_started_at_unix_ms: Some(1000) } if machine_id == "m1"));
    let r = instruction_vein_request(8, "m2", 43, None);
    assert_eq!(r.request_id, 8);
    assert!(matches!(&r.request, ObservatoryRequestKind::InstructionVeinSample { machine_id, pid: 43, expected_started_at_unix_ms: None } if machine_id == "m2"));
}

fn error(code: &str) -> ObservatoryResponseKind {
    ObservatoryResponseKind::Error { code: code.into(), message: "m".into() }
}

#[test]
fn answers_are_taken_once() {
    let mut table = ResponseTable::new();
    table.store(1, error("first"));
    table.store(2, error("other"));
    table.store(1, error("second"));
    assert!(matches!(table.take(1), Some(ObservatoryResponseKind::Error { code, .. }) if code == "second"));
    assert!(table.take(1).is_none());
    assert!(matches!(table.take(2), Some(ObservatoryResponseKind::Error { code, .. }) if code == "other"));
    assert!(table.take(3).is_none());
}

#[test]
fn answers_of_other_protocols_are_dropped() {
    let mut table = ResponseTable::new();
    assert!(!table.receive(1, 5, error("old")));
    assert!(table.take(5).is_none());
    assert!(table.receive(PROTOCOL_VERSION, 5, error("new")));
    assert!(table.take(5).is_some());
}

// ----- memory maps -----

fn map(pid: u32) -> ProcessMemoryMap {
    ProcessMemoryMap {
        pid,
        process_name: "firefox".into(),
        executable: Some("/usr/bin/firefox".into()),
        captured_at_unix_ms: 1,
        total_virtual_bytes: 4096,
        region_count: 0,
        writable_executable_regions: 0,
        overview: ProcessMemoryOverview::default(),
        regions: Vec::new(),
    }
}

#[test]
fn opening_a_process_without_a_machine() {
    let mut inspector = Inspector::new();
    assert!(inspector.open_process_memory_map("", "Local", 10, "bash", None).is_none());
    assert_eq!(inspector.memory_map_error.as_deref(), Some("No Fleet machine is selected."));
    assert!(inspector.memory_map_request_id.is_none());
    assert_eq!(inspector.memory_map_target.as_ref().unwrap().pid, 10);
    assert_eq!(inspector.instruction_vein_target.as_ref().unwrap().process_name, "bash");
}

#[test]
fn memory_map_round_trip() {
    let mut inspector = Inspector::new();
    inspector.memory_map_page = 3;
    inspector.memory_map_search = "heap".into();
    inspector.memory_map_filter = MemoryRegionFilter::Stack;
    let request = inspector.open_process_memory_map("m1", "Machine One", 42, "firefox", Some(99)).unwrap();
    assert_eq!(request.request_id, 1);
    assert_eq!(inspector.memory_map_request_id, Some(1));
    assert_eq!(inspector.memory_map_page, 0);
    assert_eq!(inspector.memory_map_search, "");
    assert_eq!(inspector.memory_map_filter, MemoryRegionFilter::All);

    let mut table = ResponseTable::new();
    assert!(!inspector.poll_process_memory_map(&mut table));
    table.store(1, ObservatoryResponseKind::ProcessMemoryMap { machine_id: "m1".into(), map: map(42) });
    assert!(inspector.poll_process_memory_map(&mut table));
    assert!(inspector.memory_map_request_id.is_none());
    assert!(inspector.memory_map_error.is_none());
    assert_eq!(inspector.memory_map_result.as_ref().unwrap().pid, 42);
    assert!(!inspector.poll_process_memory_map(&mut table));

    let again = inspector.refresh_process_memory_map().unwrap();
    assert_eq!(again.request_id, 2);
    assert!(inspector.memory_map_result.is_none());
    inspector.memory_map_request_failed("could not queue Hub request: closed".into());
    assert!(inspector.memory_map_request_id.is_none());
    assert_eq!(inspector.memory_map_error.as_deref(), Some("could not queue Hub request: closed"));
}

#[test]
fn mismatched_memory_maps_are_refused() {
    let mut inspector = Inspector::new();
    inspector.open_process_memory_map("m1", "Machine One", 42, "firefox", None);
    inspector.accept_memory_map_response(ObservatoryResponseKind::ProcessMemoryMap { machine_id: "m2".into(), map: map(42) });
    assert_eq!(inspector.memory_map_error.as_deref(), Some("Memory map returned for machine `m2` instead of `m1`"));
    assert!(inspector.memory_map_result.is_none());
    inspector.accept_memory_map_response(ObservatoryResponseKind::ProcessMemoryMap { machine_id: "m1".into(), map: map(7) });
    assert_eq!(inspector.memory_map_error.as_deref(), Some("Memory map returned PID 7 instead of PID 42"));
    inspector.accept_memory_map_response(ObservatoryResponseKind::InstructionVein {
        machine_id: "m1".into(),
        batch: InstructionVeinBatch { pid: 42, samples: Vec::new() },
    });
    assert_eq!(inspector.memory_map_error.as_deref(), Some("Received Instruction Vein data for a memory-map request"));
    inspector.accept_memory_map_response(ObservatoryResponseKind::Error { code: "denied".into(), message: "ptrace".into() });
    assert_eq!(inspector.memory_map_error.as_deref(), Some("denied // ptrace"));
}

#[test]
fn refresh_without_a_process_does_nothing() {
    let mut inspector = Inspector::new();
    assert!(inspector.refresh_process_memory_map().is_none());
    assert!(inspector.memory_map_request_id.is_none());
}

// ----- the Instruction Vein -----

#[test]
fn instructions_split_into_mnemonic_and_operands() {
    assert_eq!(split_instruction("mov rax, rbx"), ("mov".to_string(), "rax, rbx".to_string()));
    assert_eq!(split_instruction("ret"), ("ret".to_string(), String::new()));
    assert_eq!(split_instruction("call \t  0x401000  "), ("call".to_string(), "0x401000".to_string()));
    assert_eq!(split_instruction(" nop"), (String::new(), "nop".to_string()));
    assert_eq!(split_instruction(""), (String::new(), String::new()));
}

fn vein_sample(ip: u64, perf_time: u64, text: &str) -> InstructionVeinSample {
    InstructionVeinSample { ip, pid: 42, tid: 43, cpu: 3, perf_time, bytes: vec![0x90], instruction: text.into() }
}

fn open(inspector: &mut Inspector) {
    inspector.open_process_memory_map("m1", "Machine One", 42, "firefox", None);
}

#[test]
fn vein_requests_only_when_due() {
    let mut inspector = Inspector::new();
    assert!(inspector.maybe_request_instruction_vein(true, false, "m1", true).is_none());
    open(&mut inspector);
    assert!(inspector.maybe_request_instruction_vein(false, false, "m1", true).is_none());
    assert!(inspector.maybe_request_instruction_vein(true, true, "m1", true).is_none());
    assert!(inspector.maybe_request_instruction_vein(true, false, "m2", true).is_none());
    assert!(inspector.maybe_request_instruction_vein(true, false, "m1", false).is_none());
    let r = inspector.maybe_request_instruction_vein(true, false, "m1", true).unwrap();
    assert_eq!(r.request_id, 2);
    assert!(matches!(&r.request, ObservatoryRequestKind::InstructionVeinSample { pid: 42, .. }));
    assert_eq!(inspector.instruction_vein_request_id, Some(2));
    assert_eq!(inspector.instruction_vein_request_target, Some(("m1".to_string(), 42)));
    assert!(inspector.maybe_request_instruction_vein(true, false, "m1", true).is_none());
    inspector.instruction_vein_request_failed();
    assert!(inspector.instruction_vein_request_id.is_none());
    assert!(inspector.maybe_request_instruction_vein(true, false, "m1", true).is_some());
}

#[test]
fn vein_batches_arrive_newest_first() {
    let mut inspector = Inspector::new();
    let mut table = ResponseTable::new();
    assert_eq!(inspector.poll_instruction_vein(&mut table), VeinPoll::Idle);
    open(&mut inspector);
    let id = inspector.maybe_request_instruction_vein(true, false, "m1", true).unwrap().request_id;
    assert_eq!(inspector.poll_instruction_vein(&mut table), VeinPoll::Waiting);
    let batch = InstructionVeinBatch {
        pid: 42,
        samples: vec![vein_sample(0x10, 1_000, "push rbp"), vein_sample(0x11, 4_000, "mov rbp, rsp"), vein_sample(0x14, 2_500, "ret")],
    };
    table.store(id, ObservatoryResponseKind::InstructionVein { machine_id: "m1".into(), batch });
    assert_eq!(inspector.poll_instruction_vein(&mut table), VeinPoll::Accepted(3));
    assert!(inspector.instruction_vein_request_id.is_none());
    assert!(inspector.instruction_vein_request_target.is_none());
    let s = &inspector.instruction_vein_samples;
    assert_eq!(s.len(), 3);
    assert_eq!((s[0].sequence, s[1].sequence, s[2].sequence), (3, 2, 1));
    assert_eq!((s[0].address, s[1].address, s[2].address), (0x14, 0x11, 0x10));
    assert_eq!((s[0].age_nanos, s[1].age_nanos, s[2].age_nanos), (1_500, 0, 3_000));
    assert_eq!(s[1].mnemonic, "mov");
    assert_eq!(s[1].operands, "rbp, rsp");
    assert_eq!(s[0].operands, "");
    assert_eq!(s[0].process_name, "firefox");
    assert_eq!(s[0].cpu_id, Some(3));
    assert_eq!(s[0].component, ComponentId::Cpu);
    assert_eq!(s[0].truth, TruthLevel::Sampled);
    assert_eq!(s[0].architecture, InstructionArchitecture::X86_64);
    assert_eq!(s[0].note.as_deref(), Some("live Linux perf sample // process_vm_readv // iced-x86"));
    assert_eq!(inspector.instruction_vein_next_sequence, 4);

    let id = inspector.maybe_request_instruction_vein(true, false, "m1", true).unwrap().request_id;
    let batch = InstructionVeinBatch { pid: 42, samples: vec![vein_sample(0x20, 5, "nop")] };
    table.store(id, ObservatoryResponseKind::InstructionVein { machine_id: "m1".into(), batch });
    assert_eq!(inspector.poll_instruction_vein(&mut table), VeinPoll::Accepted(1));
    let s = &inspector.instruction_vein_samples;
    assert_eq!(s.len(), 4);
    assert_eq!(s[0].sequence, 4);
    assert_eq!(s[1].sequence, 3);
}

#[test]
fn vein_buffer_is_bounded() {
    let mut inspector = Inspector::new();
    let mut table = ResponseTable::new();
    open(&mut inspector);
    for round in 0..3u64 {
        let id = inspector.maybe_request_instruction_vein(true, false, "m1", true).unwrap().request_id;
        let samples = (0..300u64).map(|k| vein_sample(round * 1000 + k, k, "nop")).collect();
        table.store(id, ObservatoryResponseKind::InstructionVein { machine_id: "m1".into(), batch: InstructionVeinBatch { pid: 42, samples } });
        assert_eq!(inspector.poll_instruction_vein(&mut table), VeinPoll::Accepted(300));
        assert!(inspector.instruction_vein_samples.len() <= INSTRUCTION_VEIN_BUFFER_SIZE);
    }
    let s = &inspector.instruction_vein_samples;
    assert_eq!(s.len(), 512);
    assert_eq!(s[0].address, 2299);
    assert_eq!(s[299].address, 2000);
    assert_eq!(s[300].address, 1299);
    assert_eq!(s[511].address, 1088);
}

#[test]
fn stale_and_misrouted_vein_answers_are_dropped() {
    let mut inspector = Inspector::new();
    let mut table = ResponseTable::new();
    open(&mut inspector);
    let id = inspector.maybe_request_instruction_vein(true, false, "m1", true).unwrap().request_id;
    table.store(id, ObservatoryResponseKind::InstructionVein { machine_id: "m2".into(), batch: InstructionVeinBatch { pid: 42, samples: vec![vein_sample(1, 1, "nop")] } });
    assert_eq!(inspector.poll_instruction_vein(&mut table), VeinPoll::RoutingMismatch);
    assert!(inspector.instruction_vein_samples.is_empty());

    let id = inspector.maybe_request_instruction_vein(true, false, "m1", true).unwrap().request_id;
    inspector.open_process_memory_map("m1", "Machine One", 77, "other", None);
    table.store(id, ObservatoryResponseKind::InstructionVein { machine_id: "m1".into(), batch: InstructionVeinBatch { pid: 42, samples: vec![vein_sample(1, 1, "nop")] } });
    assert_eq!(inspector.poll_instruction_vein(&mut table), VeinPoll::Stale);
    assert!(inspector.instruction_vein_samples.is_empty());

    let id = inspector.maybe_request_instruction_vein(true, false, "m1", true).unwrap().request_id;
    table.store(id, ObservatoryResponseKind::Error { code: "gone".into(), message: "process exited".into() });
    assert_eq!(inspector.poll_instruction_vein(&mut table), VeinPoll::Failed { code: "gone".into(), message: "process exited".into() });

    let id = inspector.maybe_request_instruction_vein(true, false, "m1", true).unwrap().request_id;
    table.store(id, ObservatoryResponseKind::ProcessMemoryMap { machine_id: "m1".into(), map: map(77) });
    assert_eq!(inspector.poll_instruction_vein(&mut table), VeinPoll::WrongKind);
    assert!(inspector.instruction_vein_request_id.is_none());
}

// ----- the Updater, seen from the Observatory -----

fn snapshot(updates: usize) -> UpdateSnapshot {
    UpdateSnapshot {
        components: vec![ComponentUpdate {
            name: "Agent".into(),
            installed: Some("0.1.0".into()),
            latest: Some("0.2.0".into()),
            status: "UPDATE AVAILABLE".into(),
        }],
        updates_available: updates,
    }
}

#[test]
fn update_check_outcomes() {
    assert!(matches!(check_outcome(Ok(snapshot(1))), UpdateState::Available(s) if s.updates_available == 1));
    assert!(matches!(check_outcome(Ok(snapshot(0))), UpdateState::Current(_)));
    assert!(matches!(check_outcome(Err("boom".into())), UpdateState::Error(e) if e == "boom"));
}

#[test]
fn install_outcomes() {
    assert!(install_outcome(Ok(())).is_none());
    assert!(matches!(install_outcome(Err("x".into())), Some(UpdateState::Error(e)) if e == "x"));
    assert!(matches!(refresh_outcome(Ok(snapshot(0))), UpdateState::Installed(s) if s.components.len() == 1));
    assert!(matches!(refresh_outcome(Err("no json".into())), UpdateState::Error(e) if e == "update installed, but refresh failed: no json"));
}

#[test]
fn updater_messages() {
    assert_eq!(launch_failure("No such file or directory (os error 2)"), "could not launch wyn-update: No such file or directory (os error 2)");
    assert_eq!(report_failure("  bad flag\n"), "wyn-update --json failed: bad flag");
    assert_eq!(parse_failure("EOF while parsing"), "could not parse updater JSON: EOF while parsing");
    assert_eq!(install_failure("exit status: 1"), "wyn-update exited with exit status: 1");
}
