use wynobserve::config::{
    config_path_from_args, default_config_file, default_environment, default_local_endpoint, require_value,
    ConfigPath, EmptyField, HubConfig, LocalTelemetryConfig, ObservatoryConfig,
};
use wynobserve::display::{optional_u32, FamiliarKind};
use wynobserve::fleet::{
    convert_fleet, convert_machine, snapshot_source, CpuFacts, FleetMachine, FleetState, MachineOrigin,
    ReportedMachine, SnapshotSource,
};
use wynobserve::memory_map::{
    clamp_page, filtered_indices, memory_kind_label, memory_permissions, other_bytes, page_bounds, page_count,
    region_matches_search, MemoryRegionFilter, REGIONS_PER_PAGE,
};
use wynobserve::model::{format_bytes, ComponentId, InstructionArchitecture, InstructionSample, TruthLevel};
use wynobserve::protocol::{
    MachineIdentity, MachineStatus, ProcessMemoryMap, ProcessMemoryOverview, ProcessMemoryPermissions,
    ProcessMemoryRegion, ProcessMemoryRegionKind,
};
use wynobserve::views::{enforce_view_capabilities, Selection, View};

fn args(list: &[&str]) -> Vec<String> {
    list.iter().map(|s| s.to_string()).collect()
}

// ----- pages -----

#[test]
fn view_labels() {
    assert_eq!(View::Overview.label(), "THE MACHINE");
    assert_eq!(View::Server.label(), "THE SERVER");
    assert_eq!(View::Npu.label(), "NPU OVERVIEW");
    assert_eq!(View::Replay.label(), "TIME MACHINE");
    assert_eq!(View::Cache.label(), "CACHE / PMU");
    assert_eq!(View::Interrupts.label(), "IRQ / SOFTIRQ");
    assert_eq!(View::Fabric.label(), "PCIe FABRIC");
    assert_eq!(View::StorageIo.label(), "STORAGE I/O");
    assert_eq!(View::Containers.label(), "CGROUPS");
    assert_eq!(View::Diff.label(), "SNAPSHOT DIFF");
    assert_eq!(View::SourceSilicon.label(), "SOURCE → SILICON");
    assert_eq!(View::Logs.label(), "LOGS");
    let groups: Vec<&[View]> = vec![
        &View::CORE,
        &View::LIVE,
        &View::NPU,
        &View::DEEP,
        &View::HARDWARE,
        &View::SERVER_STACK,
        &View::DISTRIBUTED,
        &View::INTELLIGENCE,
        &View::FORENSICS,
    ];
    let total: usize = groups.iter().map(|g| g.len()).sum();
    assert_eq!(total, 40);
}

#[test]
fn only_npu_pages_need_an_npu() {
    for v in View::NPU {
        assert!(v.requires_npu());
    }
    for v in View::CORE.iter().chain(View::LIVE.iter()).chain(View::FORENSICS.iter()) {
        assert!(!v.requires_npu());
    }
}

#[test]
fn npu_pages_fall_back_without_an_npu() {
    let s = Selection { view: View::NpuMemory, selected: ComponentId::Npu, selected_instruction: Some(7) };
    let r = enforce_view_capabilities(s, false);
    assert_eq!(r, Selection { view: View::Overview, selected: ComponentId::Cpu, selected_instruction: None });
    assert_eq!(enforce_view_capabilities(r, false), r);
    assert_eq!(enforce_view_capabilities(s, true), s);
    let g = Selection { view: View::Gpu, selected: ComponentId::Gpu, selected_instruction: Some(3) };
    assert_eq!(enforce_view_capabilities(g, false), g);
    let n = Selection { view: View::Npu, selected: ComponentId::Memory, selected_instruction: Some(3) };
    assert_eq!(
        enforce_view_capabilities(n, false),
        Selection { view: View::Overview, selected: ComponentId::Memory, selected_instruction: Some(3) }
    );
}

// ----- model -----

#[test]
fn truth_and_component_labels() {
    assert_eq!(TruthLevel::Observed.glyph(), "●");
    assert_eq!(TruthLevel::Sampled.glyph(), "◉");
    assert_eq!(TruthLevel::Inferred.glyph(), "≈");
    assert_eq!(TruthLevel::Schematic.glyph(), "◇");
    assert_eq!(TruthLevel::Schematic.label(), "SCHEMATIC");
    assert_eq!(ComponentId::Storage.label(), "NVMe");
    assert_eq!(ComponentId::Network.label(), "NETWORK");
    assert_eq!(InstructionArchitecture::X86_64.label(), "x86-64");
    assert_eq!(InstructionArchitecture::NvidiaSass.label(), "NVIDIA SASS");
    assert_eq!(InstructionArchitecture::Unknown.label(), "unknown ISA");
}

fn sample(bytes: Vec<u8>, mnemonic: &str, operands: &str) -> InstructionSample {
    InstructionSample {
        sequence: 1,
        age_nanos: 0,
        component: ComponentId::Cpu,
        truth: TruthLevel::Sampled,
        pid: 1,
        tid: 1,
        process_name: "p".into(),
        cpu_id: None,
        architecture: InstructionArchitecture::X86_64,
        address: 0,
        bytes,
        mnemonic: mnemonic.into(),
        operands: operands.into(),
        note: None,
    }
}

#[test]
fn instruction_text() {
    let s = sample(vec![0x48, 0x8b, 0x05, 0x0], "mov", "rax, [rip+0x10]");
    assert_eq!(s.bytes_hex(), "48 8B 05 00");
    assert_eq!(s.assembly(), "mov rax, [rip+0x10]");
    let t = sample(Vec::new(), "ret", "");
    assert_eq!(t.bytes_hex(), "");
    assert_eq!(t.assembly(), "ret");
}

fn reference_format(bytes: u64) -> String {
    const KIB: f64 = 1024.0;
    const MIB: f64 = KIB * 1024.0;
    const GIB: f64 = MIB * 1024.0;
    const TIB: f64 = GIB * 1024.0;
    let value = bytes as f64;
    if value >= TIB {
        format!("{:.2} TiB", value / TIB)
    } else if value >= GIB {
        format!("{:.2} GiB", value / GIB)
    } else if value >= MIB {
        format!("{:.2} MiB", value / MIB)
    } else if value >= KIB {
        format!("{:.2} KiB", value / KIB)
    } else {
        format!("{bytes} B")
    }
}

#[test]
fn byte_sizes() {
    assert_eq!(format_bytes(0), "0 B");
    assert_eq!(format_bytes(1023), "1023 B");
    assert_eq!(format_bytes(1024), "1.00 KiB");
    assert_eq!(format_bytes(1536), "1.50 KiB");
    assert_eq!(format_bytes(1024 * 1024 * 3 / 2), "1.50 MiB");
    assert_eq!(format_bytes(16 * 1024 * 1024 * 1024), "16.00 GiB");
    assert_eq!(format_bytes(u64::MAX), "16777216.00 TiB");
}

#[test]
fn byte_sizes_agree_with_floating_point_formatting() {
    let mut values: Vec<u64> = vec![
        0, 1, 1023, 1024, 1025, 1535, 1536, 1537, 10239, 10240, 1048575, 1048576, 1073741823, 1073741824,
        1099511627775, 1099511627776, u64::MAX, u64::MAX - 1, 9007199254740993, 18014398509481985,
    ];
    let mut x: u64 = 0x9E37_79B9_7F4A_7C15;
    for _ in 0..4000 {
        x ^= x << 13;
        x ^= x >> 7;
        x ^= x << 17;
        values.push(x >> (x % 64));
        values.push(x % 5_000_000);
        // Values near a rounding boundary of the second decimal.
        let unit = [1u64 << 10, 1 << 20, 1 << 30, 1 << 40][(x % 4) as usize];
        let k = (x >> 8) % 100_000;
        values.push(k * unit / 200 + (x % 3));
    }
    for v in values {
        assert_eq!(format_bytes(v), reference_format(v), "value {v}");
    }
}

// ----- memory map -----

fn region(start: u64, end: u64, kind: ProcessMemoryRegionKind, w: bool, x: bool, path: Option<&str>, inode: u64) -> ProcessMemoryRegion {
    ProcessMemoryRegion {
        start_address: start,
        end_address: end,
        size_bytes: end - start,
        permissions: ProcessMemoryPermissions { readable: true, writable: w, executable: x, private: true, shared: false },
        offset: 0,
        device_major: 0,
        device_minor: 0,
        inode,
        pathname: path.map(str::to_string),
        kind,
    }
}

#[test]
fn region_labels_and_permissions() {
    assert_eq!(memory_kind_label(ProcessMemoryRegionKind::SharedLibrary), "SHARED LIB");
    assert_eq!(memory_kind_label(ProcessMemoryRegionKind::ExecutableImage), "EXECUTABLE");
    assert_eq!(MemoryRegionFilter::WritableExecutable.label(), "W+X ONLY");
    assert_eq!(MemoryRegionFilter::ALL.len(), 10);
    let p = |r, w, x, private, shared| ProcessMemoryPermissions { readable: r, writable: w, executable: x, private, shared };
    assert_eq!(memory_permissions(&p(true, false, true, true, false)), "r-xp");
    assert_eq!(memory_permissions(&p(true, true, false, false, true)), "rw-s");
    assert_eq!(memory_permissions(&p(false, false, false, false, false)), "----");
}

#[test]
fn region_filters_and_search() {
    let regions = vec![
        region(0x1000, 0x2000, ProcessMemoryRegionKind::Heap, true, false, Some("[heap]"), 0),
        region(0x7f00, 0x8000, ProcessMemoryRegionKind::SharedLibrary, false, true, Some("/usr/lib/libC.so.6"), 4242),
        region(0x9000, 0xa000, ProcessMemoryRegionKind::Anonymous, true, true, None, 0),
    ];
    assert!(MemoryRegionFilter::Heap.matches(&regions[0]));
    assert!(!MemoryRegionFilter::Heap.matches(&regions[1]));
    assert!(MemoryRegionFilter::WritableExecutable.matches(&regions[2]));
    assert!(!MemoryRegionFilter::WritableExecutable.matches(&regions[0]));
    assert!(region_matches_search(&regions[1], "   "));
    assert!(region_matches_search(&regions[1], "LIBC"));
    assert!(region_matches_search(&regions[1], " 4242 "));
    assert!(region_matches_search(&regions[1], "7f0"));
    assert!(region_matches_search(&regions[2], "anonymous"));
    assert!(region_matches_search(&regions[2], "rwx"));
    assert!(!region_matches_search(&regions[0], "libc"));
    assert_eq!(filtered_indices(&regions, MemoryRegionFilter::All, ""), vec![0, 1, 2]);
    assert_eq!(filtered_indices(&regions, MemoryRegionFilter::All, "x"), vec![1, 2]);
    assert_eq!(filtered_indices(&regions, MemoryRegionFilter::Anonymous, "x"), vec![2]);
    assert_eq!(filtered_indices(&regions, MemoryRegionFilter::Stack, ""), Vec::<usize>::new());
}

#[test]
fn region_pages() {
    assert_eq!(REGIONS_PER_PAGE, 100);
    assert_eq!(page_count(0), 1);
    assert_eq!(page_count(100), 1);
    assert_eq!(page_count(101), 2);
    assert_eq!(clamp_page(5, 150), 1);
    assert_eq!(clamp_page(0, 0), 0);
    assert_eq!(page_bounds(0, 150), (0, 100));
    assert_eq!(page_bounds(1, 150), (100, 150));
    assert_eq!(page_bounds(0, 0), (0, 0));
}

#[test]
fn unaccounted_bytes() {
    let overview = ProcessMemoryOverview { heap_bytes: 10, anonymous_bytes: 20, shared_library_bytes: 30, ..Default::default() };
    let mut map = ProcessMemoryMap {
        pid: 1,
        process_name: "p".into(),
        executable: None,
        captured_at_unix_ms: 0,
        total_virtual_bytes: 100,
        region_count: 0,
        writable_executable_regions: 0,
        overview,
        regions: Vec::new(),
    };
    assert_eq!(other_bytes(&map), 40);
    map.total_virtual_bytes = 0;
    assert_eq!(other_bytes(&map), 0);
    map.overview = ProcessMemoryOverview::default();
    assert_eq!(other_bytes(&map), 1);
    map.overview.heap_bytes = u64::MAX;
    map.overview.stack_bytes = 5;
    map.total_virtual_bytes = u64::MAX;
    assert_eq!(other_bytes(&map), 0);
}

// ----- fleet -----

fn identity(id: &str) -> MachineIdentity {
    MachineIdentity {
        machine_id: id.into(),
        machine_name: format!("{id}-name"),
        role: "workstation".into(),
        os: "linux".into(),
        architecture: "x86_64".into(),
        agent_version: "0.1.0".into(),
    }
}

fn cpu(count: usize, physical: Option<usize>) -> CpuFacts {
    CpuFacts { brand: "Ryzen".into(), physical_core_count: physical, logical_cpu_count: count, logical_ids: (0..count).collect() }
}

#[test]
fn origin_labels() {
    assert_eq!(MachineOrigin::Local.label(), "LOCAL");
    assert_eq!(MachineOrigin::Agent { endpoint: "10.0.0.2:4800".into() }.label(), "AGENT // 10.0.0.2:4800");
}

#[test]
fn machines_from_hub_reports() {
    let m = convert_machine(identity("a"), MachineStatus::Online, cpu(8, None), 42u32, "hub:1");
    assert_eq!(m.id, "a");
    assert_eq!(m.name, "a-name");
    assert!(m.online);
    assert_eq!(m.origin, MachineOrigin::Agent { endpoint: "hub:1".into() });
    assert_eq!(m.agent_version.as_deref(), Some("0.1.0"));
    assert_eq!(m.system, 42);
    assert_eq!(m.cpu_packages.len(), 1);
    assert_eq!(m.cpu_packages[0].package_id, 0);
    assert_eq!(m.cpu_packages[0].physical_cores, 8);
    assert_eq!(m.cpu_packages[0].logical_cpu_ids, (0..8).collect::<Vec<usize>>());
    let s = convert_machine(identity("b"), MachineStatus::Stale, cpu(8, Some(4)), 0u32, "hub:1");
    assert!(!s.online);
    assert_eq!(s.cpu_packages[0].physical_cores, 4);

    let reports = vec![
        ReportedMachine { identity: identity("a"), status: MachineStatus::Online, snapshot: Some((cpu(2, None), 1u32)) },
        ReportedMachine { identity: identity("b"), status: MachineStatus::Online, snapshot: None },
        ReportedMachine { identity: identity("c"), status: MachineStatus::Offline, snapshot: Some((cpu(4, Some(2)), 3u32)) },
    ];
    let fleet = convert_fleet(reports, "hub:2");
    assert_eq!(fleet.machines.len(), 2);
    assert_eq!(fleet.machines[0].id, "a");
    assert_eq!(fleet.machines[0].system, 1);
    assert_eq!(fleet.machines[1].id, "c");
    assert!(!fleet.machines[1].online);
    assert_eq!(fleet.machines[1].origin.label(), "AGENT // hub:2");
    assert_eq!(convert_fleet::<u32>(Vec::new(), "hub").machines.len(), 0);
}

fn machine(id: &str, online: bool) -> FleetMachine<u32> {
    FleetMachine {
        id: id.into(),
        name: format!("{id}-name"),
        role: "workstation".into(),
        online,
        origin: MachineOrigin::Local,
        agent_version: None,
        system: 0,
        cpu_packages: Vec::new(),
    }
}

#[test]
fn fleet_lookup_and_selection() {
    let fleet = FleetState { machines: vec![machine("a", false), machine("b", true), machine("c", true), machine("b", false)] };
    assert_eq!(fleet.machine_index("b"), Some(1));
    assert_eq!(fleet.machine("c").unwrap().id, "c");
    assert!(fleet.machine("z").is_none());
    assert_eq!(fleet.first_online_index(), Some(1));
    assert_eq!(fleet.first_online().unwrap().id, "b");
    assert_eq!(fleet.selected_machine_name("c"), "c-name");
    assert_eq!(fleet.selected_machine_name("z"), "unknown");
    assert_eq!(snapshot_source(&fleet, "c"), SnapshotSource::Selected(2));
    assert_eq!(snapshot_source(&fleet, "a"), SnapshotSource::FirstOnline(1));
    assert_eq!(snapshot_source(&fleet, "z"), SnapshotSource::FirstOnline(1));
    let offline = FleetState { machines: vec![machine("a", false)] };
    assert_eq!(snapshot_source(&offline, "a"), SnapshotSource::Local);
    let empty: FleetState<u32> = FleetState::empty();
    assert_eq!(snapshot_source(&empty, ""), SnapshotSource::Local);
    assert!(empty.first_online().is_none());
}

// ----- configuration -----

fn config(hub: &str, local_enabled: bool, local: &str) -> ObservatoryConfig {
    ObservatoryConfig {
        environment: default_environment(),
        hub: HubConfig { endpoint: hub.into() },
        local: LocalTelemetryConfig { enabled: local_enabled, endpoint: local.into() },
    }
}

#[test]
fn configuration_defaults() {
    assert_eq!(default_environment(), "development");
    assert_eq!(default_local_endpoint(), "127.0.0.1:4767");
    let local = LocalTelemetryConfig::default();
    assert!(!local.enabled);
    assert_eq!(local.endpoint, "127.0.0.1:4767");
    assert_eq!(default_config_file(), "wyncommand-observatory.toml");
}

#[test]
fn configuration_validation() {
    assert!(require_value("f", " x ").is_ok());
    assert_eq!(require_value("f", " \t\n"), Err(EmptyField { field: "f".into() }));
    assert!(config("10.0.0.1:4800", false, "").validate().is_ok());
    assert!(config("10.0.0.1:4800", true, "127.0.0.1:1").validate().is_ok());
    let e = config("  ", true, "").validate().unwrap_err();
    assert_eq!(e.field, "hub.endpoint");
    assert_eq!(e.message(), "Observatory config field `hub.endpoint` cannot be empty");
    let e = config("h", true, " ").validate().unwrap_err();
    assert_eq!(e.message(), "Observatory config field `local.endpoint` cannot be empty");
}

#[test]
fn configuration_file_choice() {
    assert_eq!(config_path_from_args(&args(&["--config", "a.toml"]), true), ConfigPath::Argument(1));
    assert_eq!(config_path_from_args(&args(&["x", "--config", "a.toml", "--config", "b"]), false), ConfigPath::Argument(2));
    assert_eq!(config_path_from_args(&args(&["--config", "--config", "b"]), false), ConfigPath::Argument(1));
    assert_eq!(config_path_from_args(&args(&["--config"]), true), ConfigPath::Environment);
    assert_eq!(config_path_from_args(&args(&["--config"]), false), ConfigPath::DefaultFile);
    assert_eq!(config_path_from_args(&args(&[]), false), ConfigPath::DefaultFile);
    assert_eq!(config_path_from_args(&args(&["--other", "x"]), true), ConfigPath::Environment);
}

// ----- small texts -----

#[test]
fn familiar_keys_and_optional_values() {
    assert_eq!(FamiliarKind::Cat.key(), "cat");
    assert_eq!(FamiliarKind::Bat.key(), "bat");
    assert_eq!(FamiliarKind::Bunny.key(), "bunny");
    assert_eq!(FamiliarKind::Puppy.key(), "puppy");
    assert_eq!(optional_u32(Some(1200), "MHz"), "1200 MHz");
    assert_eq!(optional_u32(Some(0), "W"), "0 W");
    assert_eq!(optional_u32(None, "MHz"), "N/A");
}
