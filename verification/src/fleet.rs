//! The machines of the fleet, as the Observatory knows them.
use vstd::prelude::*;

use crate::protocol::{MachineIdentity, MachineStatus};
use crate::text::{copy_str, push_str, str_eq};

verus! {

/// Where a machine's telemetry comes from.
#[derive(Debug, Clone, PartialEq, Eq)]
pub enum MachineOrigin {
    Local,
    Agent { endpoint: String },
}

impl MachineOrigin {
    pub open spec fn spec_label(self) -> Seq<char> {
        match self {
            MachineOrigin::Local => "LOCAL"@,
            MachineOrigin::Agent { endpoint } => "AGENT // "@ + endpoint@,
        }
    }

    /// `LOCAL`, or `AGENT // <endpoint>`.
    pub fn label(&self) -> (r: String)
        ensures
            r@ == self.spec_label(),
    {
        match self {
            MachineOrigin::Local => copy_str("LOCAL"),
            MachineOrigin::Agent { endpoint } => {
                let mut r = copy_str("AGENT // ");
                push_str(&mut r, endpoint.as_str());
                r
            },
        }
    }
}

/// One CPU package of a machine and the logical CPUs it holds.
#[derive(Debug, Clone)]
pub struct CpuPackageTopology {
    pub package_id: usize,
    pub model: String,
    pub physical_cores: usize,
    pub logical_cpu_ids: Vec<usize>,
}

/// A machine of the fleet with its latest system snapshot `S`.
#[derive(Debug, Clone)]
pub struct FleetMachine<S> {
    pub id: String,
    pub name: String,
    pub role: String,
    pub online: bool,
    pub origin: MachineOrigin,
    pub agent_version: Option<String>,
    pub system: S,
    pub cpu_packages: Vec<CpuPackageTopology>,
}

/// The machines that the Hub last reported.
#[derive(Debug, Clone)]
pub struct FleetState<S> {
    pub machines: Vec<FleetMachine<S>>,
}

/// The first position whose machine has the id.
pub open spec fn first_with_id<S>(ms: Seq<FleetMachine<S>>, id: Seq<char>) -> Option<int>
    decreases ms.len(),
{
    if ms.len() == 0 {
        None
    } else {
        match first_with_id(ms.drop_last(), id) {
            Some(i) => Some(i),
            None => if ms.last().id@ == id {
                Some(ms.len() - 1)
            } else {
                None
            },
        }
    }
}

/// The first position whose machine is online.
pub open spec fn first_online_at<S>(ms: Seq<FleetMachine<S>>) -> Option<int>
    decreases ms.len(),
{
    if ms.len() == 0 {
        None
    } else {
        match first_online_at(ms.drop_last()) {
            Some(i) => Some(i),
            None => if ms.last().online {
                Some(ms.len() - 1)
            } else {
                None
            },
        }
    }
}

pub proof fn lemma_first_with_id<S>(ms: Seq<FleetMachine<S>>, id: Seq<char>)
    ensures
        match first_with_id(ms, id) {
            Some(i) => 0 <= i < ms.len() && ms[i].id@ == id && forall|j: int|
                0 <= j < i ==> ms[j].id@ != id,
            None => forall|j: int| 0 <= j < ms.len() ==> ms[j].id@ != id,
        },
    decreases ms.len(),
{
    if ms.len() > 0 {
        lemma_first_with_id(ms.drop_last(), id);
        assert forall|j: int| 0 <= j < ms.len() - 1 implies ms[j] == ms.drop_last()[j] by {}
    }
}

pub proof fn lemma_first_online_at<S>(ms: Seq<FleetMachine<S>>)
    ensures
        match first_online_at(ms) {
            Some(i) => 0 <= i < ms.len() && ms[i].online && forall|j: int|
                0 <= j < i ==> !ms[j].online,
            None => forall|j: int| 0 <= j < ms.len() ==> !ms[j].online,
        },
    decreases ms.len(),
{
    if ms.len() > 0 {
        lemma_first_online_at(ms.drop_last());
        assert forall|j: int| 0 <= j < ms.len() - 1 implies ms[j] == ms.drop_last()[j] by {}
    }
}

pub open spec fn opt_usize(o: Option<usize>) -> Option<int> {
    match o {
        Some(i) => Some(i as int),
        None => None,
    }
}

impl<S> FleetState<S> {
    /// An empty fleet.
    pub fn empty() -> (r: FleetState<S>)
        ensures
            r.machines@.len() == 0,
    {
        FleetState { machines: Vec::new() }
    }

    /// Position of the first machine with the id.
    pub fn machine_index(&self, id: &str) -> (r: Option<usize>)
        ensures
            opt_usize(r) == first_with_id(self.machines@, id@),
            r matches Some(i) ==> i < self.machines.len(),
    {
        let mut i: usize = 0;
        while i < self.machines.len()
            invariant
                i <= self.machines.len(),
                forall|j: int| 0 <= j < i ==> self.machines@[j].id@ != id@,
            decreases self.machines.len() - i,
        {
            proof {
                lemma_first_with_id(self.machines@, id@);
            }
            if str_eq(self.machines[i].id.as_str(), id) {
                return Some(i);
            }
            i += 1;
        }
        proof {
            lemma_first_with_id(self.machines@, id@);
        }
        None
    }

    /// The first machine with the id.
    pub fn machine(&self, id: &str) -> (r: Option<&FleetMachine<S>>)
        ensures
            match first_with_id(self.machines@, id@) {
                Some(i) => r == Some(&self.machines@[i]),
                None => r is None,
            },
    {
        match self.machine_index(id) {
            Some(i) => Some(&self.machines[i]),
            None => None,
        }
    }

    /// The name of the machine with the id, or `unknown`.
    pub fn selected_machine_name(&self, id: &str) -> (r: &str)
        ensures
            match first_with_id(self.machines@, id@) {
                Some(i) => r@ == self.machines@[i].name@,
                None => r@ == "unknown"@,
            },
    {
        match self.machine(id) {
            Some(m) => m.name.as_str(),
            None => "unknown",
        }
    }

    /// Position of the first online machine.
    pub fn first_online_index(&self) -> (r: Option<usize>)
        ensures
            opt_usize(r) == first_online_at(self.machines@),
            r matches Some(i) ==> i < self.machines.len(),
    {
        let mut i: usize = 0;
        while i < self.machines.len()
            invariant
                i <= self.machines.len(),
                forall|j: int| 0 <= j < i ==> !self.machines@[j].online,
            decreases self.machines.len() - i,
        {
            proof {
                lemma_first_online_at(self.machines@);
            }
            if self.machines[i].online {
                return Some(i);
            }
            i += 1;
        }
        proof {
            lemma_first_online_at(self.machines@);
        }
        None
    }

    /// The first online machine.
    pub fn first_online(&self) -> (r: Option<&FleetMachine<S>>)
        ensures
            match first_online_at(self.machines@) {
                Some(i) => r == Some(&self.machines@[i]),
                None => r is None,
            },
    {
        match self.first_online_index() {
            Some(i) => Some(&self.machines[i]),
            None => None,
        }
    }
}

/// Which snapshot the Observatory shows.
#[derive(Debug, Clone, Copy, PartialEq, Eq, Structural)]
pub enum SnapshotSource {
    /// The selected machine, which is online.
    Selected(usize),
    /// The first online machine, which becomes the selection.
    FirstOnline(usize),
    /// No machine is online: the local collector's snapshot.
    Local,
}

/// The selected machine while it is online, else the first online machine,
/// else the local snapshot.
pub fn snapshot_source<S>(fleet: &FleetState<S>, selected_id: &str) -> (r: SnapshotSource)
    ensures
        match first_with_id(fleet.machines@, selected_id@) {
            Some(i) if fleet.machines@[i].online => r == SnapshotSource::Selected(i as usize),
            _ => match first_online_at(fleet.machines@) {
                Some(j) => r == SnapshotSource::FirstOnline(j as usize),
                None => r == SnapshotSource::Local,
            },
        },
{
    proof {
        lemma_first_with_id(fleet.machines@, selected_id@);
    }
    if let Some(i) = fleet.machine_index(selected_id) {
        if fleet.machines[i].online {
            return SnapshotSource::Selected(i);
        }
    }
    match fleet.first_online_index() {
        Some(j) => SnapshotSource::FirstOnline(j),
        None => SnapshotSource::Local,
    }
}

/// The CPU facts of a telemetry snapshot that the fleet view uses.
#[derive(Debug, Clone)]
pub struct CpuFacts {
    pub brand: String,
    pub physical_core_count: Option<usize>,
    pub logical_cpu_count: usize,
    pub logical_ids: Vec<usize>,
}

/// `m` is the fleet machine made of an Agent-reported machine with a
/// snapshot: online exactly when the Hub says so, reached through the Hub's
/// endpoint, with one CPU package whose core count falls back to the logical
/// CPU count.
pub open spec fn made_from<S>(
    m: FleetMachine<S>,
    identity: MachineIdentity,
    status: MachineStatus,
    cpu: CpuFacts,
    system: S,
    endpoint: Seq<char>,
) -> bool {
    &&& m.id == identity.machine_id
    &&& m.name == identity.machine_name
    &&& m.role == identity.role
    &&& m.online == (status == MachineStatus::Online)
    &&& m.origin matches MachineOrigin::Agent { endpoint: e }
    &&& e@ == endpoint
    &&& m.agent_version == Some(identity.agent_version)
    &&& m.system == system
    &&& m.cpu_packages@.len() == 1
    &&& m.cpu_packages@[0].package_id == 0
    &&& m.cpu_packages@[0].model == cpu.brand
    &&& m.cpu_packages@[0].physical_cores == match cpu.physical_core_count {
        Some(n) => n,
        None => cpu.logical_cpu_count,
    }
    &&& m.cpu_packages@[0].logical_cpu_ids == cpu.logical_ids
}

/// The fleet machine for an Agent-reported machine with a snapshot.
pub fn convert_machine<S>(
    identity: MachineIdentity,
    status: MachineStatus,
    cpu: CpuFacts,
    system: S,
    endpoint: &str,
) -> (r: FleetMachine<S>)
    ensures
        made_from(r, identity, status, cpu, system, endpoint@),
{
    let physical_cores = match cpu.physical_core_count {
        Some(n) => n,
        None => cpu.logical_cpu_count,
    };
    let mut packages: Vec<CpuPackageTopology> = Vec::new();
    packages.push(
        CpuPackageTopology {
            package_id: 0,
            model: cpu.brand,
            physical_cores,
            logical_cpu_ids: cpu.logical_ids,
        },
    );
    FleetMachine {
        id: identity.machine_id,
        name: identity.machine_name,
        role: identity.role,
        online: status == MachineStatus::Online,
        origin: MachineOrigin::Agent { endpoint: copy_str(endpoint) },
        agent_version: Some(identity.agent_version),
        system,
        cpu_packages: packages,
    }
}

/// One machine of a Hub fleet report: who it is, how recently the Hub heard
/// from it, and, where it has sent one, the parts of its latest snapshot
/// that the fleet view uses.
#[derive(Debug, Clone)]
pub struct ReportedMachine<S> {
    pub identity: MachineIdentity,
    pub status: MachineStatus,
    pub snapshot: Option<(CpuFacts, S)>,
}

/// `out` lists, in report order, the fleet machines made of the reported
/// machines that have a snapshot; the others are left out.
pub open spec fn fleet_made_from<S>(
    out: Seq<FleetMachine<S>>,
    reports: Seq<ReportedMachine<S>>,
    endpoint: Seq<char>,
) -> bool
    decreases reports.len(),
{
    if reports.len() == 0 {
        out.len() == 0
    } else {
        let last = reports.last();
        match last.snapshot {
            Some((cpu, system)) => {
                &&& out.len() > 0
                &&& made_from(out.last(), last.identity, last.status, cpu, system, endpoint)
                &&& fleet_made_from(out.drop_last(), reports.drop_last(), endpoint)
            },
            None => fleet_made_from(out, reports.drop_last(), endpoint),
        }
    }
}

/// The fleet of a Hub report: its machines that have a snapshot, in order.
pub fn convert_fleet<S>(reports: Vec<ReportedMachine<S>>, endpoint: &str) -> (r: FleetState<S>)
    ensures
        fleet_made_from(r.machines@, reports@, endpoint@),
{
    let ghost all = reports@;
    let mut rest = reports;
    let mut backwards: Vec<ReportedMachine<S>> = Vec::new();
    while rest.len() > 0
        invariant
            rest.len() + backwards.len() == all.len(),
            rest@ == all.take(rest.len() as int),
            forall|k: int| 0 <= k < backwards.len() ==> #[trigger] backwards@[k] == all[all.len() - 1 - k],
        decreases rest.len(),
    {
        let last = rest.pop();
        if let Some(report) = last {
            backwards.push(report);
        }
    }
    let mut machines: Vec<FleetMachine<S>> = Vec::new();
    let ghost mut done: int = 0;
    assert(all.take(0) =~= Seq::<ReportedMachine<S>>::empty());
    while backwards.len() > 0
        invariant
            0 <= done,
            backwards.len() + done == all.len(),
            forall|k: int| 0 <= k < backwards.len() ==> #[trigger] backwards@[k] == all[all.len() - 1 - k],
            fleet_made_from(machines@, all.take(done), endpoint@),
        decreases backwards.len(),
    {
        let next = backwards.pop();
        if let Some(report) = next {
            proof {
                assert(report == all[done]);
                assert(all.take(done + 1).drop_last() =~= all.take(done));
                assert(all.take(done + 1).last() == all[done]);
            }
            let ReportedMachine { identity, status, snapshot } = report;
            match snapshot {
                Some((cpu, system)) => {
                    let m = convert_machine(identity, status, cpu, system, endpoint);
                    let ghost before = machines@;
                    machines.push(m);
                    proof {
                        assert(machines@.drop_last() =~= before);
                    }
                },
                None => {},
            }
            proof {
                done = done + 1;
            }
        }
    }
    assert(all.take(all.len() as int) =~= all);
    FleetState { machines }
}

} // verus!
