//! The Observatory's side of the Fleet Hub connection: request numbering,
//! request messages, and the table of answers awaiting pickup.
use vstd::prelude::*;
use std::collections::HashMap;

use crate::protocol::{ObservatoryRequest, ObservatoryRequestKind, ObservatoryResponseKind, PROTOCOL_VERSION};
use crate::text::copy_str;

verus! {

broadcast use vstd::std_specs::hash::group_hash_axioms;

/// The id after `id`: the next integer, wrapping past the largest to 1, so
/// that 0 is never used.
pub open spec fn spec_next_request_id(id: u64) -> u64 {
    if id == u64::MAX {
        1
    } else {
        (id + 1) as u64
    }
}

/// `id.wrapping_add(1).max(1)`.
pub fn next_request_id(id: u64) -> (r: u64)
    ensures
        r == spec_next_request_id(id),
        r != 0,
{
    let n = id.wrapping_add(1);
    if n < 1 {
        1
    } else {
        n
    }
}

/// Hands out request ids, starting at 1.
#[derive(Debug)]
pub struct RequestIds {
    next: u64,
}

impl View for RequestIds {
    type V = u64;

    closed spec fn view(&self) -> u64 {
        self.next
    }
}

impl RequestIds {
    #[verifier::type_invariant]
    spec fn never_zero(self) -> bool {
        self.next != 0
    }

    pub fn new() -> (r: RequestIds)
        ensures
            r@ == 1,
    {
        RequestIds { next: 1 }
    }

    /// The id for the next request; never 0.
    pub fn issue(&mut self) -> (r: u64)
        ensures
            r == old(self)@,
            r != 0,
            final(self)@ == spec_next_request_id(r),
    {
        proof {
            use_type_invariant(&*self);
        }
        let id = self.next;
        self.next = next_request_id(id);
        id
    }
}

/// `r` is the request numbered `id` for the memory map of process `pid` of
/// a machine, in this protocol version.
pub open spec fn is_map_request(
    r: ObservatoryRequest,
    id: u64,
    machine_id: Seq<char>,
    pid: u32,
    started: Option<u64>,
) -> bool {
    &&& r.protocol_version == PROTOCOL_VERSION
    &&& r.request_id == id
    &&& r.request matches ObservatoryRequestKind::ProcessMemoryMap {
        machine_id: m,
        pid: p,
        expected_started_at_unix_ms: s,
    }
    &&& m@ == machine_id
    &&& p == pid
    &&& s == started
}

/// `r` is the request numbered `id` for instruction samples of process
/// `pid` of a machine, in this protocol version.
pub open spec fn is_vein_request(
    r: ObservatoryRequest,
    id: u64,
    machine_id: Seq<char>,
    pid: u32,
    started: Option<u64>,
) -> bool {
    &&& r.protocol_version == PROTOCOL_VERSION
    &&& r.request_id == id
    &&& r.request matches ObservatoryRequestKind::InstructionVeinSample {
        machine_id: m,
        pid: p,
        expected_started_at_unix_ms: s,
    }
    &&& m@ == machine_id
    &&& p == pid
    &&& s == started
}

/// A request for a process's memory map.
pub fn process_memory_map_request(
    request_id: u64,
    machine_id: &str,
    pid: u32,
    expected_started_at_unix_ms: Option<u64>,
) -> (r: ObservatoryRequest)
    ensures
        is_map_request(r, request_id, machine_id@, pid, expected_started_at_unix_ms),
{
    ObservatoryRequest {
        protocol_version: PROTOCOL_VERSION,
        request_id,
        request: ObservatoryRequestKind::ProcessMemoryMap {
            machine_id: copy_str(machine_id),
            pid,
            expected_started_at_unix_ms,
        },
    }
}

/// A request for a batch of instruction samples of a process.
pub fn instruction_vein_request(
    request_id: u64,
    machine_id: &str,
    pid: u32,
    expected_started_at_unix_ms: Option<u64>,
) -> (r: ObservatoryRequest)
    ensures
        is_vein_request(r, request_id, machine_id@, pid, expected_started_at_unix_ms),
{
    ObservatoryRequest {
        protocol_version: PROTOCOL_VERSION,
        request_id,
        request: ObservatoryRequestKind::InstructionVeinSample {
            machine_id: copy_str(machine_id),
            pid,
            expected_started_at_unix_ms,
        },
    }
}

/// Whether a Hub packet speaks this protocol version; others are ignored.
pub fn supported_protocol(protocol_version: u16) -> (r: bool)
    ensures
        r == (protocol_version == PROTOCOL_VERSION),
{
    protocol_version == PROTOCOL_VERSION
}

/// The table after storing an answer.
pub open spec fn spec_store(
    m: Map<u64, ObservatoryResponseKind>,
    id: u64,
    response: ObservatoryResponseKind,
) -> Map<u64, ObservatoryResponseKind> {
    m.insert(id, response)
}

/// What taking an answer gives back.
pub open spec fn spec_taken(m: Map<u64, ObservatoryResponseKind>, id: u64) -> Option<
    ObservatoryResponseKind,
> {
    if m.contains_key(id) {
        Some(m[id])
    } else {
        None
    }
}

/// Answers of the Hub, by request id, until the Observatory picks them up.
#[derive(Debug)]
pub struct ResponseTable {
    responses: HashMap<u64, ObservatoryResponseKind>,
}

impl View for ResponseTable {
    type V = Map<u64, ObservatoryResponseKind>;

    closed spec fn view(&self) -> Map<u64, ObservatoryResponseKind> {
        self.responses@
    }
}

impl ResponseTable {
    pub fn new() -> (r: ResponseTable)
        ensures
            r@ == Map::<u64, ObservatoryResponseKind>::empty(),
    {
        ResponseTable { responses: HashMap::new() }
    }

    /// Keeps an answer; a later answer to the same id replaces it.
    pub fn store(&mut self, request_id: u64, response: ObservatoryResponseKind)
        ensures
            final(self)@ == spec_store(old(self)@, request_id, response),
    {
        self.responses.insert(request_id, response);
    }

    /// Hands out and forgets the answer to a request, if it has come.
    pub fn take(&mut self, request_id: u64) -> (r: Option<ObservatoryResponseKind>)
        ensures
            r == spec_taken(old(self)@, request_id),
            final(self)@ == old(self)@.remove(request_id),
    {
        self.responses.remove(&request_id)
    }

    /// Keeps a Hub answer if it speaks this protocol version; tells whether
    /// it did.
    pub fn receive(&mut self, protocol_version: u16, request_id: u64, response: ObservatoryResponseKind) -> (r: bool)
        ensures
            r == (protocol_version == PROTOCOL_VERSION),
            r ==> final(self)@ == spec_store(old(self)@, request_id, response),
            !r ==> final(self)@ == old(self)@,
    {
        if !supported_protocol(protocol_version) {
            return false;
        }
        self.store(request_id, response);
        true
    }
}

/// Taking an answer gives back what was last stored for its id, and a
/// second take gives nothing.
pub proof fn law_take_after_store(
    m: Map<u64, ObservatoryResponseKind>,
    id: u64,
    response: ObservatoryResponseKind,
)
    ensures
        spec_taken(spec_store(m, id, response), id) == Some(response),
        spec_taken(spec_store(m, id, response).remove(id), id) is None,
{
}

/// Storing or taking the answer to one request leaves the answers to other
/// requests as they were.
pub proof fn law_answers_independent(
    m: Map<u64, ObservatoryResponseKind>,
    id: u64,
    other: u64,
    response: ObservatoryResponseKind,
)
    requires
        id != other,
    ensures
        spec_taken(spec_store(m, id, response), other) == spec_taken(m, other),
        spec_taken(m.remove(id), other) == spec_taken(m, other),
{
}

/// Request ids are never 0, and consecutive ids differ.
pub proof fn law_request_ids(id: u64)
    ensures
        spec_next_request_id(id) != 0,
        spec_next_request_id(id) != id,
{
}

} // verus!
