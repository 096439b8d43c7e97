//! Exploring a process memory map: region kinds, permissions, filters,
//! search and pages of the region table.
use vstd::prelude::*;

use crate::protocol::{ProcessMemoryMap, ProcessMemoryPermissions, ProcessMemoryRegion, ProcessMemoryRegionKind};
use crate::text::{
    ascii_lower, chars_of, contains, contains_exec, decimal, decimal_string, hex_lower, hex_string,
    lowercase_vec, push_char, trim, trim_bounds,
};

verus! {

/// Regions shown per page of the region table.
pub const REGIONS_PER_PAGE: usize = 100;

pub open spec fn spec_kind_label(kind: ProcessMemoryRegionKind) -> Seq<char> {
    match kind {
        ProcessMemoryRegionKind::Heap => "HEAP"@,
        ProcessMemoryRegionKind::Anonymous => "ANONYMOUS"@,
        ProcessMemoryRegionKind::SharedLibrary => "SHARED LIB"@,
        ProcessMemoryRegionKind::MappedFile => "MAPPED FILE"@,
        ProcessMemoryRegionKind::Stack => "STACK"@,
        ProcessMemoryRegionKind::ExecutableImage => "EXECUTABLE"@,
        ProcessMemoryRegionKind::Special => "SPECIAL"@,
        ProcessMemoryRegionKind::Other => "OTHER"@,
    }
}

/// The table label of a region kind.
pub fn memory_kind_label(kind: ProcessMemoryRegionKind) -> (r: &'static str)
    ensures
        r@ == spec_kind_label(kind),
{
    match kind {
        ProcessMemoryRegionKind::Heap => "HEAP",
        ProcessMemoryRegionKind::Anonymous => "ANONYMOUS",
        ProcessMemoryRegionKind::SharedLibrary => "SHARED LIB",
        ProcessMemoryRegionKind::MappedFile => "MAPPED FILE",
        ProcessMemoryRegionKind::Stack => "STACK",
        ProcessMemoryRegionKind::ExecutableImage => "EXECUTABLE",
        ProcessMemoryRegionKind::Special => "SPECIAL",
        ProcessMemoryRegionKind::Other => "OTHER",
    }
}

/// Permissions in the `/proc/<pid>/maps` style: `rwxp`, with `-` for what is
/// absent and `s` for a shared mapping that is not private.
pub open spec fn spec_permissions(p: ProcessMemoryPermissions) -> Seq<char> {
    seq![
        if p.readable { 'r' } else { '-' },
        if p.writable { 'w' } else { '-' },
        if p.executable { 'x' } else { '-' },
        if p.private { 'p' } else if p.shared { 's' } else { '-' },
    ]
}

pub fn memory_permissions(permissions: &ProcessMemoryPermissions) -> (r: String)
    ensures
        r@ == spec_permissions(*permissions),
{
    let mut r = String::new();
    push_char(&mut r, if permissions.readable { 'r' } else { '-' });
    push_char(&mut r, if permissions.writable { 'w' } else { '-' });
    push_char(&mut r, if permissions.executable { 'x' } else { '-' });
    push_char(
        &mut r,
        if permissions.private {
            'p'
        } else if permissions.shared {
            's'
        } else {
            '-'
        },
    );
    assert(r@ =~= spec_permissions(*permissions));
    r
}

/// Which regions the region table shows.
#[derive(Debug, Clone, Copy, PartialEq, Eq, Default, Structural)]
pub enum MemoryRegionFilter {
    #[default]
    All,
    Heap,
    Anonymous,
    SharedLibrary,
    MappedFile,
    Stack,
    Executable,
    Special,
    Other,
    WritableExecutable,
}

/// Whether a filter lets a region through.
pub open spec fn spec_matches(filter: MemoryRegionFilter, region: ProcessMemoryRegion) -> bool {
    match filter {
        MemoryRegionFilter::All => true,
        MemoryRegionFilter::Heap => region.kind == ProcessMemoryRegionKind::Heap,
        MemoryRegionFilter::Anonymous => region.kind == ProcessMemoryRegionKind::Anonymous,
        MemoryRegionFilter::SharedLibrary => region.kind == ProcessMemoryRegionKind::SharedLibrary,
        MemoryRegionFilter::MappedFile => region.kind == ProcessMemoryRegionKind::MappedFile,
        MemoryRegionFilter::Stack => region.kind == ProcessMemoryRegionKind::Stack,
        MemoryRegionFilter::Executable => region.kind == ProcessMemoryRegionKind::ExecutableImage,
        MemoryRegionFilter::Special => region.kind == ProcessMemoryRegionKind::Special,
        MemoryRegionFilter::Other => region.kind == ProcessMemoryRegionKind::Other,
        MemoryRegionFilter::WritableExecutable => region.permissions.writable
            && region.permissions.executable,
    }
}

impl MemoryRegionFilter {
    /// Every filter, in menu order.
    pub const ALL: [MemoryRegionFilter; 10] = [
        MemoryRegionFilter::All,
        MemoryRegionFilter::Heap,
        MemoryRegionFilter::Anonymous,
        MemoryRegionFilter::SharedLibrary,
        MemoryRegionFilter::MappedFile,
        MemoryRegionFilter::Stack,
        MemoryRegionFilter::Executable,
        MemoryRegionFilter::Special,
        MemoryRegionFilter::Other,
        MemoryRegionFilter::WritableExecutable,
    ];

    pub open spec fn spec_label(self) -> Seq<char> {
        match self {
            MemoryRegionFilter::All => "ALL"@,
            MemoryRegionFilter::Heap => "HEAP"@,
            MemoryRegionFilter::Anonymous => "ANONYMOUS"@,
            MemoryRegionFilter::SharedLibrary => "SHARED LIB"@,
            MemoryRegionFilter::MappedFile => "MAPPED FILE"@,
            MemoryRegionFilter::Stack => "STACK"@,
            MemoryRegionFilter::Executable => "EXECUTABLE"@,
            MemoryRegionFilter::Special => "SPECIAL"@,
            MemoryRegionFilter::Other => "OTHER"@,
            MemoryRegionFilter::WritableExecutable => "W+X ONLY"@,
        }
    }

    pub fn label(self) -> (r: &'static str)
        ensures
            r@ == self.spec_label(),
    {
        match self {
            MemoryRegionFilter::All => "ALL",
            MemoryRegionFilter::Heap => "HEAP",
            MemoryRegionFilter::Anonymous => "ANONYMOUS",
            MemoryRegionFilter::SharedLibrary => "SHARED LIB",
            MemoryRegionFilter::MappedFile => "MAPPED FILE",
            MemoryRegionFilter::Stack => "STACK",
            MemoryRegionFilter::Executable => "EXECUTABLE",
            MemoryRegionFilter::Special => "SPECIAL",
            MemoryRegionFilter::Other => "OTHER",
            MemoryRegionFilter::WritableExecutable => "W+X ONLY",
        }
    }

    /// Whether the filter lets the region through.
    pub fn matches(self, region: &ProcessMemoryRegion) -> (r: bool)
        ensures
            r == spec_matches(self, *region),
    {
        match self {
            MemoryRegionFilter::All => true,
            MemoryRegionFilter::Heap => region.kind == ProcessMemoryRegionKind::Heap,
            MemoryRegionFilter::Anonymous => region.kind == ProcessMemoryRegionKind::Anonymous,
            MemoryRegionFilter::SharedLibrary => region.kind
                == ProcessMemoryRegionKind::SharedLibrary,
            MemoryRegionFilter::MappedFile => region.kind == ProcessMemoryRegionKind::MappedFile,
            MemoryRegionFilter::Stack => region.kind == ProcessMemoryRegionKind::Stack,
            MemoryRegionFilter::Executable => region.kind
                == ProcessMemoryRegionKind::ExecutableImage,
            MemoryRegionFilter::Special => region.kind == ProcessMemoryRegionKind::Special,
            MemoryRegionFilter::Other => region.kind == ProcessMemoryRegionKind::Other,
            MemoryRegionFilter::WritableExecutable => region.permissions.writable
                && region.permissions.executable,
        }
    }
}

/// The text that names a region's backing object.
pub open spec fn backing(region: ProcessMemoryRegion) -> Seq<char> {
    match region.pathname {
        Some(p) => p@,
        None => "(anonymous)"@,
    }
}

/// Whether a region answers a search: an empty (or blank) query matches
/// every region; otherwise the query, trimmed and lower-cased, must occur in
/// the lower-cased backing path, kind label or permissions, or in the start
/// address, end address (lower-case hex) or inode (decimal).
pub open spec fn spec_matches_search(region: ProcessMemoryRegion, query: Seq<char>) -> bool {
    let q = trim(query);
    if q.len() == 0 {
        true
    } else {
        let q = ascii_lower(q);
        ||| contains(ascii_lower(backing(region)), q)
        ||| contains(ascii_lower(spec_kind_label(region.kind)), q)
        ||| contains(ascii_lower(spec_permissions(region.permissions)), q)
        ||| contains(hex_lower(region.start_address as nat), q)
        ||| contains(hex_lower(region.end_address as nat), q)
        ||| contains(decimal(region.inode as nat), q)
    }
}

/// Whether the lower-cased text contains `q`.
fn lower_contains(text: &str, q: &Vec<char>) -> (r: bool)
    ensures
        r == contains(ascii_lower(text@), q@),
{
    let v = chars_of(text);
    let l = lowercase_vec(&v);
    contains_exec(&l, q)
}

/// Whether a region answers the search query.
pub fn region_matches_search(region: &ProcessMemoryRegion, query: &str) -> (r: bool)
    ensures
        r == spec_matches_search(*region, query@),
{
    let qv = chars_of(query);
    let (a, b) = trim_bounds(&qv);
    if a == b {
        return true;
    }
    let tv = crate::text::string_from(&qv, a, b);
    let tvc = chars_of(tv.as_str());
    let q = lowercase_vec(&tvc);
    let backing_hit = match &region.pathname {
        Some(p) => lower_contains(p.as_str(), &q),
        None => lower_contains("(anonymous)", &q),
    };
    if backing_hit {
        return true;
    }
    if lower_contains(memory_kind_label(region.kind), &q) {
        return true;
    }
    let perms = memory_permissions(&region.permissions);
    if lower_contains(perms.as_str(), &q) {
        return true;
    }
    let start_hex = hex_string(region.start_address);
    if contains_exec(&chars_of(start_hex.as_str()), &q) {
        return true;
    }
    let end_hex = hex_string(region.end_address);
    if contains_exec(&chars_of(end_hex.as_str()), &q) {
        return true;
    }
    let inode = decimal_string(region.inode);
    contains_exec(&chars_of(inode.as_str()), &q)
}

/// Positions of the regions that pass both the filter and the search.
pub open spec fn spec_filtered(
    regions: Seq<ProcessMemoryRegion>,
    filter: MemoryRegionFilter,
    query: Seq<char>,
) -> Seq<usize>
    decreases regions.len(),
{
    if regions.len() == 0 {
        Seq::empty()
    } else {
        let prev = spec_filtered(regions.drop_last(), filter, query);
        let last = regions.last();
        if spec_matches(filter, last) && spec_matches_search(last, query) {
            prev.push((regions.len() - 1) as usize)
        } else {
            prev
        }
    }
}

/// The positions, in order, of the regions that the table lists.
pub fn filtered_indices(
    regions: &Vec<ProcessMemoryRegion>,
    filter: MemoryRegionFilter,
    query: &str,
) -> (r: Vec<usize>)
    ensures
        r@ == spec_filtered(regions@, filter, query@),
{
    let mut r: Vec<usize> = Vec::new();
    let mut i: usize = 0;
    while i < regions.len()
        invariant
            i <= regions.len(),
            r@ == spec_filtered(regions@.take(i as int), filter, query@),
        decreases regions.len() - i,
    {
        assert(regions@.take(i + 1).drop_last() =~= regions@.take(i as int));
        if filter.matches(&regions[i]) && region_matches_search(&regions[i], query) {
            r.push(i);
        }
        i += 1;
    }
    assert(regions@.take(regions.len() as int) =~= regions@);
    r
}

/// Number of pages of the region table: at least one.
pub open spec fn spec_page_count(region_count: nat) -> nat {
    if region_count == 0 {
        1
    } else {
        ((region_count + 99) / 100) as nat
    }
}

pub fn page_count(region_count: usize) -> (r: usize)
    ensures
        r == spec_page_count(region_count as nat),
        r >= 1,
{
    if region_count == 0 {
        1
    } else {
        region_count / REGIONS_PER_PAGE + if region_count % REGIONS_PER_PAGE == 0 {
            0
        } else {
            1
        }
    }
}

/// The page to show: the requested one, or the last page where it lies
/// beyond.
pub fn clamp_page(page: usize, region_count: usize) -> (r: usize)
    ensures
        r == if page < spec_page_count(region_count as nat) {
            page as nat
        } else {
            (spec_page_count(region_count as nat) - 1) as nat
        },
        r < spec_page_count(region_count as nat),
{
    let count = page_count(region_count);
    if page < count {
        page
    } else {
        count - 1
    }
}

/// The slice `start..end` of the filtered list that a page shows.
pub fn page_bounds(page: usize, region_count: usize) -> (r: (usize, usize))
    requires
        page < spec_page_count(region_count as nat),
    ensures
        r.0 == page * 100,
        r.1 == if page * 100 + 100 < region_count {
            page * 100 + 100
        } else {
            region_count as int
        },
        r.0 <= r.1 || region_count == 0,
        r.1 <= region_count,
{
    proof {
        if region_count > 0 {
            let n = region_count as int;
            let c = (n + 99) / 100;
            assert(c * 100 <= n + 99) by (nonlinear_arith)
                requires
                    c == (n + 99) / 100,
                    n > 0,
            ;
            assert(page * 100 < n) by (nonlinear_arith)
                requires
                    page < c,
                    c * 100 <= n + 99,
            ;
        }
    }
    let start = page * REGIONS_PER_PAGE;
    let end = if region_count > start && region_count - start > REGIONS_PER_PAGE {
        start + REGIONS_PER_PAGE
    } else {
        region_count
    };
    (start, end)
}

/// Bytes of the address space that no overview category accounts for: the
/// total (at least 1) less the saturating sum of the categories.
pub fn other_bytes(map: &ProcessMemoryMap) -> (r: u64)
    ensures
        ({
            let o = map.overview;
            let known = o.heap_bytes + o.anonymous_bytes + o.shared_library_bytes
                + o.mapped_file_bytes + o.stack_bytes + o.executable_image_bytes + o.special_bytes;
            let known = if known > u64::MAX { u64::MAX as int } else { known };
            let total = if map.total_virtual_bytes == 0 { 1int } else { map.total_virtual_bytes as int };
            r == if total > known { total - known } else { 0 }
        }),
{
    let o = map.overview;
    let known = o.heap_bytes.saturating_add(o.anonymous_bytes).saturating_add(
        o.shared_library_bytes,
    ).saturating_add(o.mapped_file_bytes).saturating_add(o.stack_bytes).saturating_add(
        o.executable_image_bytes,
    ).saturating_add(o.special_bytes);
    let total = if map.total_virtual_bytes == 0 {
        1
    } else {
        map.total_virtual_bytes
    };
    total.saturating_sub(known)
}

/// The region filters sort by kind alone: each kind filter admits exactly
/// the regions of its kind (the executable filter those that are the
/// process's own image, not every region with the execute permission),
/// `ALL` admits every region, and `W+X ONLY` admits exactly the regions
/// that are both writable and executable, whatever their kind.
pub proof fn law_filters_admit(region: ProcessMemoryRegion)
    ensures
        spec_matches(MemoryRegionFilter::All, region),
        spec_matches(MemoryRegionFilter::Heap, region) == (region.kind
            == ProcessMemoryRegionKind::Heap),
        spec_matches(MemoryRegionFilter::Anonymous, region) == (region.kind
            == ProcessMemoryRegionKind::Anonymous),
        spec_matches(MemoryRegionFilter::SharedLibrary, region) == (region.kind
            == ProcessMemoryRegionKind::SharedLibrary),
        spec_matches(MemoryRegionFilter::MappedFile, region) == (region.kind
            == ProcessMemoryRegionKind::MappedFile),
        spec_matches(MemoryRegionFilter::Stack, region) == (region.kind
            == ProcessMemoryRegionKind::Stack),
        spec_matches(MemoryRegionFilter::Executable, region) == (region.kind
            == ProcessMemoryRegionKind::ExecutableImage),
        spec_matches(MemoryRegionFilter::Special, region) == (region.kind
            == ProcessMemoryRegionKind::Special),
        spec_matches(MemoryRegionFilter::Other, region) == (region.kind
            == ProcessMemoryRegionKind::Other),
        spec_matches(MemoryRegionFilter::WritableExecutable, region) == (region.permissions.writable
            && region.permissions.executable),
{
}

/// Apart from `W+X ONLY`, a filter looks at nothing but a region's kind:
/// two regions of one kind pass or fail it together, whatever their
/// permissions, addresses or paths.
pub proof fn law_filters_ignore_permissions(
    filter: MemoryRegionFilter,
    a: ProcessMemoryRegion,
    b: ProcessMemoryRegion,
)
    requires
        filter != MemoryRegionFilter::WritableExecutable,
        a.kind == b.kind,
    ensures
        spec_matches(filter, a) == spec_matches(filter, b),
{
}

/// What a search finds. A blank query finds every region. Otherwise the
/// query, trimmed and lower-cased, finds a region exactly when it occurs in
/// the region's path (`(anonymous)` where it has none) or kind label, both
/// lower-cased, in its permissions, in its start or end address written in
/// lower-case hex, or in its inode written in decimal; any one of these
/// suffices.
pub proof fn law_search_finds(region: ProcessMemoryRegion, query: Seq<char>)
    ensures
        trim(query).len() == 0 ==> spec_matches_search(region, query),
        trim(query).len() > 0 ==> {
            let q = ascii_lower(trim(query));
            let path = match region.pathname {
                Some(p) => p@,
                None => "(anonymous)"@,
            };
            &&& contains(ascii_lower(path), q) ==> spec_matches_search(region, query)
            &&& contains(ascii_lower(spec_kind_label(region.kind)), q) ==> spec_matches_search(
                region,
                query,
            )
            &&& contains(spec_permissions(region.permissions), q) ==> spec_matches_search(
                region,
                query,
            )
            &&& contains(hex_lower(region.start_address as nat), q) ==> spec_matches_search(
                region,
                query,
            )
            &&& contains(hex_lower(region.end_address as nat), q) ==> spec_matches_search(
                region,
                query,
            )
            &&& contains(decimal(region.inode as nat), q) ==> spec_matches_search(region, query)
            &&& spec_matches_search(region, query) ==> {
                ||| contains(ascii_lower(path), q)
                ||| contains(ascii_lower(spec_kind_label(region.kind)), q)
                ||| contains(ascii_lower(spec_permissions(region.permissions)), q)
                ||| contains(hex_lower(region.start_address as nat), q)
                ||| contains(hex_lower(region.end_address as nat), q)
                ||| contains(decimal(region.inode as nat), q)
            }
        },
{
    let q = ascii_lower(trim(query));
    let perms = spec_permissions(region.permissions);
    assert(ascii_lower(perms) =~= perms) by {
        assert forall|i: int| 0 <= i < perms.len() implies crate::text::lower_char(perms[i])
            == perms[i] by {
            assert(perms[i] == 'r' || perms[i] == 'w' || perms[i] == 'x' || perms[i] == 'p'
                || perms[i] == 's' || perms[i] == '-');
        }
    }
}

} // verus!
