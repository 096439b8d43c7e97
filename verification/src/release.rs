//! Choosing the release that the Updater offers for a component.
use vstd::prelude::*;

use crate::component::Component;
use crate::text::{chars_of, copy_str, push_str, starts_with, ends_with, starts_with_exec, ends_with_exec, str_eq, string_from};
use crate::version::{SemVer, is_parsed, ordered_around, semver_parse, semver_less};

verus! {

/// A file attached to a published release.
#[derive(Debug, Clone)]
pub struct GithubAsset {
    pub name: String,
    pub browser_download_url: String,
}

/// A release as the release listing describes it.
#[derive(Debug, Clone)]
pub struct GithubRelease {
    pub tag_name: String,
    pub draft: bool,
    pub prerelease: bool,
    pub assets: Vec<GithubAsset>,
}

/// The newest usable release of a component, with its package and checksums.
#[derive(Debug, Clone)]
pub struct LatestRelease {
    pub component: Component,
    pub tag: String,
    pub version: SemVer,
    pub deb_name: String,
    pub deb_url: String,
    pub checksum_url: String,
}

/// Why the newest release of a component cannot be used.
#[derive(Debug, Clone)]
pub enum ReleaseError {
    /// The release carries no Debian package of the component.
    MissingPackage { tag: String, component: Component },
    /// The release carries no `SHA256SUMS` file.
    MissingChecksums { tag: String },
}

pub open spec fn is_candidate(prefix: Seq<char>, r: GithubRelease) -> bool {
    !r.draft && !r.prerelease && starts_with(r.tag_name@, prefix)
}

/// The version that a release offers: the tag after the component's prefix,
/// for published, final releases of that component.
pub open spec fn candidate_version(prefix: Seq<char>, r: GithubRelease) -> Option<
    (u64, u64, u64, Seq<char>, Seq<char>),
> {
    if is_candidate(prefix, r) {
        semver_parse(r.tag_name@.skip(prefix.len() as int))
    } else {
        None
    }
}

pub open spec fn opt_parts(o: Option<SemVer>) -> Option<(u64, u64, u64, Seq<char>, Seq<char>)> {
    match o {
        Some(v) => Some(v@),
        None => None,
    }
}

pub open spec fn candidates(prefix: Seq<char>, rs: Seq<GithubRelease>) -> Seq<
    Option<(u64, u64, u64, Seq<char>, Seq<char>)>,
> {
    rs.map_values(|r: GithubRelease| candidate_version(prefix, r))
}

/// The position of the greatest version, the later one among equals: a
/// running maximum that keeps the current best only where the next
/// version sorts strictly before it (`Iterator::max_by`).
pub open spec fn latest_of(vs: Seq<Option<(u64, u64, u64, Seq<char>, Seq<char>)>>) -> Option<int>
    decreases vs.len(),
{
    if vs.len() == 0 {
        None
    } else {
        let prev = latest_of(vs.drop_last());
        let last = vs.len() - 1;
        match vs.last() {
            None => prev,
            Some(v) => match prev {
                None => Some(last),
                Some(p) => if semver_less(v, vs[p].unwrap()) {
                    Some(p)
                } else {
                    Some(last)
                },
            },
        }
    }
}

pub proof fn lemma_latest_of_bounds(vs: Seq<Option<(u64, u64, u64, Seq<char>, Seq<char>)>>)
    ensures
        latest_of(vs) matches Some(p) ==> 0 <= p < vs.len() && vs[p] is Some,
    decreases vs.len(),
{
    if vs.len() > 0 {
        lemma_latest_of_bounds(vs.drop_last());
    }
}

/// `semver_less` orders the versions present in `vs` strictly and totally.
pub open spec fn ordered_strictly(vs: Seq<Option<(u64, u64, u64, Seq<char>, Seq<char>)>>) -> bool {
    &&& forall|i: int|
        0 <= i < vs.len() && vs[i] is Some ==> !semver_less(#[trigger] vs[i].unwrap(), vs[i].unwrap())
    &&& forall|i: int, j: int, k: int|
        0 <= i < vs.len() && 0 <= j < vs.len() && 0 <= k < vs.len() && vs[i] is Some && vs[j] is Some
            && vs[k] is Some && semver_less(#[trigger] vs[i].unwrap(), #[trigger] vs[j].unwrap())
            && semver_less(vs[j].unwrap(), #[trigger] vs[k].unwrap()) ==> semver_less(
            vs[i].unwrap(),
            vs[k].unwrap(),
        )
    &&& forall|i: int, j: int|
        0 <= i < vs.len() && 0 <= j < vs.len() && vs[i] is Some && vs[j] is Some && vs[i] != vs[j]
            ==> semver_less(#[trigger] vs[i].unwrap(), #[trigger] vs[j].unwrap()) || semver_less(
            vs[j].unwrap(),
            vs[i].unwrap(),
        )
}

/// The versions that releases offer are ordered strictly and totally
/// wherever each is ordered around itself as `semver::Version::parse`
/// reports.
proof fn lemma_candidates_ordered(prefix: Seq<char>, rs: Seq<GithubRelease>)
    requires
        forall|k: int|
            0 <= k < rs.len() && candidates(prefix, rs)[k] is Some ==> ordered_around(
                #[trigger] candidates(prefix, rs)[k].unwrap(),
            ),
    ensures
        ordered_strictly(candidates(prefix, rs)),
{
    let vs = candidates(prefix, rs);
    assert forall|k: int| 0 <= k < vs.len() && vs[k] is Some implies #[trigger] is_parsed(
        vs[k].unwrap(),
    ) by {
        assert(vs[k] == candidate_version(prefix, rs[k]));
        assert(semver_parse(rs[k].tag_name@.skip(prefix.len() as int)) == Some(vs[k].unwrap()));
    }
    assert forall|i: int| 0 <= i < vs.len() && vs[i] is Some implies !semver_less(
        #[trigger] vs[i].unwrap(),
        vs[i].unwrap(),
    ) by {
        assert(ordered_around(vs[i].unwrap()));
    }
    assert forall|i: int, j: int, k: int|
        0 <= i < vs.len() && 0 <= j < vs.len() && 0 <= k < vs.len() && vs[i] is Some && vs[j] is Some
            && vs[k] is Some && semver_less(#[trigger] vs[i].unwrap(), #[trigger] vs[j].unwrap())
            && semver_less(vs[j].unwrap(), #[trigger] vs[k].unwrap()) implies semver_less(
        vs[i].unwrap(),
        vs[k].unwrap(),
    ) by {
        assert(ordered_around(vs[j].unwrap()));
        assert(is_parsed(vs[i].unwrap()));
        assert(is_parsed(vs[k].unwrap()));
    }
    assert forall|i: int, j: int|
        0 <= i < vs.len() && 0 <= j < vs.len() && vs[i] is Some && vs[j] is Some && vs[i] != vs[j]
            implies semver_less(#[trigger] vs[i].unwrap(), #[trigger] vs[j].unwrap()) || semver_less(
        vs[j].unwrap(),
        vs[i].unwrap(),
    ) by {
        assert(ordered_around(vs[i].unwrap()));
        assert(is_parsed(vs[j].unwrap()));
    }
}

proof fn lemma_latest_of_none(vs: Seq<Option<(u64, u64, u64, Seq<char>, Seq<char>)>>)
    ensures
        latest_of(vs) is None ==> forall|j: int| 0 <= j < vs.len() ==> vs[j] is None,
    decreases vs.len(),
{
    if vs.len() > 0 {
        lemma_latest_of_none(vs.drop_last());
        if latest_of(vs) is None {
            assert forall|j: int| 0 <= j < vs.len() implies vs[j] is None by {
                if j < vs.len() - 1 {
                    assert(vs[j] == vs.drop_last()[j]);
                }
            }
        }
    }
}

/// The release chosen is the newest: where `<` orders the offered versions
/// strictly and totally, no offered version is newer than the chosen one.
/// For the versions that the Updater reads from release tags the order is
/// such (`lemma_candidates_ordered`), so `select_latest_release` states it
/// outright.
pub proof fn law_latest_is_newest(vs: Seq<Option<(u64, u64, u64, Seq<char>, Seq<char>)>>)
    requires
        ordered_strictly(vs),
    ensures
        latest_of(vs) matches Some(p) ==> forall|j: int|
            0 <= j < vs.len() && vs[j] is Some ==> !semver_less(vs[p].unwrap(), #[trigger] vs[j].unwrap()),
    decreases vs.len(),
{
    if vs.len() > 0 {
        let rest = vs.drop_last();
        let last = vs.len() - 1;
        assert forall|i: int| 0 <= i < rest.len() implies #[trigger] rest[i] == vs[i] by {}
        assert(ordered_strictly(rest));
        law_latest_is_newest(rest);
        lemma_latest_of_bounds(rest);
        lemma_latest_of_none(rest);
        match vs.last() {
            None => {
                if let Some(p) = latest_of(rest) {
                    assert(vs[p] == rest[p]);
                    assert forall|j: int| 0 <= j < vs.len() && vs[j] is Some implies !semver_less(
                        vs[p].unwrap(),
                        #[trigger] vs[j].unwrap(),
                    ) by {
                        assert(j < last);
                        assert(rest[j] == vs[j]);
                    }
                }
            },
            Some(v) => match latest_of(rest) {
                None => {
                    assert forall|j: int| 0 <= j < vs.len() && vs[j] is Some implies !semver_less(
                        vs[last].unwrap(),
                        #[trigger] vs[j].unwrap(),
                    ) by {
                        if j < last {
                            assert(rest[j] is None);
                        }
                    }
                },
                Some(q) => {
                    assert(rest[q] == vs[q]);
                    if semver_less(v, vs[q].unwrap()) {
                        assert forall|j: int| 0 <= j < vs.len() && vs[j] is Some implies !semver_less(
                            vs[q].unwrap(),
                            #[trigger] vs[j].unwrap(),
                        ) by {
                            if j < last {
                                assert(rest[j] == vs[j]);
                            } else if semver_less(vs[q].unwrap(), vs[last].unwrap()) {
                                assert(semver_less(vs[last].unwrap(), vs[q].unwrap()));
                                assert(semver_less(vs[last].unwrap(), vs[last].unwrap()));
                            }
                        }
                    } else {
                        assert forall|j: int| 0 <= j < vs.len() && vs[j] is Some implies !semver_less(
                            vs[last].unwrap(),
                            #[trigger] vs[j].unwrap(),
                        ) by {
                            if j < last && semver_less(vs[last].unwrap(), vs[j].unwrap()) {
                                assert(rest[j] == vs[j]);
                                assert(!semver_less(vs[q].unwrap(), vs[j].unwrap()));
                                if vs[last] == vs[q] {
                                    assert(semver_less(vs[q].unwrap(), vs[j].unwrap()));
                                } else {
                                    assert(semver_less(vs[q].unwrap(), vs[last].unwrap()));
                                    assert(semver_less(vs[q].unwrap(), vs[j].unwrap()));
                                }
                            }
                        }
                    }
                },
            },
        }
    }
}

/// The first position whose asset satisfies `pred`.
pub open spec fn first_asset(assets: Seq<GithubAsset>, pred: spec_fn(GithubAsset) -> bool) -> Option<int>
    decreases assets.len(),
{
    if assets.len() == 0 {
        None
    } else {
        match first_asset(assets.drop_last(), pred) {
            Some(i) => Some(i),
            None => if pred(assets.last()) {
                Some(assets.len() - 1)
            } else {
                None
            },
        }
    }
}

pub proof fn lemma_first_asset_bounds(assets: Seq<GithubAsset>, pred: spec_fn(GithubAsset) -> bool)
    ensures
        first_asset(assets, pred) matches Some(i) ==> 0 <= i < assets.len() && pred(assets[i]),
    decreases assets.len(),
{
    if assets.len() > 0 {
        lemma_first_asset_bounds(assets.drop_last(), pred);
    }
}

pub open spec fn is_deb_of(package: Seq<char>) -> spec_fn(GithubAsset) -> bool {
    |a: GithubAsset| starts_with(a.name@, package) && ends_with(a.name@, ".deb"@)
}

pub open spec fn is_checksums() -> spec_fn(GithubAsset) -> bool {
    |a: GithubAsset| a.name@ == "SHA256SUMS"@
}

pub open spec fn lift(r: Result<LatestRelease, ReleaseError>) -> Result<Option<LatestRelease>, ReleaseError> {
    match r {
        Ok(lr) => Ok(Some(lr)),
        Err(e) => Err(e),
    }
}

/// What a release, chosen with the given version, yields.
pub open spec fn release_outcome(
    component: Component,
    release: GithubRelease,
    version: (u64, u64, u64, Seq<char>, Seq<char>),
    r: Result<Option<LatestRelease>, ReleaseError>,
) -> bool {
    let assets = release.assets@;
    match first_asset(assets, is_deb_of(component.spec_package_name())) {
        None => r matches Err(ReleaseError::MissingPackage { tag, component: c }) && tag@
            == release.tag_name@ && c == component,
        Some(d) => match first_asset(assets, is_checksums()) {
            None => r matches Err(ReleaseError::MissingChecksums { tag }) && tag@
                == release.tag_name@,
            Some(c) => r matches Ok(Some(lr)) && lr.component == component && lr.tag@
                == release.tag_name@ && lr.version@ == version && lr.deb_name@ == assets[d].name@
                && lr.deb_url@ == assets[d].browser_download_url@ && lr.checksum_url@
                == assets[c].browser_download_url@,
        },
    }
}

impl ReleaseError {
    /// The message that the Updater reports for this error.
    pub fn message(&self) -> (r: String)
        ensures
            match self {
                ReleaseError::MissingPackage { tag, component } => r@ == tag@
                    + " does not contain a Debian package for "@ + component.spec_display_name(),
                ReleaseError::MissingChecksums { tag } => r@ == tag@
                    + " does not contain SHA256SUMS"@,
            },
    {
        match self {
            ReleaseError::MissingPackage { tag, component } => {
                let mut r = copy_str(tag.as_str());
                push_str(&mut r, " does not contain a Debian package for ");
                push_str(&mut r, component.display_name());
                r
            },
            ReleaseError::MissingChecksums { tag } => {
                let mut r = copy_str(tag.as_str());
                push_str(&mut r, " does not contain SHA256SUMS");
                r
            },
        }
    }
}

/// The version that one release offers for a component, if any.
pub fn candidate_of(prefix: &Vec<char>, release: &GithubRelease) -> (r: Option<SemVer>)
    ensures
        opt_parts(r) == candidate_version(prefix@, *release),
        r matches Some(v) ==> ordered_around(v@),
{
    if release.draft || release.prerelease {
        return None;
    }
    let tag = chars_of(release.tag_name.as_str());
    if !starts_with_exec(&tag, prefix) {
        return None;
    }
    let rest = string_from(&tag, prefix.len(), tag.len());
    assert(rest@ == release.tag_name@.skip(prefix@.len() as int));
    match SemVer::parse(rest.as_str()) {
        Ok(v) => Some(v),
        Err(_) => None,
    }
}

/// The version that each release offers for the component (`None` where a
/// release is a draft, a pre-release, another component's, or its tag does
/// not parse).
pub fn release_versions(component: Component, releases: &Vec<GithubRelease>) -> (r: Vec<
    Option<SemVer>,
>)
    ensures
        r@.map_values(|o: Option<SemVer>| opt_parts(o)) == candidates(
            component.spec_release_prefix(),
            releases@,
        ),
        forall|j: int| 0 <= j < r@.len() && r@[j] is Some ==> ordered_around((#[trigger] r@[j]).unwrap()@),
{
    let prefix = chars_of(component.release_prefix());
    let mut r: Vec<Option<SemVer>> = Vec::new();
    let mut i: usize = 0;
    while i < releases.len()
        invariant
            i <= releases.len(),
            prefix@ == component.spec_release_prefix(),
            r.len() == i,
            forall|j: int|
                0 <= j < i ==> opt_parts(#[trigger] r@[j]) == candidate_version(
                    prefix@,
                    releases@[j],
                ),
            forall|j: int| 0 <= j < i && r@[j] is Some ==> ordered_around((#[trigger] r@[j]).unwrap()@),
        decreases releases.len() - i,
    {
        let v = candidate_of(&prefix, &releases[i]);
        r.push(v);
        i += 1;
    }
    assert(r@.map_values(|o: Option<SemVer>| opt_parts(o)) =~= candidates(
        component.spec_release_prefix(),
        releases@,
    ));
    r
}

pub open spec fn opt_index(o: Option<usize>) -> Option<int> {
    match o {
        Some(i) => Some(i as int),
        None => None,
    }
}

/// The position of the newest version (the later one among equals), as
/// `Iterator::max_by` picks it.
pub fn pick_latest(versions: &Vec<Option<SemVer>>) -> (r: Option<usize>)
    ensures
        opt_index(r) == latest_of(versions@.map_values(|o: Option<SemVer>| opt_parts(o))),
        r matches Some(i) ==> i < versions.len() && versions@[i as int] is Some,
{
    let ghost views = versions@.map_values(|o: Option<SemVer>| opt_parts(o));
    let mut best: Option<usize> = None;
    let mut i: usize = 0;
    while i < versions.len()
        invariant
            i <= versions.len(),
            views == versions@.map_values(|o: Option<SemVer>| opt_parts(o)),
            opt_index(best) == latest_of(views.take(i as int)),
            best matches Some(p) ==> p < i && versions@[p as int] is Some,
        decreases versions.len() - i,
    {
        assert(views.take(i + 1).drop_last() =~= views.take(i as int));
        assert(views.take(i + 1).last() == views[i as int]);
        match &versions[i] {
            None => {},
            Some(v) => {
                match best {
                    None => {
                        best = Some(i);
                    },
                    Some(p) => {
                        assert(views.take(i + 1)[p as int] == views[p as int]);
                        if let Some(bv) = &versions[p] {
                            if !v.precedes(bv) {
                                best = Some(i);
                            }
                        }
                    },
                }
            },
        }
        i += 1;
    }
    assert(views.take(versions.len() as int) =~= views);
    best
}

/// The first asset that satisfies the asset rule given by `deb` (a Debian
/// package of `package`) or otherwise the `SHA256SUMS` file.
fn find_asset(assets: &Vec<GithubAsset>, deb: bool, package: &Vec<char>) -> (r: Option<usize>)
    ensures
        deb ==> opt_index(r) == first_asset(assets@, is_deb_of(package@)),
        !deb ==> opt_index(r) == first_asset(assets@, is_checksums()),
{
    let ghost pred = if deb {
        is_deb_of(package@)
    } else {
        is_checksums()
    };
    let suffix = chars_of(".deb");
    let mut i: usize = 0;
    while i < assets.len()
        invariant
            i <= assets.len(),
            suffix@ == ".deb"@,
            pred == (if deb {
                is_deb_of(package@)
            } else {
                is_checksums()
            }),
            first_asset(assets@.take(i as int), pred) is None,
        decreases assets.len() - i,
    {
        assert(assets@.take(i + 1).drop_last() =~= assets@.take(i as int));
        let hit = if deb {
            let name = chars_of(assets[i].name.as_str());
            starts_with_exec(&name, package) && ends_with_exec(&name, &suffix)
        } else {
            str_eq(assets[i].name.as_str(), "SHA256SUMS")
        };
        if hit {
            assert(first_asset(assets@.take(i + 1), pred) == Some(i as int));
            proof {
                lemma_first_asset_prefix(assets@, pred, i as int + 1);
            }
            return Some(i);
        }
        i += 1;
    }
    assert(assets@.take(assets.len() as int) =~= assets@);
    None
}

proof fn lemma_first_asset_prefix(assets: Seq<GithubAsset>, pred: spec_fn(GithubAsset) -> bool, n: int)
    requires
        0 <= n <= assets.len(),
        first_asset(assets.take(n), pred) is Some,
    ensures
        first_asset(assets, pred) == first_asset(assets.take(n), pred),
    decreases assets.len() - n,
{
    if n < assets.len() {
        assert(assets.take(n + 1).drop_last() =~= assets.take(n));
        lemma_first_asset_prefix(assets, pred, n + 1);
    } else {
        assert(assets.take(n) =~= assets);
    }
}

/// The release record for the chosen release and version, or the error
/// for the first asset it lacks.
pub fn release_from(component: Component, release: &GithubRelease, version: SemVer) -> (r: Result<
    LatestRelease,
    ReleaseError,
>)
    ensures
        release_outcome(component, *release, version@, lift(r)),
{
    let package = chars_of(component.package_name());
    let deb = find_asset(&release.assets, true, &package);
    let d = match deb {
        None => {
            return Err(
                ReleaseError::MissingPackage { tag: release.tag_name.clone(), component },
            );
        },
        Some(d) => d,
    };
    proof {
        lemma_first_asset_bounds(release.assets@, is_deb_of(package@));
    }
    let sums = find_asset(&release.assets, false, &package);
    let c = match sums {
        None => {
            return Err(ReleaseError::MissingChecksums { tag: release.tag_name.clone() });
        },
        Some(c) => c,
    };
    proof {
        lemma_first_asset_bounds(release.assets@, is_checksums());
    }
    Ok(
        LatestRelease {
            component,
            tag: release.tag_name.clone(),
            version,
            deb_name: release.assets[d].name.clone(),
            deb_url: release.assets[d].browser_download_url.clone(),
            checksum_url: release.assets[c].browser_download_url.clone(),
        },
    )
}

/// The newest published release of the component among `releases`: `None`
/// where no release offers a version of it, otherwise that release with its
/// Debian package and checksum file, or the error for the asset it lacks.
/// The newest release is chosen before its assets are looked at.
pub fn select_latest_release(component: Component, releases: &Vec<GithubRelease>) -> (r: Result<
    Option<LatestRelease>,
    ReleaseError,
>)
    ensures
        match latest_of(candidates(component.spec_release_prefix(), releases@)) {
            None => r matches Ok(None),
            Some(i) => {
                &&& 0 <= i < releases@.len()
                &&& candidates(component.spec_release_prefix(), releases@)[i] is Some
                &&& release_outcome(
                    component,
                    releases@[i],
                    candidates(component.spec_release_prefix(), releases@)[i].unwrap(),
                    r,
                )
            },
        },
        latest_of(candidates(component.spec_release_prefix(), releases@)) matches Some(i)
            ==> forall|j: int|
            0 <= j < releases@.len() && candidates(component.spec_release_prefix(), releases@)[j] is Some
                ==> !semver_less(
                candidates(component.spec_release_prefix(), releases@)[i].unwrap(),
                #[trigger] candidates(component.spec_release_prefix(), releases@)[j].unwrap(),
            ),
{
    let versions = release_versions(component, releases);
    let ghost cands = candidates(component.spec_release_prefix(), releases@);
    proof {
        lemma_latest_of_bounds(cands);
        assert forall|k: int| 0 <= k < cands.len() && cands[k] is Some implies ordered_around(
            #[trigger] cands[k].unwrap(),
        ) by {
            assert(versions@.map_values(|o: Option<SemVer>| opt_parts(o))[k] == opt_parts(versions@[k]));
        }
        lemma_candidates_ordered(component.spec_release_prefix(), releases@);
        law_latest_is_newest(cands);
    }
    match pick_latest(&versions) {
        None => Ok(None),
        Some(i) => {
            assert(versions@.map_values(|o: Option<SemVer>| opt_parts(o))[i as int] == opt_parts(
                versions@[i as int],
            ));
            let version = match &versions[i] {
                Some(v) => v.clone(),
                None => {
                    return Ok(None);
                },
            };
            match release_from(component, &releases[i], version) {
                Ok(lr) => Ok(Some(lr)),
                Err(e) => Err(e),
            }
        },
    }
}

} // verus!
