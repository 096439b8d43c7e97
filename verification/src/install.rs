//! Handing verified packages to the privileged helper.
use vstd::prelude::*;

use crate::component::Component;
use crate::helper::{helper_parse, parse_from, valid_hash, HelperParse};
use crate::release::LatestRelease;
use crate::text::{ascii_lower, copy_str};

verus! {

/// A downloaded package whose digest matched the release's manifest.
#[derive(Debug, Clone)]
pub struct VerifiedPackage {
    pub path: String,
    pub sha256: String,
}

/// The arguments that `pkexec` receives to run the helper.
pub open spec fn spec_helper_arguments(
    helper: Seq<char>,
    packages: Seq<(Component, VerifiedPackage)>,
    reinstall: bool,
) -> Seq<Seq<char>>
    decreases packages.len(),
{
    if packages.len() == 0 {
        let head = seq![helper, "install"@];
        if reinstall {
            head.push("--reinstall"@)
        } else {
            head
        }
    } else {
        let p = packages.last().1;
        spec_helper_arguments(helper, packages.drop_last(), reinstall) + seq![
            "--package"@,
            p.sha256@,
            p.path@,
        ]
    }
}

/// Builds the helper's command line: `install`, `--reinstall` when forced,
/// then `--package <sha256> <path>` for each package.
pub fn helper_arguments(
    helper: &str,
    packages: &Vec<(Component, VerifiedPackage)>,
    reinstall: bool,
) -> (r: Vec<String>)
    ensures
        r@.map_values(|s: String| s@) == spec_helper_arguments(helper@, packages@, reinstall),
{
    let mut r: Vec<String> = Vec::new();
    r.push(copy_str(helper));
    r.push(copy_str("install"));
    if reinstall {
        r.push(copy_str("--reinstall"));
    }
    assert(r@.map_values(|s: String| s@) =~= spec_helper_arguments(helper@, packages@.take(0), reinstall));
    let mut i: usize = 0;
    while i < packages.len()
        invariant
            i <= packages.len(),
            r@.map_values(|s: String| s@) == spec_helper_arguments(helper@, packages@.take(i as int), reinstall),
        decreases packages.len() - i,
    {
        let ghost before = r@.map_values(|s: String| s@);
        r.push(copy_str("--package"));
        r.push(packages[i].1.sha256.clone());
        r.push(packages[i].1.path.clone());
        assert(packages@.take(i + 1).drop_last() =~= packages@.take(i as int));
        assert(r@.map_values(|s: String| s@) =~= before + seq![
            "--package"@,
            packages@[i as int].1.sha256@,
            packages@[i as int].1.path@,
        ]);
        i += 1;
    }
    assert(packages@.take(packages.len() as int) =~= packages@);
    r
}

/// Whether the Observatory is among the installed packages, so that the
/// desktop's application cache is refreshed.
pub fn observatory_updated(packages: &Vec<(Component, VerifiedPackage)>) -> (r: bool)
    ensures
        r == exists|i: int| 0 <= i < packages.len() && packages@[i].0 == Component::Observatory,
{
    let mut i: usize = 0;
    while i < packages.len()
        invariant
            i <= packages.len(),
            forall|j: int| 0 <= j < i ==> packages@[j].0 != Component::Observatory,
        decreases packages.len() - i,
    {
        if packages[i].0 == Component::Observatory {
            return true;
        }
        i += 1;
    }
    false
}

/// The directories, under the system's temporary directory, that hold a
/// release's downloads: `wynobserve-update/<package>/<tag>`.
pub fn download_directory(release: &LatestRelease) -> (r: Vec<String>)
    ensures
        r@.map_values(|s: String| s@) == seq![
            "wynobserve-update"@,
            release.component.spec_package_name(),
            release.tag@,
        ],
{
    let mut r: Vec<String> = Vec::new();
    r.push(copy_str("wynobserve-update"));
    r.push(copy_str(release.component.package_name()));
    r.push(release.tag.clone());
    assert(r@.map_values(|s: String| s@) =~= seq![
        "wynobserve-update"@,
        release.component.spec_package_name(),
        release.tag@,
    ]);
    r
}

/// The name of the partial file that a download is written to before it is
/// renamed into place.
pub fn partial_name(file_name: &str) -> (r: String)
    ensures
        r@ == file_name@ + ".part"@,
{
    let mut r = copy_str(file_name);
    crate::text::push_str(&mut r, ".part");
    r
}

/// The helper's command line before the packages.
pub open spec fn helper_head(helper: Seq<char>, reinstall: bool) -> Seq<Seq<char>> {
    let head = seq![helper, "install"@];
    if reinstall {
        head.push("--reinstall"@)
    } else {
        head
    }
}

/// `--package <sha256> <path>` for each package.
pub open spec fn package_triples(packages: Seq<(Component, VerifiedPackage)>) -> Seq<Seq<char>>
    decreases packages.len(),
{
    if packages.len() == 0 {
        Seq::empty()
    } else {
        package_triples(packages.drop_last()) + seq![
            "--package"@,
            packages.last().1.sha256@,
            packages.last().1.path@,
        ]
    }
}

/// The digest and path under which the helper records each package.
pub open spec fn requested(packages: Seq<(Component, VerifiedPackage)>) -> Seq<(Seq<char>, Seq<char>)> {
    packages.map_values(
        |p: (Component, VerifiedPackage)| (ascii_lower(p.1.sha256@), p.1.path@),
    )
}

proof fn lemma_arguments_split(
    helper: Seq<char>,
    packages: Seq<(Component, VerifiedPackage)>,
    reinstall: bool,
)
    ensures
        spec_helper_arguments(helper, packages, reinstall) == helper_head(helper, reinstall)
            + package_triples(packages),
    decreases packages.len(),
{
    if packages.len() > 0 {
        lemma_arguments_split(helper, packages.drop_last(), reinstall);
        let tail = seq!["--package"@, packages.last().1.sha256@, packages.last().1.path@];
        assert((helper_head(helper, reinstall) + package_triples(packages.drop_last())) + tail
            =~= helper_head(helper, reinstall) + (package_triples(packages.drop_last()) + tail));
    }
}

/// `--package <sha256> <path>` of the package `p` stands at `at`.
pub open spec fn triple_at(args: Seq<Seq<char>>, at: int, p: (Component, VerifiedPackage)) -> bool {
    &&& args[at] == "--package"@
    &&& args[at + 1] == p.1.sha256@
    &&& args[at + 2] == p.1.path@
}

proof fn lemma_triples_index(packages: Seq<(Component, VerifiedPackage)>)
    ensures
        package_triples(packages).len() == 3 * packages.len(),
        forall|j: int|
            0 <= j < packages.len() ==> triple_at(package_triples(packages), 3 * j, #[trigger] packages[j]),
    decreases packages.len(),
{
    if packages.len() > 0 {
        let rest = packages.drop_last();
        let n = packages.len() - 1;
        lemma_triples_index(rest);
        let a = package_triples(rest);
        let tail = seq!["--package"@, packages.last().1.sha256@, packages.last().1.path@];
        let all = package_triples(packages);
        assert(all == a + tail);
        assert forall|j: int| 0 <= j < packages.len() implies triple_at(all, 3 * j, #[trigger] packages[j]) by {
            if j < n {
                assert(packages[j] == rest[j]);
                assert(triple_at(a, 3 * j, rest[j]));
                assert(all[3 * j] == a[3 * j]);
                assert(all[3 * j + 1] == a[3 * j + 1]);
                assert(all[3 * j + 2] == a[3 * j + 2]);
            } else {
                assert(all[3 * j] == tail[0]);
                assert(all[3 * j + 1] == tail[1]);
                assert(all[3 * j + 2] == tail[2]);
            }
        }
    }
}

/// The packages' triples follow one another from `start` to the end.
pub open spec fn laid_out(
    args: Seq<Seq<char>>,
    start: int,
    packages: Seq<(Component, VerifiedPackage)>,
) -> bool {
    &&& 0 <= start
    &&& args.len() == start + 3 * packages.len()
    &&& forall|k: int|
        0 <= k < packages.len() ==> triple_at(args, start + 3 * k, #[trigger] packages[k])
    &&& forall|k: int| 0 <= k < packages.len() ==> valid_hash(#[trigger] packages[k].1.sha256@)
}

proof fn lemma_parse_packages(
    args: Seq<Seq<char>>,
    start: int,
    reinstall: bool,
    packages: Seq<(Component, VerifiedPackage)>,
    j: int,
)
    requires
        0 <= j <= packages.len(),
        packages.len() > 0,
        laid_out(args, start, packages),
    ensures
        parse_from(args, start + 3 * j, reinstall, requested(packages.take(j)))
            == (HelperParse::Request { reinstall, packages: requested(packages) }),
    decreases packages.len() - j,
{
    if j == packages.len() {
        assert(packages.take(j) =~= packages);
    } else {
        lemma_flags_differ();
        let at = start + 3 * j;
        assert(triple_at(args, at, packages[j]));
        assert(valid_hash(packages[j].1.sha256@));
        assert(args[at] != "--reinstall"@);
        assert(requested(packages.take(j)).push((ascii_lower(args[at + 1]), args[at + 2]))
            =~= requested(packages.take(j + 1)));
        assert(at + 3 == start + 3 * (j + 1));
        lemma_parse_packages(args, start, reinstall, packages, j + 1);
    }
}

proof fn lemma_flags_differ()
    ensures
        "--package"@ != "--reinstall"@,
        "install"@ != "--reinstall"@,
{
    reveal_strlit("--package");
    reveal_strlit("--reinstall");
    reveal_strlit("install");
    assert("--package"@[2] != "--reinstall"@[2]);
    assert("install"@[0] != "--reinstall"@[0]);
}

proof fn lemma_arguments_laid_out(
    helper: Seq<char>,
    packages: Seq<(Component, VerifiedPackage)>,
    reinstall: bool,
)
    requires
        forall|k: int| 0 <= k < packages.len() ==> valid_hash(#[trigger] packages[k].1.sha256@),
    ensures
        laid_out(
            spec_helper_arguments(helper, packages, reinstall).drop_first(),
            if reinstall {
                2
            } else {
                1
            },
            packages,
        ),
        spec_helper_arguments(helper, packages, reinstall).drop_first()[0] == "install"@,
        reinstall ==> spec_helper_arguments(helper, packages, reinstall).drop_first()[1]
            == "--reinstall"@,
{
    lemma_arguments_split(helper, packages, reinstall);
    lemma_triples_index(packages);
    let args = spec_helper_arguments(helper, packages, reinstall).drop_first();
    let head = helper_head(helper, reinstall).drop_first();
    let triples = package_triples(packages);
    let start: int = if reinstall {
        2
    } else {
        1
    };
    assert(head.len() == start);
    assert(args =~= head + triples);
    assert forall|k: int| 0 <= k < packages.len() implies triple_at(
        args,
        start + 3 * k,
        #[trigger] packages[k],
    ) by {
        assert(triple_at(triples, 3 * k, packages[k]));
        assert(args[start + 3 * k] == triples[3 * k]);
        assert(args[start + 3 * k + 1] == triples[3 * k + 1]);
        assert(args[start + 3 * k + 2] == triples[3 * k + 2]);
    }
    assert(args[0] == head[0]);
    if reinstall {
        assert(args[1] == head[1]);
    }
}

/// The helper accepts the command line that the Updater builds for it: what
/// it reads back is the reinstall flag and, in order, each package's digest
/// (in lower case) and path, provided there is a package and every digest
/// is 64 hex digits.
pub proof fn law_helper_accepts_arguments(
    helper: Seq<char>,
    packages: Seq<(Component, VerifiedPackage)>,
    reinstall: bool,
)
    requires
        packages.len() > 0,
        forall|k: int| 0 <= k < packages.len() ==> valid_hash(#[trigger] packages[k].1.sha256@),
    ensures
        helper_parse(spec_helper_arguments(helper, packages, reinstall).drop_first())
            == (HelperParse::Request { reinstall, packages: requested(packages) }),
{
    let args = spec_helper_arguments(helper, packages, reinstall).drop_first();
    let start: int = if reinstall {
        2
    } else {
        1
    };
    lemma_arguments_laid_out(helper, packages, reinstall);
    lemma_flags_differ();
    assert(requested(packages.take(0)) =~= Seq::<(Seq<char>, Seq<char>)>::empty());
    lemma_parse_packages(args, start, reinstall, packages, 0);
    if !reinstall {
        assert(triple_at(args, start, packages[0]));
    }
}

} // verus!
