//! What the Updater plans for each component: the installed version found by
//! `dpkg-query`, the latest release, and what to download and install.
use vstd::prelude::*;

use crate::component::Component;
use crate::release::LatestRelease;
use crate::text::{chars_of, copy_str, push_str, str_eq, string_from, trim, trim_bounds};
use crate::version::{SemVer, semver_less, semver_parse, version_text};

verus! {

/// A component's package as `dpkg` has it installed.
#[derive(Debug, Clone)]
pub struct InstalledComponent {
    pub version: SemVer,
}

/// Where a component stands against its latest release.
#[derive(Debug, Clone)]
pub enum UpdateState {
    NotInstalled,
    Current { version: SemVer },
    UpdateAvailable { installed: SemVer, latest: SemVer },
}

/// The Updater's plan for one component.
#[derive(Debug, Clone)]
pub struct ComponentPlan {
    pub component: Component,
    pub state: UpdateState,
    pub release: Option<LatestRelease>,
}

/// Compares the installed version with the latest release: an update is
/// available exactly where the release is newer than what is installed.
pub fn build(
    component: Component,
    installed: Option<InstalledComponent>,
    release: Option<LatestRelease>,
) -> (r: ComponentPlan)
    ensures
        r.component == component,
        r.release == release,
        match installed {
            None => r.state is NotInstalled,
            Some(i) => match release {
                Some(rel) => if semver_less(i.version@, rel.version@) {
                    r.state matches UpdateState::UpdateAvailable { installed: a, latest: b } && a
                        == i.version && b == rel.version
                } else {
                    r.state matches UpdateState::Current { version } && version == i.version
                },
                None => r.state matches UpdateState::Current { version } && version == i.version,
            },
        },
        r.state matches UpdateState::UpdateAvailable { installed: a, latest: b } ==> !semver_less(
            b@,
            a@,
        ),
{
    let state = match &installed {
        None => UpdateState::NotInstalled,
        Some(i) => match &release {
            Some(rel) => {
                if i.version.precedes(&rel.version) {
                    UpdateState::UpdateAvailable {
                        installed: i.version.clone(),
                        latest: rel.version.clone(),
                    }
                } else {
                    UpdateState::Current { version: i.version.clone() }
                }
            },
            None => UpdateState::Current { version: i.version.clone() },
        },
    };
    ComponentPlan { component, state, release }
}

pub open spec fn spec_update_count(plans: Seq<ComponentPlan>) -> nat
    decreases plans.len(),
{
    if plans.len() == 0 {
        0
    } else {
        spec_update_count(plans.drop_last()) + if plans.last().state is UpdateAvailable {
            1nat
        } else {
            0nat
        }
    }
}

/// The update count is the number of plans whose state is an available
/// update: a component that is not installed, or is current, adds nothing,
/// whatever release exists for it.
pub proof fn law_update_count(plans: Seq<ComponentPlan>)
    ensures
        spec_update_count(plans) == plans.filter(offers_update()).len(),
        spec_update_count(plans) <= plans.len(),
    decreases plans.len(),
{
    reveal(Seq::filter);
    if plans.len() > 0 {
        law_update_count(plans.drop_last());
        let rest = plans.drop_last().filter(offers_update());
        if plans.last().state is UpdateAvailable {
            assert(plans.filter(offers_update()) == rest.push(plans.last()));
        } else {
            assert(plans.filter(offers_update()) == rest);
        }
    }
}

/// Whether a plan has an update available.
pub open spec fn offers_update() -> spec_fn(ComponentPlan) -> bool {
    |p: ComponentPlan| p.state is UpdateAvailable
}

/// Adding a plan raises the update count by one exactly when that plan has
/// an update available, and leaves it otherwise.
pub proof fn law_update_count_step(plans: Seq<ComponentPlan>, plan: ComponentPlan)
    ensures
        spec_update_count(plans.push(plan)) == spec_update_count(plans) + if plan.state is UpdateAvailable {
            1int
        } else {
            0int
        },
{
    assert(plans.push(plan).drop_last() =~= plans);
}

/// How many plans have an update available.
pub fn update_count(plans: &Vec<ComponentPlan>) -> (r: usize)
    ensures
        r == spec_update_count(plans@),
{
    let mut n: usize = 0;
    let mut i: usize = 0;
    while i < plans.len()
        invariant
            i <= plans.len(),
            n == spec_update_count(plans@.take(i as int)),
            n <= i,
        decreases plans.len() - i,
    {
        assert(plans@.take(i + 1).drop_last() =~= plans@.take(i as int));
        if let UpdateState::UpdateAvailable { .. } = plans[i].state {
            n += 1;
        }
        i += 1;
    }
    assert(plans@.take(plans.len() as int) =~= plans@);
    n
}

/// What the Updater does with one plan when downloading.
#[derive(Debug, Clone, Copy, PartialEq, Eq, Structural)]
pub enum DownloadDecision {
    /// The component is current and `--force` was not given.
    Skip,
    /// The component should be downloaded but no release exists.
    NoRelease,
    /// Download and verify the plan's release.
    Download,
}

/// Downloads go to components with an update, or to all with `--force`,
/// where a release exists.
pub fn download_decision(plan: &ComponentPlan, force: bool) -> (r: DownloadDecision)
    ensures
        !(force || plan.state is UpdateAvailable) ==> r == DownloadDecision::Skip,
        (force || plan.state is UpdateAvailable) && plan.release is None ==> r
            == DownloadDecision::NoRelease,
        (force || plan.state is UpdateAvailable) && plan.release is Some ==> r
            == DownloadDecision::Download,
{
    let wanted = force || match plan.state {
        UpdateState::UpdateAvailable { .. } => true,
        _ => false,
    };
    if !wanted {
        DownloadDecision::Skip
    } else if plan.release.is_none() {
        DownloadDecision::NoRelease
    } else {
        DownloadDecision::Download
    }
}

pub open spec fn installed_line(v: Seq<char>) -> Seq<char> {
    "  Installed   "@ + v
}

pub open spec fn latest_line(v: Seq<char>) -> Seq<char> {
    "  Latest      "@ + v
}

/// The lines that the Updater prints for a plan.
pub open spec fn spec_plan_lines(plan: ComponentPlan) -> Seq<Seq<char>> {
    let head = seq![plan.component.spec_display_name()];
    let latest = match plan.release {
        Some(r) => seq![latest_line(version_text(r.version@))],
        None => Seq::empty(),
    };
    match plan.state {
        UpdateState::NotInstalled => head + seq![installed_line("NOT INSTALLED"@)] + latest + seq![
            "  Status      NOT INSTALLED"@,
        ],
        UpdateState::Current { version } => head + seq![installed_line(version_text(version@))]
            + latest + seq!["  Status      CURRENT"@],
        UpdateState::UpdateAvailable { installed, latest: l } => head + seq![
            installed_line(version_text(installed@)),
            latest_line(version_text(l@)),
            "  Status      UPDATE AVAILABLE"@,
        ],
    }
}

fn labelled(label: &str, value: &String) -> (r: String)
    ensures
        r@ == label@ + value@,
{
    let mut r = copy_str(label);
    push_str(&mut r, value.as_str());
    r
}

/// The lines that the Updater prints for a plan.
pub fn plan_lines(plan: &ComponentPlan) -> (r: Vec<String>)
    ensures
        r@.map_values(|s: String| s@) == spec_plan_lines(*plan),
{
    let mut r: Vec<String> = Vec::new();
    r.push(copy_str(plan.component.display_name()));
    match &plan.state {
        UpdateState::NotInstalled => {
            let nf = copy_str("NOT INSTALLED");
            r.push(labelled("  Installed   ", &nf));
            if let Some(rel) = &plan.release {
                r.push(labelled("  Latest      ", &rel.version.text()));
            }
            r.push(copy_str("  Status      NOT INSTALLED"));
        },
        UpdateState::Current { version } => {
            r.push(labelled("  Installed   ", &version.text()));
            if let Some(rel) = &plan.release {
                r.push(labelled("  Latest      ", &rel.version.text()));
            }
            r.push(copy_str("  Status      CURRENT"));
        },
        UpdateState::UpdateAvailable { installed, latest } => {
            r.push(labelled("  Installed   ", &installed.text()));
            r.push(labelled("  Latest      ", &latest.text()));
            r.push(copy_str("  Status      UPDATE AVAILABLE"));
        },
    }
    assert(r@.map_values(|s: String| s@) =~= spec_plan_lines(*plan));
    r
}

/// Why `dpkg-query` output cannot be used.
#[derive(Debug)]
pub enum DetectError {
    /// The output is not `<status>\t<version>`.
    UnexpectedOutput { component: Component },
    /// The version does not parse.
    InvalidVersion(semver::Error),
}

/// The text before the first occurrence of `c`, or all of it.
pub open spec fn before_char(s: Seq<char>, c: char) -> Seq<char> {
    if exists|i: int| 0 <= i < s.len() && s[i] == c {
        s.take(choose|i: int| 0 <= i < s.len() && s[i] == c && forall|j: int| 0 <= j < i ==> s[j] != c)
    } else {
        s
    }
}

/// Index of the first `c` in `v`, if any.
fn find_char(v: &Vec<char>, c: char) -> (r: Option<usize>)
    ensures
        match r {
            Some(i) => i < v.len() && v@[i as int] == c && forall|j: int| 0 <= j < i ==> v@[j] != c,
            None => forall|j: int| 0 <= j < v.len() ==> v@[j] != c,
        },
{
    let mut i: usize = 0;
    while i < v.len()
        invariant
            i <= v.len(),
            forall|j: int| 0 <= j < i ==> v@[j] != c,
        decreases v.len() - i,
    {
        if v[i] == c {
            return Some(i);
        }
        i += 1;
    }
    None
}

proof fn lemma_first_unique(s: Seq<char>, c: char, i: int)
    requires
        0 <= i < s.len(),
        s[i] == c,
        forall|j: int| 0 <= j < i ==> s[j] != c,
    ensures
        (choose|k: int| 0 <= k < s.len() && s[k] == c && forall|j: int| 0 <= j < k ==> s[j] != c)
            == i,
{
    let k = choose|k: int| 0 <= k < s.len() && s[k] == c && forall|j: int| 0 <= j < k ==> s[j] != c;
    assert(0 <= k < s.len() && s[k] == c && forall|j: int| 0 <= j < k ==> s[j] != c);
    if k < i {
        assert(s[k] != c);
    } else if k > i {
        assert(s[i] != c);
    }
}

/// The version part of a Debian version: the text before the first `-`,
/// which separates the packaging revision.
pub fn parse_debian_version(value: &str) -> (r: Result<SemVer, semver::Error>)
    ensures
        r is Ok <==> semver_parse(before_char(value@, '-')) is Some,
        r matches Ok(v) ==> semver_parse(before_char(value@, '-')) == Some(v@),
{
    let v = chars_of(value);
    let part = match find_char(&v, '-') {
        Some(i) => {
            proof {
                lemma_first_unique(v@, '-', i as int);
            }
            string_from(&v, 0, i)
        },
        None => {
            let s = string_from(&v, 0, v.len());
            assert(v@.subrange(0, v@.len() as int) =~= v@);
            s
        },
    };
    SemVer::parse(part.as_str())
}

/// What `dpkg-query -W -f='${Status}\t${Version}'` tells about a package.
pub open spec fn dpkg_fields(out: Seq<char>) -> Option<(Seq<char>, Seq<char>)> {
    let t = trim(out);
    if exists|i: int| 0 <= i < t.len() && t[i] == '\t' {
        let i = choose|i: int| 0 <= i < t.len() && t[i] == '\t' && forall|j: int| 0 <= j < i ==> t[j] != '\t';
        Some((t.take(i), t.skip(i + 1)))
    } else {
        None
    }
}

/// Reads the output of `dpkg-query` for the component's package: a failed
/// query, or a status other than `install ok installed`, means not installed.
pub fn interpret_dpkg_query(component: Component, success: bool, stdout: &str) -> (r: Result<
    Option<InstalledComponent>,
    DetectError,
>)
    ensures
        if !success {
            r matches Ok(None)
        } else {
            match dpkg_fields(stdout@) {
                None => r matches Err(DetectError::UnexpectedOutput { component: c }) && c
                    == component,
                Some((status, version)) => if status != "install ok installed"@ {
                    r matches Ok(None)
                } else {
                    match semver_parse(before_char(version, '-')) {
                        None => r matches Err(DetectError::InvalidVersion(_)),
                        Some(p) => r matches Ok(Some(ic)) && ic.version@ == p,
                    }
                },
            }
        },
{
    if !success {
        return Ok(None);
    }
    let v = chars_of(stdout);
    let (a, b) = trim_bounds(&v);
    let t = string_from(&v, a, b);
    let tv = chars_of(t.as_str());
    let tab = match find_char(&tv, '\t') {
        None => {
            return Err(DetectError::UnexpectedOutput { component });
        },
        Some(i) => i,
    };
    proof {
        lemma_first_unique(tv@, '\t', tab as int);
    }
    let status = string_from(&tv, 0, tab);
    let raw_version = string_from(&tv, tab + 1, tv.len());
    assert(raw_version@ =~= tv@.skip(tab + 1));
    if !str_eq(status.as_str(), "install ok installed") {
        return Ok(None);
    }
    match parse_debian_version(raw_version.as_str()) {
        Ok(version) => Ok(Some(InstalledComponent { version })),
        Err(e) => Err(DetectError::InvalidVersion(e)),
    }
}

impl DetectError {
    /// The message that the Updater reports, where it is the library's own
    /// (a version error is reported by the `semver` crate's message).
    pub fn message(&self) -> (r: Option<String>)
        ensures
            match self {
                DetectError::UnexpectedOutput { component } => r matches Some(m) && m@
                    == "unexpected dpkg-query output for "@ + component.spec_display_name(),
                DetectError::InvalidVersion(_) => r is None,
            },
    {
        match self {
            DetectError::UnexpectedOutput { component } => {
                let mut m = copy_str("unexpected dpkg-query output for ");
                push_str(&mut m, component.display_name());
                Some(m)
            },
            DetectError::InvalidVersion(_) => None,
        }
    }
}

} // verus!
