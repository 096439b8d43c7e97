//! Rules of the privileged update helper: its command line, and the checks
//! that a staged package must pass before it is installed as root.
use vstd::prelude::*;

use crate::text::{
    all_hex, all_hex_exec, ascii_lower, chars_eq, chars_of, copy_str, is_hex_digit, lowercase,
    push_str, starts_with, starts_with_exec, str_eq, string_from, utf8_len,
};

verus! {

/// One package that the helper is asked to install.
#[derive(Debug, Clone)]
pub struct PackageRequest {
    /// The expected SHA-256 digest, lower-case hex.
    pub expected_sha256: String,
    /// Path of the downloaded package.
    pub source: String,
}

/// A well-formed helper invocation.
#[derive(Debug, Clone)]
pub struct HelperRequest {
    pub reinstall: bool,
    pub packages: Vec<PackageRequest>,
}

/// Why the helper refuses its command line or a package.
#[derive(Debug, Clone, PartialEq, Eq)]
pub enum HelperError {
    MissingAction,
    UnknownAction { action: String },
    MissingDigest,
    MissingPath,
    InvalidDigest,
    UnknownArgument { argument: String },
    NoPackages,
    /// The package is not one that the helper may install as root.
    NotAllowed { package_name: String },
    /// The staged file has no usable file name.
    InvalidFilename,
    /// The staged file's name does not belong to the package it holds.
    FilenameMismatch { file_name: String, package_name: String },
    /// The package is built for another architecture.
    ArchitectureMismatch { package: String, system: String },
    /// The root-owned copy does not have the expected digest.
    StagedChecksumMismatch { path: String },
    /// The package lies outside the update directory.
    OutsideUpdateRoot,
    /// The package is not a `.deb` file.
    NotDeb,
}

/// The outcome of reading the helper's command line.
pub enum HelperParse {
    Request { reinstall: bool, packages: Seq<(Seq<char>, Seq<char>)> },
    MissingAction,
    UnknownAction(Seq<char>),
    MissingDigest,
    MissingPath,
    InvalidDigest,
    UnknownArgument(Seq<char>),
    NoPackages,
}

/// A SHA-256 digest as the helper accepts it: 64 bytes, all hex digits.
pub open spec fn valid_hash(h: Seq<char>) -> bool {
    utf8_len(h) == 64 && all_hex(h)
}

/// The arguments after the action, from position `i` on.
pub open spec fn parse_from(
    args: Seq<Seq<char>>,
    i: int,
    reinstall: bool,
    packages: Seq<(Seq<char>, Seq<char>)>,
) -> HelperParse
    decreases args.len() - i,
{
    if i >= args.len() || i < 0 {
        if packages.len() == 0 {
            HelperParse::NoPackages
        } else {
            HelperParse::Request { reinstall, packages }
        }
    } else if args[i] == "--reinstall"@ {
        parse_from(args, i + 1, true, packages)
    } else if args[i] == "--package"@ {
        if i + 1 >= args.len() {
            HelperParse::MissingDigest
        } else if i + 2 >= args.len() {
            HelperParse::MissingPath
        } else if !valid_hash(args[i + 1]) {
            HelperParse::InvalidDigest
        } else {
            parse_from(args, i + 3, reinstall, packages.push((ascii_lower(args[i + 1]), args[i + 2])))
        }
    } else {
        HelperParse::UnknownArgument(args[i])
    }
}

/// The helper's reading of its arguments (the program name excluded).
pub open spec fn helper_parse(args: Seq<Seq<char>>) -> HelperParse {
    if args.len() == 0 {
        HelperParse::MissingAction
    } else if args[0] != "install"@ {
        HelperParse::UnknownAction(args[0])
    } else {
        parse_from(args, 1, false, Seq::empty())
    }
}

pub open spec fn packages_view(p: Seq<PackageRequest>) -> Seq<(Seq<char>, Seq<char>)> {
    p.map_values(|r: PackageRequest| (r.expected_sha256@, r.source@))
}

pub open spec fn args_view(args: Seq<String>) -> Seq<Seq<char>> {
    args.map_values(|s: String| s@)
}

/// `r` is what the helper gives back for the outcome `p`.
pub open spec fn parse_result_is(p: HelperParse, r: Result<HelperRequest, HelperError>) -> bool {
    match p {
        HelperParse::Request { reinstall, packages } => r matches Ok(req) && req.reinstall
            == reinstall && packages_view(req.packages@) == packages,
        HelperParse::MissingAction => r == Err::<HelperRequest, HelperError>(HelperError::MissingAction),
        HelperParse::UnknownAction(a) => r matches Err(HelperError::UnknownAction { action })
            && action@ == a,
        HelperParse::MissingDigest => r == Err::<HelperRequest, HelperError>(HelperError::MissingDigest),
        HelperParse::MissingPath => r == Err::<HelperRequest, HelperError>(HelperError::MissingPath),
        HelperParse::InvalidDigest => r == Err::<HelperRequest, HelperError>(HelperError::InvalidDigest),
        HelperParse::UnknownArgument(a) => r matches Err(
            HelperError::UnknownArgument { argument },
        ) && argument@ == a,
        HelperParse::NoPackages => r == Err::<HelperRequest, HelperError>(HelperError::NoPackages),
    }
}

proof fn lemma_all_hex_utf8_len(s: Seq<char>)
    requires
        all_hex(s),
    ensures
        utf8_len(s) == s.len(),
    decreases s.len(),
{
    if s.len() > 0 {
        assert(is_hex_digit(s[s.len() - 1]));
        assert forall|i: int| 0 <= i < s.drop_last().len() implies is_hex_digit(
            #[trigger] s.drop_last()[i],
        ) by {
            assert(s.drop_last()[i] == s[i]);
        }
        lemma_all_hex_utf8_len(s.drop_last());
    }
}

/// Accepts a SHA-256 digest of 64 hex digits and gives it back in lower case.
pub fn validate_hash(hash: &str) -> (r: Result<String, HelperError>)
    ensures
        valid_hash(hash@) ==> (r matches Ok(h) && h@ == ascii_lower(hash@)),
        !valid_hash(hash@) ==> r == Err::<String, HelperError>(HelperError::InvalidDigest),
{
    let v = chars_of(hash);
    if !all_hex_exec(&v) {
        return Err(HelperError::InvalidDigest);
    }
    proof {
        lemma_all_hex_utf8_len(v@);
    }
    if v.len() != 64 {
        return Err(HelperError::InvalidDigest);
    }
    Ok(lowercase(hash))
}

/// Reads the helper's arguments (the program name excluded): the action
/// `install`, then any number of `--reinstall` and
/// `--package <sha256> <path>`, at least one package.
pub fn parse_helper_args(args: &Vec<String>) -> (r: Result<HelperRequest, HelperError>)
    ensures
        parse_result_is(helper_parse(args_view(args@)), r),
{
    let ghost a = args_view(args@);
    if args.len() == 0 {
        return Err(HelperError::MissingAction);
    }
    assert(a[0] == args@[0]@);
    if !str_eq(args[0].as_str(), "install") {
        return Err(HelperError::UnknownAction { action: args[0].clone() });
    }
    let mut reinstall = false;
    let mut packages: Vec<PackageRequest> = Vec::new();
    let mut i: usize = 1;
    assert(packages_view(packages@) =~= Seq::empty());
    while i < args.len()
        invariant
            1 <= i,
            a == args_view(args@),
            helper_parse(a) == parse_from(a, i as int, reinstall, packages_view(packages@)),
        decreases args.len() - i,
    {
        assert(a[i as int] == args@[i as int]@);
        if str_eq(args[i].as_str(), "--reinstall") {
            reinstall = true;
            i += 1;
        } else if str_eq(args[i].as_str(), "--package") {
            if i + 1 >= args.len() {
                return Err(HelperError::MissingDigest);
            }
            if i + 2 >= args.len() {
                return Err(HelperError::MissingPath);
            }
            assert(a[i + 1] == args@[i + 1]@);
            assert(a[i + 2] == args@[i + 2]@);
            let digest = match validate_hash(args[i + 1].as_str()) {
                Ok(d) => d,
                Err(e) => {
                    return Err(e);
                },
            };
            let request = PackageRequest { expected_sha256: digest, source: args[i + 2].clone() };
            let ghost before = packages_view(packages@);
            packages.push(request);
            assert(packages_view(packages@) =~= before.push(
                (ascii_lower(a[i + 1]), a[i + 2]),
            ));
            i += 3;
        } else {
            return Err(HelperError::UnknownArgument { argument: args[i].clone() });
        }
    }
    if packages.len() == 0 {
        return Err(HelperError::NoPackages);
    }
    Ok(HelperRequest { reinstall, packages })
}

/// The packages that the helper may install as root.
pub open spec fn allowed_package(name: Seq<char>) -> bool {
    name == "wyncommand-agent"@ || name == "wynobserve"@
}

/// Accepts only the Agent and Observatory packages.
pub fn ensure_allowed_package(package_name: &str) -> (r: Result<(), HelperError>)
    ensures
        allowed_package(package_name@) ==> r is Ok,
        !allowed_package(package_name@) ==> (r matches Err(HelperError::NotAllowed { package_name: p })
            && p@ == package_name@),
{
    if str_eq(package_name, "wyncommand-agent") || str_eq(package_name, "wynobserve") {
        Ok(())
    } else {
        Err(HelperError::NotAllowed { package_name: copy_str(package_name) })
    }
}

/// Accepts a staged file whose name starts with `<package_name>_`; `None`
/// stands for a path without a (UTF-8) file name.
pub fn validate_filename(file_name: Option<&str>, package_name: &str) -> (r: Result<(), HelperError>)
    ensures
        match file_name {
            None => r == Err::<(), HelperError>(HelperError::InvalidFilename),
            Some(f) => if starts_with(f@, package_name@ + seq!['_']) {
                r is Ok
            } else {
                r matches Err(HelperError::FilenameMismatch { file_name: fe, package_name: pe })
                    && fe@ == f@ && pe@ == package_name@
            },
        },
{
    let f = match file_name {
        None => {
            return Err(HelperError::InvalidFilename);
        },
        Some(f) => f,
    };
    let mut prefix = copy_str(package_name);
    crate::text::push_char(&mut prefix, '_');
    assert(prefix@ =~= package_name@ + seq!['_']);
    let prefix_chars = chars_of(prefix.as_str());
    let name_chars = chars_of(f);
    if !starts_with_exec(&name_chars, &prefix_chars) {
        return Err(
            HelperError::FilenameMismatch { file_name: copy_str(f), package_name: copy_str(package_name) },
        );
    }
    Ok(())
}

/// Accepts a package whose architecture is the system's.
pub fn validate_architecture(package_architecture: &str, system_architecture: &str) -> (r: Result<
    (),
    HelperError,
>)
    ensures
        package_architecture@ == system_architecture@ ==> r is Ok,
        package_architecture@ != system_architecture@ ==> (r matches Err(
            HelperError::ArchitectureMismatch { package, system },
        ) && package@ == package_architecture@ && system@ == system_architecture@),
{
    if str_eq(package_architecture, system_architecture) {
        Ok(())
    } else {
        Err(
            HelperError::ArchitectureMismatch {
                package: copy_str(package_architecture),
                system: copy_str(system_architecture),
            },
        )
    }
}

/// Accepts a root-owned copy whose digest is the requested one.
pub fn validate_staged_digest(actual: &str, expected: &str, path: &str) -> (r: Result<(), HelperError>)
    ensures
        actual@ == expected@ ==> r is Ok,
        actual@ != expected@ ==> (r matches Err(HelperError::StagedChecksumMismatch { path: p })
            && p@ == path@),
{
    if str_eq(actual, expected) {
        Ok(())
    } else {
        Err(HelperError::StagedChecksumMismatch { path: copy_str(path) })
    }
}

/// The extension of a file name as `Path::extension` gives it: the text after
/// the last `.`, except for names without a `.`, names whose only `.` is the
/// first character, and `..`.
pub open spec fn extension_of(name: Seq<char>) -> Option<Seq<char>> {
    if name == ".."@ {
        None
    } else if exists|i: int| 0 < i < name.len() && name[i] == '.' {
        let i = choose|i: int|
            0 < i < name.len() && name[i] == '.' && forall|j: int| i < j < name.len() ==> name[j] != '.';
        Some(name.skip(i + 1))
    } else {
        None
    }
}

/// `Path::extension` of a file name.
pub fn file_extension(name: &str) -> (r: Option<String>)
    ensures
        match r {
            Some(e) => extension_of(name@) == Some(e@),
            None => extension_of(name@) is None,
        },
{
    if str_eq(name, "..") {
        return None;
    }
    let v = chars_of(name);
    let mut k: usize = v.len();
    while k > 1 && v[k - 1] != '.'
        invariant
            k <= v.len(),
            v@ == name@,
            forall|j: int| k <= j < v.len() ==> v@[j] != '.',
        decreases k,
    {
        k -= 1;
    }
    if k > 1 {
        let i = k - 1;
        assert(0 < i < v.len() && v@[i as int] == '.');
        let ghost c = choose|i: int|
            0 < i < name@.len() && name@[i] == '.' && forall|j: int| i < j < name@.len() ==> name@[j] != '.';
        assert(exists|i: int|
            0 < i < name@.len() && name@[i] == '.' && forall|j: int| i < j < name@.len() ==> name@[j] != '.') by {
            assert(forall|j: int| i < j < name@.len() ==> name@[j] != '.');
        }
        proof {
            if c != i as int {
                if c < i as int {
                    assert(name@[i as int] != '.');
                } else {
                    assert(name@[c] != '.');
                }
            }
        }
        Some(string_from(&v, k, v.len()))
    } else {
        assert forall|i: int| 0 < i < name@.len() implies name@[i] != '.' by {}
        None
    }
}

/// Accepts a canonical package path that lies inside the canonical update
/// directory (component by component, as `Path::starts_with` compares) and
/// names a `.deb` file.
pub fn validate_source(source: &Vec<String>, root: &Vec<String>) -> (r: Result<(), HelperError>)
    ensures
        !(args_view(root@).len() <= args_view(source@).len() && args_view(source@).subrange(
            0,
            root@.len() as int,
        ) == args_view(root@)) ==> r == Err::<(), HelperError>(HelperError::OutsideUpdateRoot),
        args_view(root@).len() <= args_view(source@).len() && args_view(source@).subrange(
            0,
            root@.len() as int,
        ) == args_view(root@) ==> (if source@.len() > 0 && extension_of(source@.last()@) == Some(
            "deb"@,
        ) {
            r is Ok
        } else {
            r == Err::<(), HelperError>(HelperError::NotDeb)
        }),
{
    let ghost s = args_view(source@);
    let ghost t = args_view(root@);
    if root.len() > source.len() {
        return Err(HelperError::OutsideUpdateRoot);
    }
    let mut i: usize = 0;
    while i < root.len()
        invariant
            i <= root.len() <= source.len(),
            s == args_view(source@),
            t == args_view(root@),
            forall|j: int| 0 <= j < i ==> s[j] == t[j],
        decreases root.len() - i,
    {
        if !str_eq(source[i].as_str(), root[i].as_str()) {
            assert(s.subrange(0, root@.len() as int)[i as int] != t[i as int]);
            return Err(HelperError::OutsideUpdateRoot);
        }
        i += 1;
    }
    assert(s.subrange(0, root@.len() as int) =~= t);
    if source.len() == 0 {
        return Err(HelperError::NotDeb);
    }
    match file_extension(source[source.len() - 1].as_str()) {
        Some(e) => {
            if str_eq(e.as_str(), "deb") {
                Ok(())
            } else {
                Err(HelperError::NotDeb)
            }
        },
        None => Err(HelperError::NotDeb),
    }
}

/// Whether any staged package is the Agent, whose service must then restart.
pub fn needs_agent_restart(package_names: &Vec<String>) -> (r: bool)
    ensures
        r == exists|i: int| 0 <= i < package_names.len() && package_names@[i]@ == "wyncommand-agent"@,
{
    let mut i: usize = 0;
    while i < package_names.len()
        invariant
            i <= package_names.len(),
            forall|j: int| 0 <= j < i ==> package_names@[j]@ != "wyncommand-agent"@,
        decreases package_names.len() - i,
    {
        if str_eq(package_names[i].as_str(), "wyncommand-agent") {
            return true;
        }
        i += 1;
    }
    false
}

/// The `apt-get` arguments that install the staged packages.
pub open spec fn apt_args(paths: Seq<Seq<char>>, reinstall: bool) -> Seq<Seq<char>> {
    let head = seq!["install"@, "-y"@, "--no-remove"@];
    let head = if reinstall {
        head.push("--reinstall"@)
    } else {
        head
    };
    head.push("--"@) + paths
}

/// Builds the `apt-get` argument list for the staged packages.
pub fn apt_get_arguments(paths: &Vec<String>, reinstall: bool) -> (r: Vec<String>)
    ensures
        args_view(r@) == apt_args(args_view(paths@), reinstall),
{
    let mut r: Vec<String> = Vec::new();
    r.push(copy_str("install"));
    r.push(copy_str("-y"));
    r.push(copy_str("--no-remove"));
    if reinstall {
        r.push(copy_str("--reinstall"));
    }
    r.push(copy_str("--"));
    let ghost head = args_view(r@);
    let mut i: usize = 0;
    while i < paths.len()
        invariant
            i <= paths.len(),
            args_view(r@) == head + args_view(paths@).take(i as int),
        decreases paths.len() - i,
    {
        let ghost before = args_view(r@);
        r.push(paths[i].clone());
        assert(args_view(r@) =~= before.push(paths@[i as int]@));
        assert(args_view(paths@).take(i + 1) =~= args_view(paths@).take(i as int).push(paths@[i as int]@));
        assert(args_view(r@) =~= head + args_view(paths@).take(i + 1));
        i += 1;
    }
    assert(args_view(paths@).take(paths.len() as int) =~= args_view(paths@));
    assert(head =~= apt_args(Seq::empty(), reinstall));
    assert(apt_args(args_view(paths@), reinstall) =~= head + args_view(paths@));
    r
}

impl HelperError {
    /// The message that the helper reports for this error.
    pub fn message(&self) -> (r: String)
        ensures
            match self {
                HelperError::MissingAction => r@ == "missing helper action"@,
                HelperError::UnknownAction { action } => r@ == "unknown helper action `"@ + action@
                    + "`"@,
                HelperError::MissingDigest => r@ == "--package requires a SHA-256 digest"@,
                HelperError::MissingPath => r@ == "--package requires a package path"@,
                HelperError::InvalidDigest => r@ == "invalid SHA-256 digest"@,
                HelperError::UnknownArgument { argument } => r@ == "unknown helper argument `"@
                    + argument@ + "`"@,
                HelperError::NoPackages => r@ == "no update packages supplied"@,
                HelperError::NotAllowed { package_name } => r@ == "package `"@ + package_name@
                    + "` is not an allowed WynObserve component"@,
                HelperError::InvalidFilename => r@ == "invalid package filename"@,
                HelperError::FilenameMismatch { file_name, package_name } => r@ == "filename `"@
                    + file_name@ + "` does not match package `"@ + package_name@ + "`"@,
                HelperError::ArchitectureMismatch { package, system } => r@
                    == "package architecture `"@ + package@ + "` does not match system `"@
                    + system@ + "`"@,
                HelperError::StagedChecksumMismatch { path } => r@
                    == "root-side checksum mismatch for "@ + path@,
                HelperError::OutsideUpdateRoot => r@ == "package is outside /tmp/wynobserve-update"@,
                HelperError::NotDeb => r@ == "update package is not a .deb"@,
            },
    {
        let mut r = String::new();
        match self {
            HelperError::MissingAction => push_str(&mut r, "missing helper action"),
            HelperError::UnknownAction { action } => {
                push_str(&mut r, "unknown helper action `");
                push_str(&mut r, action.as_str());
                push_str(&mut r, "`");
            },
            HelperError::MissingDigest => push_str(&mut r, "--package requires a SHA-256 digest"),
            HelperError::MissingPath => push_str(&mut r, "--package requires a package path"),
            HelperError::InvalidDigest => push_str(&mut r, "invalid SHA-256 digest"),
            HelperError::UnknownArgument { argument } => {
                push_str(&mut r, "unknown helper argument `");
                push_str(&mut r, argument.as_str());
                push_str(&mut r, "`");
            },
            HelperError::NoPackages => push_str(&mut r, "no update packages supplied"),
            HelperError::NotAllowed { package_name } => {
                push_str(&mut r, "package `");
                push_str(&mut r, package_name.as_str());
                push_str(&mut r, "` is not an allowed WynObserve component");
            },
            HelperError::InvalidFilename => push_str(&mut r, "invalid package filename"),
            HelperError::FilenameMismatch { file_name, package_name } => {
                push_str(&mut r, "filename `");
                push_str(&mut r, file_name.as_str());
                push_str(&mut r, "` does not match package `");
                push_str(&mut r, package_name.as_str());
                push_str(&mut r, "`");
            },
            HelperError::ArchitectureMismatch { package, system } => {
                push_str(&mut r, "package architecture `");
                push_str(&mut r, package.as_str());
                push_str(&mut r, "` does not match system `");
                push_str(&mut r, system.as_str());
                push_str(&mut r, "`");
            },
            HelperError::StagedChecksumMismatch { path } => {
                push_str(&mut r, "root-side checksum mismatch for ");
                push_str(&mut r, path.as_str());
            },
            HelperError::OutsideUpdateRoot => push_str(&mut r, "package is outside /tmp/wynobserve-update"),
            HelperError::NotDeb => push_str(&mut r, "update package is not a .deb"),
        }
        r
    }
}

/// How far a privileged installation has come.
#[derive(Debug, Clone, Copy, PartialEq, Eq, Structural)]
pub enum HelperPhase {
    /// Packages are being staged, one request after another.
    Staging,
    /// `apt-get` has installed the staged packages.
    Installed,
    /// systemd has reloaded its units.
    Refreshed,
    /// The Agent's service has restarted.
    Restarted,
}

/// The next privileged operation.
#[derive(Debug, Clone, Copy, PartialEq, Eq, Structural)]
pub enum HelperAction {
    /// Copy the request at this position into the staging directory and
    /// check the copy.
    Stage(usize),
    /// Install every staged package with `apt-get`.
    Install,
    /// `systemctl daemon-reload`.
    RefreshSystemd,
    /// Restart the Agent's service.
    RestartAgent,
    /// Nothing is left to do.
    Done,
}

/// The order of a privileged installation: every request is staged in
/// turn, the staged packages are installed together, systemd reloads its
/// units, and the Agent restarts where one of the packages is the Agent. A
/// failed operation ends the installation; the caller stops there.
#[derive(Debug)]
pub struct StageAndInstall {
    request_count: usize,
    staged: Vec<String>,
    phase: HelperPhase,
}

impl View for StageAndInstall {
    type V = (nat, Seq<Seq<char>>, HelperPhase);

    closed spec fn view(&self) -> (nat, Seq<Seq<char>>, HelperPhase) {
        (self.request_count as nat, self.staged@.map_values(|n: String| n@), self.phase)
    }
}

/// Whether a staged package is the Agent.
pub open spec fn stages_agent(staged: Seq<Seq<char>>) -> bool {
    exists|i: int| 0 <= i < staged.len() && staged[i] == "wyncommand-agent"@
}

/// The operation that follows a state.
pub open spec fn next_helper_action(state: (nat, Seq<Seq<char>>, HelperPhase)) -> HelperAction {
    let (count, staged, phase) = state;
    match phase {
        HelperPhase::Staging => if staged.len() < count {
            HelperAction::Stage(staged.len() as usize)
        } else {
            HelperAction::Install
        },
        HelperPhase::Installed => HelperAction::RefreshSystemd,
        HelperPhase::Refreshed => if stages_agent(staged) {
            HelperAction::RestartAgent
        } else {
            HelperAction::Done
        },
        HelperPhase::Restarted => HelperAction::Done,
    }
}

impl StageAndInstall {
    /// An installation of `request_count` requests that has not begun.
    pub fn new(request_count: usize) -> (r: StageAndInstall)
        ensures
            r@ == (request_count as nat, Seq::<Seq<char>>::empty(), HelperPhase::Staging),
    {
        let r = StageAndInstall { request_count, staged: Vec::new(), phase: HelperPhase::Staging };
        assert(r@.1 =~= Seq::<Seq<char>>::empty());
        r
    }

    /// The next operation.
    pub fn next_action(&self) -> (r: HelperAction)
        ensures
            r == next_helper_action(self@),
    {
        match self.phase {
            HelperPhase::Staging => {
                if self.staged.len() < self.request_count {
                    HelperAction::Stage(self.staged.len())
                } else {
                    HelperAction::Install
                }
            },
            HelperPhase::Installed => HelperAction::RefreshSystemd,
            HelperPhase::Refreshed => {
                if needs_agent_restart(&self.staged) {
                    proof {
                        let i = choose|i: int|
                            0 <= i < self.staged.len() && self.staged@[i]@ == "wyncommand-agent"@;
                        assert(self@.1[i] == "wyncommand-agent"@);
                    }
                    HelperAction::RestartAgent
                } else {
                    proof {
                        assert forall|i: int| 0 <= i < self@.1.len() implies self@.1[i]
                            != "wyncommand-agent"@ by {
                            assert(self@.1[i] == self.staged@[i]@);
                        }
                    }
                    HelperAction::Done
                }
            },
            HelperPhase::Restarted => HelperAction::Done,
        }
    }

    /// The package asked for by the next `Stage` passed its checks and is
    /// staged under its Debian name; at any other point nothing changes.
    pub fn record_staged(&mut self, package_name: String)
        ensures
            next_helper_action(old(self)@) is Stage ==> final(self)@ == (
                old(self)@.0,
                old(self)@.1.push(package_name@),
                old(self)@.2,
            ),
            !(next_helper_action(old(self)@) is Stage) ==> final(self)@ == old(self)@,
    {
        if let HelperAction::Stage(_) = self.next_action() {
            let ghost before = self.staged@;
            self.staged.push(package_name);
            proof {
                assert(self.staged@.map_values(|n: String| n@) =~= before.map_values(
                    |n: String| n@,
                ).push(package_name@));
            }
        }
    }

    /// The operation asked for by the next `Install`, `RefreshSystemd` or
    /// `RestartAgent` succeeded; at any other point nothing changes.
    pub fn record_completed(&mut self)
        ensures
            final(self)@.0 == old(self)@.0,
            final(self)@.1 == old(self)@.1,
            final(self)@.2 == match next_helper_action(old(self)@) {
                HelperAction::Install => HelperPhase::Installed,
                HelperAction::RefreshSystemd => HelperPhase::Refreshed,
                HelperAction::RestartAgent => HelperPhase::Restarted,
                _ => old(self)@.2,
            },
    {
        match self.next_action() {
            HelperAction::Install => {
                self.phase = HelperPhase::Installed;
            },
            HelperAction::RefreshSystemd => {
                self.phase = HelperPhase::Refreshed;
            },
            HelperAction::RestartAgent => {
                self.phase = HelperPhase::Restarted;
            },
            _ => {},
        }
    }

    /// The names of the staged packages, in staging order.
    pub fn staged_packages(&self) -> (r: &Vec<String>)
        ensures
            r@.map_values(|n: String| n@) == self@.1,
    {
        &self.staged
    }
}

/// A run in which every operation succeeds stages each request once, in
/// order, then installs, reloads systemd, and restarts the Agent exactly
/// when one of the staged packages is the Agent.
pub proof fn law_helper_order(count: nat, staged: Seq<Seq<char>>)
    requires
        staged.len() <= count,
    ensures
        staged.len() < count ==> next_helper_action((count, staged, HelperPhase::Staging))
            == HelperAction::Stage(staged.len() as usize),
        staged.len() == count ==> next_helper_action((count, staged, HelperPhase::Staging))
            == HelperAction::Install,
        next_helper_action((count, staged, HelperPhase::Installed)) == HelperAction::RefreshSystemd,
        next_helper_action((count, staged, HelperPhase::Refreshed)) == (if stages_agent(staged) {
            HelperAction::RestartAgent
        } else {
            HelperAction::Done
        }),
        next_helper_action((count, staged, HelperPhase::Restarted)) == HelperAction::Done,
{
}

} // verus!
