//! The Updater's command line and its install confirmation.
use vstd::prelude::*;

use crate::text::{ascii_lower, chars_of, lowercase_vec, str_eq, trim, trim_bounds, string_from};

verus! {

/// What the Updater was asked to do.
#[derive(Debug, Clone, Copy, PartialEq, Eq, Default, Structural)]
pub struct Options {
    pub download: bool,
    pub install: bool,
    pub force: bool,
    pub yes: bool,
}

/// How the Updater proceeds after reading its command line.
#[derive(Debug, Clone, Copy, PartialEq, Eq, Structural)]
pub enum Invocation {
    /// Check, and download or install as the options say.
    Run(Options),
    /// Print the usage text and stop.
    Help,
    /// Print the Updater's version and stop.
    Version,
}

/// Why the Updater refuses its command line.
#[derive(Debug, Clone, PartialEq, Eq)]
pub enum OptionsError {
    UnknownArgument { argument: String },
    ForceWithoutDownload,
    YesWithoutInstall,
}

/// The spec-level outcome of reading the command line.
pub enum OptionsParse {
    Run(Options),
    Help,
    Version,
    Unknown(Seq<char>),
    ForceWithoutDownload,
    YesWithoutInstall,
}

/// Reading the arguments from position `i` on, with the options so far.
pub open spec fn options_from(args: Seq<Seq<char>>, i: int, o: Options) -> OptionsParse
    decreases args.len() - i,
{
    if i < 0 || i >= args.len() {
        if o.force && !o.download {
            OptionsParse::ForceWithoutDownload
        } else if o.yes && !o.install {
            OptionsParse::YesWithoutInstall
        } else {
            OptionsParse::Run(o)
        }
    } else {
        let a = args[i];
        if a == "--download"@ {
            options_from(args, i + 1, Options { download: true, ..o })
        } else if a == "--force"@ {
            options_from(args, i + 1, Options { force: true, ..o })
        } else if a == "--help"@ || a == "-h"@ {
            OptionsParse::Help
        } else if a == "--install"@ {
            options_from(args, i + 1, Options { install: true, download: true, ..o })
        } else if a == "--yes"@ || a == "-y"@ {
            options_from(args, i + 1, Options { yes: true, ..o })
        } else if a == "--version"@ || a == "-V"@ {
            OptionsParse::Version
        } else {
            OptionsParse::Unknown(a)
        }
    }
}

pub open spec fn options_parse(args: Seq<Seq<char>>) -> OptionsParse {
    options_from(args, 0, Options { download: false, install: false, force: false, yes: false })
}

pub open spec fn options_result_is(p: OptionsParse, r: Result<Invocation, OptionsError>) -> bool {
    match p {
        OptionsParse::Run(o) => r == Ok::<Invocation, OptionsError>(Invocation::Run(o)),
        OptionsParse::Help => r == Ok::<Invocation, OptionsError>(Invocation::Help),
        OptionsParse::Version => r == Ok::<Invocation, OptionsError>(Invocation::Version),
        OptionsParse::Unknown(a) => r matches Err(OptionsError::UnknownArgument { argument })
            && argument@ == a,
        OptionsParse::ForceWithoutDownload => r == Err::<Invocation, OptionsError>(
            OptionsError::ForceWithoutDownload,
        ),
        OptionsParse::YesWithoutInstall => r == Err::<Invocation, OptionsError>(
            OptionsError::YesWithoutInstall,
        ),
    }
}

/// Options that the Updater accepts hang together: installing downloads,
/// `--force` needs a download and `--yes` needs an install.
pub open spec fn coherent(o: Options) -> bool {
    &&& o.install ==> o.download
    &&& o.force ==> o.download
    &&& o.yes ==> o.install
}

proof fn lemma_options_from_coherent(args: Seq<Seq<char>>, i: int, o: Options)
    requires
        o.install ==> o.download,
    ensures
        options_from(args, i, o) matches OptionsParse::Run(p) ==> coherent(p),
    decreases args.len() - i,
{
    if 0 <= i < args.len() {
        lemma_options_from_coherent(args, i + 1, Options { download: true, ..o });
        lemma_options_from_coherent(args, i + 1, Options { force: true, ..o });
        lemma_options_from_coherent(args, i + 1, Options { install: true, download: true, ..o });
        lemma_options_from_coherent(args, i + 1, Options { yes: true, ..o });
    }
}

/// Reads the Updater's arguments (the program name excluded). `--help` and
/// `--version` stop the reading where they stand.
pub fn parse_options(args: &Vec<String>) -> (r: Result<Invocation, OptionsError>)
    ensures
        options_result_is(options_parse(args@.map_values(|s: String| s@)), r),
        r matches Ok(Invocation::Run(o)) ==> coherent(o),
{
    let ghost a = args@.map_values(|s: String| s@);
    proof {
        lemma_options_from_coherent(a, 0, Options { download: false, install: false, force: false, yes: false });
    }
    let mut o = Options { download: false, install: false, force: false, yes: false };
    let mut i: usize = 0;
    while i < args.len()
        invariant
            i <= args.len(),
            a == args@.map_values(|s: String| s@),
            options_parse(a) == options_from(a, i as int, o),
        decreases args.len() - i,
    {
        let s = args[i].as_str();
        assert(a[i as int] == args@[i as int]@);
        if str_eq(s, "--download") {
            o.download = true;
        } else if str_eq(s, "--force") {
            o.force = true;
        } else if str_eq(s, "--help") || str_eq(s, "-h") {
            return Ok(Invocation::Help);
        } else if str_eq(s, "--install") {
            o.install = true;
            o.download = true;
        } else if str_eq(s, "--yes") || str_eq(s, "-y") {
            o.yes = true;
        } else if str_eq(s, "--version") || str_eq(s, "-V") {
            return Ok(Invocation::Version);
        } else {
            return Err(OptionsError::UnknownArgument { argument: args[i].clone() });
        }
        i += 1;
    }
    if o.force && !o.download {
        return Err(OptionsError::ForceWithoutDownload);
    }
    if o.yes && !o.install {
        return Err(OptionsError::YesWithoutInstall);
    }
    Ok(Invocation::Run(o))
}

impl OptionsError {
    /// The message that the Updater reports for this error.
    pub fn message(&self) -> (r: String)
        ensures
            match self {
                OptionsError::UnknownArgument { argument } => r@ == "unknown argument `"@
                    + argument@ + "`"@,
                OptionsError::ForceWithoutDownload => r@
                    == "--force requires --download or --install"@,
                OptionsError::YesWithoutInstall => r@ == "--yes requires --install"@,
            },
    {
        let mut r = String::new();
        match self {
            OptionsError::UnknownArgument { argument } => {
                crate::text::push_str(&mut r, "unknown argument `");
                crate::text::push_str(&mut r, argument.as_str());
                crate::text::push_str(&mut r, "`");
            },
            OptionsError::ForceWithoutDownload => {
                crate::text::push_str(&mut r, "--force requires --download or --install");
            },
            OptionsError::YesWithoutInstall => {
                crate::text::push_str(&mut r, "--yes requires --install");
            },
        }
        r
    }
}

/// Whether an answer to the install prompt accepts: `y` or `yes`, in any
/// ASCII case, around white space.
pub open spec fn accepts(response: Seq<char>) -> bool {
    let a = ascii_lower(trim(response));
    a == "y"@ || a == "yes"@
}

/// Reads the answer to the install prompt.
pub fn confirms_install(response: &str) -> (r: bool)
    ensures
        r == accepts(response@),
{
    let v = chars_of(response);
    let (a, b) = trim_bounds(&v);
    let t = string_from(&v, a, b);
    let tv = chars_of(t.as_str());
    let l = lowercase_vec(&tv);
    let ls = crate::text::string_of(&l);
    str_eq(ls.as_str(), "y") || str_eq(ls.as_str(), "yes")
}

/// What the Updater does once the packages are downloaded.
#[derive(Debug, Clone, Copy, PartialEq, Eq, Structural)]
pub enum InstallStep {
    /// Nothing to install, or installing was not asked for.
    Skip,
    /// Ask before installing.
    Confirm,
    /// Install without asking.
    Proceed,
}

/// Installs happen when asked for and something was downloaded; without
/// `--yes` the user confirms first.
pub fn install_step(options: Options, package_count: usize) -> (r: InstallStep)
    ensures
        !(options.install && package_count > 0) ==> r == InstallStep::Skip,
        options.install && package_count > 0 && !options.yes ==> r == InstallStep::Confirm,
        options.install && package_count > 0 && options.yes ==> r == InstallStep::Proceed,
{
    if !options.install || package_count == 0 {
        InstallStep::Skip
    } else if !options.yes {
        InstallStep::Confirm
    } else {
        InstallStep::Proceed
    }
}

/// `flag` is among the arguments from position `i` on.
pub open spec fn given_from(args: Seq<Seq<char>>, i: int, flag: Seq<char>) -> bool {
    exists|j: int| i <= j < args.len() && args[j] == flag
}

proof fn lemma_given_step(args: Seq<Seq<char>>, i: int, flag: Seq<char>)
    requires
        0 <= i < args.len(),
    ensures
        given_from(args, i, flag) == (args[i] == flag || given_from(args, i + 1, flag)),
{
    if given_from(args, i, flag) && args[i] != flag {
        let j = choose|j: int| i <= j < args.len() && args[j] == flag;
        assert(i + 1 <= j);
    }
    if args[i] == flag {
        assert(given_from(args, i, flag));
    }
}

proof fn lemma_flags_differ()
    ensures
        "--download"@ != "--force"@,
        "--download"@ != "--install"@,
        "--download"@ != "--yes"@,
        "--download"@ != "-y"@,
        "--force"@ != "--install"@,
        "--force"@ != "--yes"@,
        "--force"@ != "-y"@,
        "--install"@ != "--yes"@,
        "--install"@ != "-y"@,
        "--yes"@ != "-y"@,
{
    reveal_strlit("--download");
    reveal_strlit("--force");
    reveal_strlit("--install");
    reveal_strlit("--yes");
    reveal_strlit("-y");
    assert("--download"@[2] != "--force"@[2]);
    assert("--download"@[2] != "--install"@[2]);
    assert("--download"@[2] != "--yes"@[2]);
    assert("--force"@[2] != "--install"@[2]);
    assert("--force"@[2] != "--yes"@[2]);
    assert("--install"@[2] != "--yes"@[2]);
    assert("--download"@.len() != "-y"@.len());
    assert("--force"@.len() != "-y"@.len());
    assert("--install"@.len() != "-y"@.len());
    assert("--yes"@.len() != "-y"@.len());
}

proof fn lemma_options_from_flags(args: Seq<Seq<char>>, i: int, o: Options)
    requires
        0 <= i <= args.len(),
    ensures
        options_from(args, i, o) matches OptionsParse::Run(p) ==> {
            &&& p.download == (o.download || given_from(args, i, "--download"@) || given_from(
                args,
                i,
                "--install"@,
            ))
            &&& p.install == (o.install || given_from(args, i, "--install"@))
            &&& p.force == (o.force || given_from(args, i, "--force"@))
            &&& p.yes == (o.yes || given_from(args, i, "--yes"@) || given_from(args, i, "-y"@))
        },
    decreases args.len() - i,
{
    if i < args.len() {
        lemma_flags_differ();
        lemma_given_step(args, i, "--download"@);
        lemma_given_step(args, i, "--install"@);
        lemma_given_step(args, i, "--force"@);
        lemma_given_step(args, i, "--yes"@);
        lemma_given_step(args, i, "-y"@);
        lemma_options_from_flags(args, i + 1, Options { download: true, ..o });
        lemma_options_from_flags(args, i + 1, Options { force: true, ..o });
        lemma_options_from_flags(args, i + 1, Options { install: true, download: true, ..o });
        lemma_options_from_flags(args, i + 1, Options { yes: true, ..o });
    }
}

/// Each option of a run comes from its own flag and from nothing else:
/// `--force` is set exactly when `--force` is given, `--yes` exactly when
/// `--yes` or `-y` is, `--install` exactly when `--install` is, and
/// downloading exactly when `--download` or `--install` is. So
/// `--download` alone downloads only what has an update.
pub proof fn law_options_follow_flags(args: Seq<Seq<char>>)
    ensures
        options_parse(args) matches OptionsParse::Run(o) ==> {
            &&& o.force == given_from(args, 0, "--force"@)
            &&& o.yes == (given_from(args, 0, "--yes"@) || given_from(args, 0, "-y"@))
            &&& o.install == given_from(args, 0, "--install"@)
            &&& o.download == (given_from(args, 0, "--download"@) || given_from(
                args,
                0,
                "--install"@,
            ))
        },
{
    lemma_options_from_flags(
        args,
        0,
        Options { download: false, install: false, force: false, yes: false },
    );
}

} // verus!
