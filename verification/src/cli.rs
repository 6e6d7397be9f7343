//! What the command line asks for, and what follows from it before a task
//! runs.

use vstd::prelude::*;
use vstd::string::StringExecFns;
use crate::text::texts;
use crate::toolchain::Toolchain;

verus! {

/// A task of the tool.
#[derive(Debug, Clone, Copy, PartialEq, Eq, Structural)]
pub enum Task {
    /// Run the linter for the workspace and all crates.
    Lint,
    /// Build documentation with the stable toolchain.
    Docs,
    /// Build documentation with the nightly toolchain, as the documentation
    /// host does.
    Docsrs,
    /// Run benchmark tests for all crates.
    Bench,
    /// Run tests with a given toolchain.
    Test,
    /// Run the integration tests.
    Integration,
    /// Update the minimal and the recent lock file.
    Lock,
    /// Run the checks before a release.
    Prerelease,
    /// Check the public API.
    Api,
}

impl Task {
    /// Whether a lock file named on the command line is restored before this
    /// task runs: before every task but the one that writes the lock files
    /// and the integration tests, which keep lock files of their own.
    pub fn restores_lock_file(self) -> (restored: bool)
        ensures
            restored == !(self == Task::Lock || self == Task::Integration),
    {
        match self {
            Task::Lock | Task::Integration => false,
            _ => true,
        }
    }
}

/// `args` without the name of the subcommand, which the build tool puts
/// behind the program's name when it runs the program as a subcommand.
pub open spec fn without_subcommand(args: Seq<Seq<char>>) -> Seq<Seq<char>> {
    if args.len() > 1 && args[1] == "rbmt"@ {
        args.remove(1)
    } else {
        args
    }
}

/// The arguments of the program without the subcommand's name: run as
/// `cargo rbmt test`, the program is handed `cargo-rbmt rbmt test`.
pub fn strip_subcommand(args: Vec<String>) -> (rest: Vec<String>)
    ensures
        texts(rest@) == without_subcommand(texts(args@)),
{
    let mut args = args;
    let ghost before = texts(args@);
    if args.len() > 1 && crate::text::text_eq(args[1].as_str(), "rbmt") {
        args.remove(1);
        assert(texts(args@) =~= before.remove(1));
    }
    args
}

/// Whether the value of the variable that sets the log level asks for quiet
/// output: it is set, and reads `quiet`.
pub fn is_quiet(log_level: Option<&str>) -> (quiet: bool)
    ensures
        quiet == (log_level matches Some(value) && value@ == "quiet"@),
{
    match log_level {
        Some(value) => crate::text::text_eq(value, "quiet"),
        None => false,
    }
}

/// The name of the variable that sets the log level.
pub fn log_level_variable() -> (name: &'static str)
    ensures
        name@ == "RBMT_LOG_LEVEL"@,
{
    "RBMT_LOG_LEVEL"
}

/// The value of `CARGO_TERM_VERBOSE` and the value of `CARGO_TERM_QUIET`
/// for a run that is quiet or not.
pub fn cargo_term_settings(quiet: bool) -> (settings: (&'static str, &'static str))
    ensures
        settings.0@ == if quiet {
            "false"@
        } else {
            "true"@
        },
        settings.1@ == if quiet {
            "true"@
        } else {
            "false"@
        },
{
    if quiet {
        ("false", "true")
    } else {
        ("true", "false")
    }
}

/// The flags of the package filter: `-p` and the name, for each package.
pub open spec fn package_filter(packages: Seq<Seq<char>>) -> Seq<Seq<char>> {
    Seq::new(
        2 * packages.len(),
        |i: int|
            if i % 2 == 0 {
                "-p"@
            } else {
                packages[i / 2]
            },
    )
}

/// The arguments that narrow a build to `packages`.
pub fn package_filter_args(packages: &Vec<String>) -> (args: Vec<String>)
    ensures
        texts(args@) == package_filter(texts(packages@)),
{
    let mut args: Vec<String> = Vec::new();
    let mut k: usize = 0;
    while k < packages.len()
        invariant
            k <= packages@.len(),
            args@.len() == 2 * k,
            forall|i: int| 0 <= i < k ==> (#[trigger] args@[2 * i])@ == "-p"@,
            forall|i: int| 0 <= i < k ==> (#[trigger] args@[2 * i + 1])@ == packages@[i]@,
        decreases packages@.len() - k,
    {
        args.push(String::from_str("-p"));
        args.push(packages[k].clone());
        k += 1;
    }
    proof {
        let want = package_filter(texts(packages@));
        assert(texts(args@).len() == want.len());
        assert forall|i: int| 0 <= i < want.len() implies texts(args@)[i] == want[i] by {
            if i % 2 == 0 {
                assert(args@[2 * (i / 2)]@ == "-p"@);
            } else {
                assert(args@[2 * (i / 2) + 1]@ == packages@[i / 2]@);
            }
        }
        assert(texts(args@) =~= want);
    }
    args
}

/// Which documentation is built.
#[derive(Debug, Clone, Copy, PartialEq, Eq, Structural)]
pub enum DocsBuild {
    /// The documentation as users build it.
    Users,
    /// The documentation as the documentation host builds it.
    Host,
}

impl DocsBuild {
    /// The toolchain that this build needs.
    pub fn toolchain(self) -> (required: Toolchain)
        ensures
            required == match self {
                DocsBuild::Users => Toolchain::Stable,
                DocsBuild::Host => Toolchain::Nightly,
            },
    {
        match self {
            DocsBuild::Users => Toolchain::Stable,
            DocsBuild::Host => Toolchain::Nightly,
        }
    }

    /// The flags handed to the documentation tool for this build.
    pub fn rustdoc_flags(self) -> (flags: &'static str)
        ensures
            flags@ == match self {
                DocsBuild::Users => "-D warnings"@,
                DocsBuild::Host => "--cfg docsrs -D warnings -D rustdoc::broken-intra-doc-links"@,
            },
    {
        match self {
            DocsBuild::Users => "-D warnings",
            DocsBuild::Host => "--cfg docsrs -D warnings -D rustdoc::broken-intra-doc-links",
        }
    }
}

} // verus!
