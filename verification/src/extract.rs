//! What the extraction of a snapshot needs to know: how the documentation
//! tool is invoked for a feature configuration, where its output and the
//! committed snapshots live, and how a check is carried out.

use vstd::prelude::*;
use vstd::string::{StrSliceExecFns, StringExecFns};
use crate::catalog::FeatureConfig;
use crate::text::{char_is_space, chars_of, is_space};

verus! {

/// Directory where API files are stored, relative to workspace root.
pub fn api_dir() -> (dir: &'static str)
    ensures
        dir@ == "api"@,
{
    "api"
}

/// The flags handed to the documentation tool through `RUSTDOCFLAGS`.
///
/// With few features enabled, documentation links may point at items that do
/// not exist; such links are allowed, so that only API changes count.
pub fn rustdoc_flags() -> (flags: &'static str)
    ensures
        flags@ == "-A rustdoc::broken_intra_doc_links"@,
{
    "-A rustdoc::broken_intra_doc_links"
}

/// The arguments of the `cargo` invocation that documents a package under
/// `config` as JSON.
pub open spec fn rustdoc_arg_texts(config: FeatureConfig) -> Seq<Seq<char>> {
    seq!["rustdoc"@] + config.cargo_arg_texts() + seq![
        "--"@,
        "-Z"@,
        "unstable-options"@,
        "--output-format"@,
        "json"@,
    ]
}

/// The arguments to run `cargo` with in order to document a package under
/// `config` as JSON: the subcommand, the flags of the configuration, and the
/// options that select the output format.
pub fn rustdoc_args(config: FeatureConfig) -> (args: Vec<&'static str>)
    ensures
        args@.len() == rustdoc_arg_texts(config).len(),
        forall|i: int|
            0 <= i < args@.len() ==> (#[trigger] args@[i])@ == rustdoc_arg_texts(config)[i],
{
    let flags = config.cargo_args();
    let mut args: Vec<&'static str> = Vec::new();
    args.push("rustdoc");
    let mut k: usize = 0;
    while k < flags.len()
        invariant
            k <= flags@.len(),
            flags@.len() == config.cargo_arg_texts().len(),
            forall|i: int|
                0 <= i < flags@.len() ==> (#[trigger] flags@[i])@ == config.cargo_arg_texts()[i],
            args@.len() == k + 1,
            args@[0]@ == "rustdoc"@,
            forall|i: int| 0 <= i < k ==> (#[trigger] args@[i + 1])@ == config.cargo_arg_texts()[i],
        decreases flags@.len() - k,
    {
        args.push(flags[k]);
        k += 1;
    }
    args.push("--");
    args.push("-Z");
    args.push("unstable-options");
    args.push("--output-format");
    args.push("json");
    proof {
        let want = rustdoc_arg_texts(config);
        let n = config.cargo_arg_texts().len() as int;
        assert(want.len() == n + 6);
        assert forall|i: int| 0 <= i < args@.len() implies (#[trigger] args@[i])@ == want[i] by {
            if i == 0 {
            } else if i <= n {
                assert(args@[(i - 1) + 1]@ == config.cargo_arg_texts()[i - 1]);
            } else {
            }
        }
    }
    args
}

/// The name of a package as the documentation tool writes it in the name of
/// its output file: every hyphen becomes an underscore.
pub open spec fn doc_name_text(package: Seq<char>) -> Seq<char> {
    Seq::new(
        package.len(),
        |i: int|
            if package[i] == '-' {
                '_'
            } else {
                package[i]
            },
    )
}

/// The name of the file, without directory, into which the documentation
/// tool writes the JSON for `package`.
pub open spec fn doc_file_text(package: Seq<char>) -> Seq<char> {
    doc_name_text(package) + ".json"@
}

/// The name of the JSON file that the documentation tool writes for
/// `package_name`, to be looked for in the `doc` directory of the target
/// directory.
pub fn doc_file_name(package_name: &str) -> (file: String)
    ensures
        file@ == doc_file_text(package_name@),
{
    let chars = chars_of(package_name);
    let mut file = String::new();
    let mut k: usize = 0;
    proof {
        reveal_strlit("_");
    }
    while k < chars.len()
        invariant
            k <= chars@.len(),
            chars@ == package_name@,
            file@ == doc_name_text(package_name@.take(k as int)),
            "_"@ == seq!['_'],
        decreases chars@.len() - k,
    {
        let ghost before = file@;
        if chars[k] == '-' {
            file.append("_");
        } else {
            file.append(package_name.substring_char(k, k + 1));
            assert(package_name@.subrange(k as int, k + 1) =~= seq![package_name@[k as int]]);
        }
        assert(file@ =~= doc_name_text(package_name@.take(k + 1)));
        k += 1;
    }
    assert(package_name@.take(k as int) =~= package_name@);
    file.append(".json");
    file
}

/// Whether the status listing of the snapshot directory names a change: it
/// holds something other than white space.
pub open spec fn reports_change(status: Seq<char>) -> bool {
    exists|i: int| 0 <= i < status.len() && !is_space(#[trigger] status[i])
}

/// Whether the working-tree status over the snapshot directory shows that the
/// snapshots just written differ from the committed ones.
pub fn has_drift(status_output: &str) -> (drift: bool)
    ensures
        drift == reports_change(status_output@),
{
    let chars = chars_of(status_output);
    let mut k: usize = 0;
    while k < chars.len()
        invariant
            k <= chars@.len(),
            chars@ == status_output@,
            forall|i: int| 0 <= i < k ==> is_space(#[trigger] chars@[i]),
        decreases chars@.len() - k,
    {
        if !char_is_space(chars[k]) {
            assert(!is_space(status_output@[k as int]));
            return true;
        }
        k += 1;
    }
    false
}

/// What to tell the user when the snapshots drifted.
pub fn drift_message() -> (text: &'static str)
    ensures
        text@
            == "You have introduced changes to the public API, commit the changes to api/ currently in your working directory"@,
{
    "You have introduced changes to the public API, commit the changes to api/ currently in your working directory"
}

/// How a check is carried out.
#[derive(Debug, Clone, PartialEq, Eq)]
pub enum CheckMode {
    /// No baseline: check that features are additive, write the snapshots,
    /// and fail if they differ from the committed ones.
    LocalDrift,
    /// Compare the current revision against the given baseline reference;
    /// nothing is written.
    Semver(String),
}

impl CheckMode {
    /// The mode that a request selects: the comparison against `baseline`
    /// where one is given, local drift detection otherwise.
    pub fn select(baseline: Option<String>) -> (mode: CheckMode)
        ensures
            baseline is None ==> mode == CheckMode::LocalDrift,
            baseline matches Some(reference) ==> mode == CheckMode::Semver(reference),
    {
        match baseline {
            Some(reference) => CheckMode::Semver(reference),
            None => CheckMode::LocalDrift,
        }
    }

    /// Whether the additive rule is checked in this mode.
    pub fn checks_additivity(&self) -> (checked: bool)
        ensures
            checked == (*self == CheckMode::LocalDrift),
    {
        match self {
            CheckMode::LocalDrift => true,
            CheckMode::Semver(_) => false,
        }
    }

    /// Whether snapshot files are written and compared in this mode.
    pub fn writes_snapshots(&self) -> (written: bool)
        ensures
            written == (*self == CheckMode::LocalDrift),
    {
        match self {
            CheckMode::LocalDrift => true,
            CheckMode::Semver(_) => false,
        }
    }
}

} // verus!
