//! What the lint task reports: duplicate dependencies and settings that
//! moved elsewhere.

use vstd::prelude::*;
use vstd::string::StringExecFns;
use crate::text::{chars_contain, chars_of, join2, lines_of, occurs_in, split_lines, texts};

verus! {

/// Settings for linting.
#[derive(Debug, Clone, PartialEq, Eq, Default)]
pub struct LintConfig {
    /// List of crate names that are allowed to have duplicate versions.
    pub allowed_duplicates: Vec<String>,
}

/// Whether `c` is a letter or a number in the sense of Unicode, as
/// `char::is_alphanumeric` tells it.
pub uninterp spec fn alphanumeric(c: char) -> bool;

/// Calls `char::is_alphanumeric`.
///
/// The contract claims only that the answer depends on the character alone,
/// as named by [`alphanumeric`].
#[verifier::external_body]
fn is_alphanumeric(c: char) -> (yes: bool)
    ensures
        yes == alphanumeric(c),
{
    c.is_alphanumeric()
}

/// Whether `line` of a dependency listing names a crate: it starts with a
/// letter or a number, not with the drawing of a tree or with a blank.
pub open spec fn names_crate(line: Seq<char>) -> bool {
    line.len() > 0 && alphanumeric(line[0])
}

/// Whether `line` holds one of the `allowed` texts.
pub open spec fn is_allowed(line: Seq<char>, allowed: Seq<String>) -> bool {
    exists|i: int| 0 <= i < allowed.len() && occurs_in(line, (#[trigger] allowed[i])@)
}

/// The lines among the first `upto` of `lines` that are flagged in `named`
/// and hold none of the `allowed` texts, in order. A line without a flag
/// counts as not flagged.
pub open spec fn kept_lines(
    lines: Seq<Seq<char>>,
    named: Seq<bool>,
    allowed: Seq<String>,
    upto: int,
) -> Seq<Seq<char>>
    decreases upto,
{
    if upto <= 0 {
        Seq::empty()
    } else {
        let earlier = kept_lines(lines, named, allowed, upto - 1);
        if upto - 1 < named.len() && named[upto - 1] && !is_allowed(lines[upto - 1], allowed) {
            earlier.push(lines[upto - 1])
        } else {
            earlier
        }
    }
}

/// For each line, whether it names a crate.
pub open spec fn crate_flags(lines: Seq<Seq<char>>) -> Seq<bool> {
    Seq::new(lines.len(), |i: int| names_crate(lines[i]))
}

/// The lines among `lines` that name a crate and hold none of the `allowed`
/// texts, in order.
pub open spec fn duplicates_among(lines: Seq<Seq<char>>, allowed: Seq<String>) -> Seq<Seq<char>> {
    kept_lines(lines, crate_flags(lines), allowed, lines.len() as int)
}

/// Whether `line` holds one of the `allowed` texts.
fn line_is_allowed(line: &Vec<char>, allowed: &Vec<String>) -> (yes: bool)
    ensures
        yes == is_allowed(line@, allowed@),
{
    let mut k: usize = 0;
    while k < allowed.len()
        invariant
            k <= allowed@.len(),
            forall|i: int| 0 <= i < k ==> !occurs_in(line@, (#[trigger] allowed@[i])@),
        decreases allowed@.len() - k,
    {
        let needle = chars_of(allowed[k].as_str());
        if chars_contain(line, &needle) {
            return true;
        }
        k += 1;
    }
    false
}

/// Whether `line` names a crate: whether it starts with a letter or a
/// number.
pub fn starts_alphanumeric(line: &str) -> (yes: bool)
    ensures
        yes == names_crate(line@),
{
    let chars = chars_of(line);
    chars.len() > 0 && is_alphanumeric(chars[0])
}

/// The lines that are flagged in `named` and hold none of the `allowed`
/// texts, in order. A line without a flag counts as not flagged.
pub fn keep_duplicates(lines: &Vec<String>, named: &Vec<bool>, allowed: &Vec<String>) -> (kept: Vec<
    String,
>)
    ensures
        texts(kept@) == kept_lines(texts(lines@), named@, allowed@, lines@.len() as int),
{
    let mut kept: Vec<String> = Vec::new();
    let mut k: usize = 0;
    assert(texts(kept@) =~= kept_lines(texts(lines@), named@, allowed@, 0));
    while k < lines.len()
        invariant
            k <= lines@.len(),
            texts(kept@) == kept_lines(texts(lines@), named@, allowed@, k as int),
        decreases lines@.len() - k,
    {
        if k < named.len() && named[k] {
            let chars = chars_of(lines[k].as_str());
            if !line_is_allowed(&chars, allowed) {
                let ghost before = kept@;
                kept.push(lines[k].clone());
                assert(texts(kept@) =~= texts(before).push(lines@[k as int]@));
            }
        }
        k += 1;
    }
    kept
}

/// Only the flags of the lines that are read count.
pub proof fn kept_lines_read_their_flags(
    lines: Seq<Seq<char>>,
    first: Seq<bool>,
    second: Seq<bool>,
    allowed: Seq<String>,
    upto: int,
)
    requires
        upto <= first.len(),
        upto <= second.len(),
        forall|i: int| 0 <= i < upto ==> first[i] == second[i],
    ensures
        kept_lines(lines, first, allowed, upto) == kept_lines(lines, second, allowed, upto),
    decreases upto,
{
    if upto > 0 {
        kept_lines_read_their_flags(lines, first, second, allowed, upto - 1);
    }
}

/// The duplicate dependencies that the listing `tree_output` shows: its
/// lines that name a crate, but for the crates that are allowed to occur in
/// several versions.
pub fn find_duplicates(tree_output: &str, allowed: &Vec<String>) -> (duplicates: Vec<String>)
    ensures
        texts(duplicates@) == duplicates_among(lines_of(tree_output@), allowed@),
{
    let lines = split_lines(tree_output);
    let mut named: Vec<bool> = Vec::new();
    let mut k: usize = 0;
    while k < lines.len()
        invariant
            k <= lines@.len(),
            named@.len() == k,
            forall|i: int| 0 <= i < k ==> named@[i] == names_crate(#[trigger] lines@[i]@),
        decreases lines@.len() - k,
    {
        named.push(starts_alphanumeric(lines[k].as_str()));
        k += 1;
    }
    proof {
        kept_lines_read_their_flags(
            texts(lines@),
            named@,
            crate_flags(texts(lines@)),
            allowed@,
            lines@.len() as int,
        );
    }
    keep_duplicates(&lines, &named, allowed)
}

/// One line per entry, each behind two blanks.
pub open spec fn indented(entries: Seq<Seq<char>>) -> Seq<Seq<char>> {
    Seq::new(entries.len(), |i: int| "  "@ + entries[i])
}

/// Appends one indented line per entry.
fn push_indented(lines: &mut Vec<String>, entries: &Vec<String>)
    ensures
        texts(final(lines)@) == texts(old(lines)@) + indented(texts(entries@)),
{
    let ghost start = texts(lines@);
    let mut k: usize = 0;
    assert(texts(lines@) =~= start + indented(texts(entries@).take(0)));
    while k < entries.len()
        invariant
            k <= entries@.len(),
            texts(lines@) == start + indented(texts(entries@).take(k as int)),
        decreases entries@.len() - k,
    {
        let ghost before = texts(lines@);
        let line = join2("  ", entries[k].as_str());
        lines.push(line);
        assert(texts(lines@) =~= before.push(line@));
        assert(texts(lines@) =~= start + indented(texts(entries@).take(k + 1)));
        k += 1;
    }
    assert(texts(entries@).take(k as int) =~= texts(entries@));
}

/// What to show when duplicates were found: a heading and the duplicates.
pub fn duplicates_report(duplicates: &Vec<String>) -> (lines: Vec<String>)
    ensures
        texts(lines@) == seq!["Error: Found duplicate dependencies in workspace!"@] + indented(
            texts(duplicates@),
        ),
{
    let mut lines: Vec<String> = Vec::new();
    lines.push(String::from_str("Error: Found duplicate dependencies in workspace!"));
    assert(texts(lines@) =~= seq!["Error: Found duplicate dependencies in workspace!"@]);
    push_indented(&mut lines, duplicates);
    lines
}

/// The error with which the lint task fails on duplicates.
pub fn duplicates_message() -> (text: &'static str)
    ensures
        text@ == "Dependency tree contains duplicates"@,
{
    "Dependency tree contains duplicates"
}

/// The names under which a configuration file for the linter is looked for.
pub fn clippy_config_files() -> (names: Vec<&'static str>)
    ensures
        names@.len() == 2,
        names@[0]@ == "clippy.toml"@,
        names@[1]@ == ".clippy.toml"@,
{
    vec!["clippy.toml", ".clippy.toml"]
}

/// What to show when linter configuration files set the minimum supported
/// version, which belongs in the manifest: a heading and the files.
pub fn misplaced_msrv_report(files: &Vec<String>) -> (lines: Vec<String>)
    ensures
        texts(lines@) == seq![
            "\nError: Found MSRV in clippy.toml, use Cargo.toml package.rust-version instead:"@,
        ] + indented(texts(files@)),
{
    let mut lines: Vec<String> = Vec::new();
    lines.push(
        String::from_str(
            "\nError: Found MSRV in clippy.toml, use Cargo.toml package.rust-version instead:",
        ),
    );
    assert(texts(lines@) =~= seq![
        "\nError: Found MSRV in clippy.toml, use Cargo.toml package.rust-version instead:"@,
    ]);
    push_indented(&mut lines, files);
    lines
}

/// The error with which the lint task fails on a misplaced minimum
/// supported version.
pub fn misplaced_msrv_message() -> (text: &'static str)
    ensures
        text@ == "MSRV should be specified in Cargo.toml, not clippy.toml"@,
{
    "MSRV should be specified in Cargo.toml, not clippy.toml"
}

} // verus!
