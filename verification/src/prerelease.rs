//! What stands in the way of a release: notes left in the sources.

use vstd::prelude::*;
use vstd::string::StringExecFns;
use crate::text::{
    chars_contain, chars_of, decimal, decimal_text, lines_of, occurs_in, split_lines, texts, trim,
    trimmed,
};

verus! {

/// Settings for the checks before a release.
#[derive(Debug, Clone, Copy, PartialEq, Eq, Default)]
pub struct PrereleaseConfig {
    /// If true, the package opts out of the checks.
    pub skip: bool,
}

/// Whether `line` holds a note that should be dealt with before a release,
/// or something that may not be released at all.
pub open spec fn blocks_release(line: Seq<char>) -> bool {
    ||| occurs_in(line, "// TODO"@)
    ||| occurs_in(line, "/* TODO"@)
    ||| occurs_in(line, "// FIXME"@)
    ||| occurs_in(line, "/* FIXME"@)
    ||| occurs_in(line, "\"TBD\""@)
    ||| occurs_in(line, "doc_auto_cfg"@)
}

/// Whether `line` holds `pattern`.
fn holds(line: &Vec<char>, pattern: &str) -> (yes: bool)
    ensures
        yes == occurs_in(line@, pattern@),
{
    let needle = chars_of(pattern);
    chars_contain(line, &needle)
}

/// Whether a line of source stands in the way of a release: it holds a
/// `TODO` or `FIXME` comment, a `"TBD"` text, or `doc_auto_cfg`.
pub fn is_blocker(line: &str) -> (yes: bool)
    ensures
        yes == blocks_release(line@),
{
    let chars = chars_of(line);
    holds(&chars, "// TODO") || holds(&chars, "/* TODO") || holds(&chars, "// FIXME") || holds(
        &chars,
        "/* FIXME",
    ) || holds(&chars, "\"TBD\"") || holds(&chars, "doc_auto_cfg")
}

/// A line that stands in the way of a release.
#[derive(Debug, Clone, PartialEq, Eq)]
pub struct Issue {
    /// The file that holds the line.
    pub file: String,
    /// The number of the line in the file, counted from zero.
    pub line: usize,
    /// The line.
    pub text: String,
}

/// What an [`Issue`] stands for.
pub struct IssueModel {
    pub file: Seq<char>,
    pub line: nat,
    pub text: Seq<char>,
}

impl View for Issue {
    type V = IssueModel;

    open spec fn view(&self) -> IssueModel {
        IssueModel { file: self.file@, line: self.line as nat, text: self.text@ }
    }
}

/// The models of a sequence of issues, position by position.
pub open spec fn issue_models(issues: Seq<Issue>) -> Seq<IssueModel> {
    Seq::new(issues.len(), |i: int| issues[i]@)
}

/// The issues among the first `upto` lines of `file`.
pub open spec fn issues_among(file: Seq<char>, lines: Seq<Seq<char>>, upto: int) -> Seq<IssueModel>
    decreases upto,
{
    if upto <= 0 {
        Seq::empty()
    } else {
        let earlier = issues_among(file, lines, upto - 1);
        if blocks_release(lines[upto - 1]) {
            earlier.push(IssueModel { file, line: (upto - 1) as nat, text: lines[upto - 1] })
        } else {
            earlier
        }
    }
}

/// The lines of `contents`, the text of the file at `file`, that stand in
/// the way of a release, in order.
pub fn scan_source(file: &str, contents: &str) -> (issues: Vec<Issue>)
    ensures
        issue_models(issues@) == issues_among(
            file@,
            lines_of(contents@),
            lines_of(contents@).len() as int,
        ),
{
    let lines = split_lines(contents);
    let mut issues: Vec<Issue> = Vec::new();
    let mut k: usize = 0;
    assert(issue_models(issues@) =~= issues_among(file@, texts(lines@), 0));
    while k < lines.len()
        invariant
            k <= lines@.len(),
            issue_models(issues@) == issues_among(file@, texts(lines@), k as int),
        decreases lines@.len() - k,
    {
        if is_blocker(lines[k].as_str()) {
            let ghost before = issue_models(issues@);
            let issue = Issue { file: file.to_owned(), line: k, text: lines[k].clone() };
            issues.push(issue);
            assert(issue_models(issues@) =~= before.push(
                IssueModel { file: file@, line: k as nat, text: lines@[k as int]@ },
            ));
        }
        k += 1;
    }
    issues
}

impl Issue {
    /// The line that reports this issue.
    pub open spec fn report_text(&self) -> Seq<char> {
        self.file@ + ":"@ + decimal_text(self.line as nat) + ":"@ + trimmed(self.text@)
    }

    /// The line to show for this issue: the file, the line number and the
    /// line without the white space around it, separated by colons.
    pub fn report_line(&self) -> (line: String)
        ensures
            line@ == self.report_text(),
    {
        let mut line = self.file.clone();
        line.append(":");
        line.append(decimal(self.line).as_str());
        line.append(":");
        line.append(trim(self.text.as_str()));
        line
    }
}

/// The heading above the issues found.
pub fn issues_heading(count: usize) -> (text: String)
    ensures
        text@ == "Found "@ + decimal_text(count as nat) + " pre-release issue(s):"@,
{
    let mut text = String::from_str("Found ");
    text.append(decimal(count).as_str());
    text.append(" pre-release issue(s):");
    text
}

/// The error with which the checks fail when issues were found.
pub fn issues_message(count: usize) -> (text: String)
    ensures
        text@ == "Found "@ + decimal_text(count as nat) + " pre-release issues"@,
{
    let mut text = String::from_str("Found ");
    text.append(decimal(count).as_str());
    text.append(" pre-release issues");
    text
}

} // verus!
