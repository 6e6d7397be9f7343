//! Which compiler a task needs, and whether the one at hand will do.

use vstd::prelude::*;
use vstd::string::{StrSliceExecFns, StringExecFns};
use crate::text::{
    char_is_digit, char_is_space, chars_of, is_digit, is_space, join2, occurs_in, text_contains,
    text_eq,
};

verus! {

/// Toolchain requirement for a task.
#[derive(Debug, Clone, Copy, PartialEq, Eq, Structural)]
pub enum Toolchain {
    /// Nightly toolchain.
    Nightly,
    /// Stable toolchain.
    Stable,
    /// Minimum Supported Rust Version.
    Msrv,
}

/// Whether `from..to` is a word of `text`: a run of characters other than
/// white space that cannot be extended on either side.
pub open spec fn is_word(text: Seq<char>, from: int, to: int) -> bool {
    &&& 0 <= from < to <= text.len()
    &&& forall|k: int| from <= k < to ==> !is_space(#[trigger] text[k])
    &&& (from == 0 || is_space(text[from - 1]))
    &&& (to == text.len() || is_space(text[to]))
}

/// Whether the part of the word `from..to` before any suffix such as
/// `-nightly` ends at `end`: at the first hyphen of the word, or at the end
/// of a word without one.
pub open spec fn is_stem_end(text: Seq<char>, from: int, to: int, end: int) -> bool {
    &&& from <= end <= to
    &&& forall|k: int| from <= k < end ==> #[trigger] text[k] != '-'
    &&& (end == to || text[end] == '-')
}

/// Number of full stops in `part`.
pub open spec fn dot_count(part: Seq<char>) -> nat
    decreases part.len(),
{
    if part.len() == 0 {
        0
    } else {
        dot_count(part.drop_last()) + if part.last() == '.' {
            1nat
        } else {
            0nat
        }
    }
}

/// Whether `part` has the shape of a version number: three runs of decimal
/// digits, separated by two full stops.
pub open spec fn is_version_number(part: Seq<char>) -> bool {
    &&& dot_count(part) == 2
    &&& forall|k: int| 0 <= k < part.len() ==> #[trigger] part[k] == '.' || is_digit(part[k])
}

/// Whether the word `from..to` of `text` has a stem `from..end` that is a
/// version number.
pub open spec fn version_at(text: Seq<char>, from: int, to: int, end: int) -> bool {
    &&& is_word(text, from, to)
    &&& is_stem_end(text, from, to, end)
    &&& is_version_number(text.subrange(from, end))
}

/// Whether `found` is what a reader of `text` finds as its version: the
/// version-number stem of the first word that has one, and nothing where no
/// word has one.
pub open spec fn is_first_version(text: Seq<char>, found: Option<Seq<char>>) -> bool {
    match found {
        Some(version) => exists|from: int, to: int, end: int|
            {
                &&& version_at(text, from, to, end)
                &&& version == text.subrange(from, end)
                &&& forall|f: int, t: int, e: int| f < from ==> !version_at(text, f, t, e)
            },
        None => forall|f: int, t: int, e: int| !version_at(text, f, t, e),
    }
}

/// A text has one first version at most.
pub proof fn first_version_is_unique(text: Seq<char>, a: Option<Seq<char>>, b: Option<Seq<char>>)
    requires
        is_first_version(text, a),
        is_first_version(text, b),
    ensures
        a == b,
{
    if a is Some && b is Some {
        let (f1, t1, e1) = choose|from: int, to: int, end: int|
            {
                &&& version_at(text, from, to, end)
                &&& a->0 == text.subrange(from, end)
                &&& forall|f: int, t: int, e: int| f < from ==> !version_at(text, f, t, e)
            };
        let (f2, t2, e2) = choose|from: int, to: int, end: int|
            {
                &&& version_at(text, from, to, end)
                &&& b->0 == text.subrange(from, end)
                &&& forall|f: int, t: int, e: int| f < from ==> !version_at(text, f, t, e)
            };
        assert(f1 == f2);
        if t1 < t2 {
            assert(!is_space(text[t1]));
        } else if t2 < t1 {
            assert(!is_space(text[t2]));
        }
        assert(t1 == t2);
        if e1 < e2 {
            assert(text[e1] != '-');
        } else if e2 < e1 {
            assert(text[e2] != '-');
        }
        assert(e1 == e2);
    }
}

/// Number of full stops among `chars[from..to]`, and whether every other
/// character there is a decimal digit.
fn scan_version(chars: &Vec<char>, from: usize, to: usize) -> (scan: (usize, bool))
    requires
        from <= to <= chars@.len(),
    ensures
        scan.0 == dot_count(chars@.subrange(from as int, to as int)),
        scan.1 == forall|k: int|
            0 <= k < to - from ==> #[trigger] chars@.subrange(from as int, to as int)[k] == '.'
                || is_digit(chars@.subrange(from as int, to as int)[k]),
{
    let mut dots: usize = 0;
    let mut clean = true;
    let mut k: usize = from;
    assert(chars@.subrange(from as int, from as int) =~= Seq::<char>::empty());
    while k < to
        invariant
            from <= k <= to <= chars@.len(),
            dots <= k - from,
            dots == dot_count(chars@.subrange(from as int, k as int)),
            clean == forall|j: int| from <= j < k ==> #[trigger] chars@[j] == '.' || is_digit(chars@[j]),
        decreases to - k,
    {
        proof {
            let longer = chars@.subrange(from as int, k + 1);
            assert(longer.drop_last() =~= chars@.subrange(from as int, k as int));
            assert(longer.last() == chars@[k as int]);
        }
        let c = chars[k];
        if c == '.' {
            dots += 1;
        } else if !char_is_digit(c) {
            clean = false;
        }
        k += 1;
    }
    proof {
        let part = chars@.subrange(from as int, to as int);
        if clean {
            assert forall|j: int| 0 <= j < to - from implies #[trigger] part[j] == '.' || is_digit(
                part[j],
            ) by {
                assert(part[j] == chars@[from + j]);
            }
        } else {
            let j = choose|j: int| from <= j < to && !(#[trigger] chars@[j] == '.' || is_digit(chars@[j]));
            assert(part[j - from] == chars@[j]);
        }
    }
    (dots, clean)
}

/// Extract version number from rustc --version output.
/// Example: "rustc 1.74.0 (79e9716c9 2023-11-13)" -> Some("1.74.0")
///
/// The text is read word by word. A word counts up to its first hyphen, which
/// drops a suffix like `-nightly`. The result is that part of the first word
/// in which it is a version number, and `None` where no word has one.
pub fn extract_version<'a>(rustc_version: &'a str) -> (found: Option<&'a str>)
    ensures
        is_first_version(
            rustc_version@,
            match found {
                Some(version) => Some(version@),
                None => None,
            },
        ),
{
    let chars = chars_of(rustc_version);
    let n = chars.len();
    let mut i: usize = 0;
    while i < n
        invariant
            n == chars@.len(),
            chars@ == rustc_version@,
            i <= n,
            i == 0 || i == n || is_space(chars@[i - 1]),
            forall|f: int, t: int, e: int| f < i ==> !version_at(chars@, f, t, e),
        decreases n - i,
    {
        if char_is_space(chars[i]) {
            i += 1;
        } else {
            let from = i;
            let mut to = i + 1;
            while to < n && !char_is_space(chars[to])
                invariant
                    n == chars@.len(),
                    from < to <= n,
                    forall|k: int| from <= k < to ==> !is_space(#[trigger] chars@[k]),
                decreases n - to,
            {
                to += 1;
            }
            let mut end = from;
            while end < to && chars[end] != '-'
                invariant
                    from <= end <= to <= n,
                    n == chars@.len(),
                    forall|k: int| from <= k < end ==> #[trigger] chars@[k] != '-',
                decreases to - end,
            {
                end += 1;
            }
            assert(is_word(chars@, from as int, to as int));
            assert(is_stem_end(chars@, from as int, to as int, end as int));
            let scan = scan_version(&chars, from, end);
            if scan.0 == 2 && scan.1 {
                assert(version_at(chars@, from as int, to as int, end as int));
                return Some(rustc_version.substring_char(from, end));
            }
            proof {
                assert forall|f: int, t: int, e: int| f <= to implies !version_at(chars@, f, t, e) by {
                    if version_at(chars@, f, t, e) {
                        if f < from {
                        } else if f == from {
                            if t < to {
                                assert(!is_space(chars@[t]));
                            } else if t > to {
                                assert(is_space(chars@[to as int]));
                            }
                            assert(t == to);
                            if e < end {
                                assert(chars@[e] != '-');
                            } else if e > end {
                                assert(chars@[end as int] == '-');
                            }
                            assert(e == end);
                        } else if f < to {
                            assert(!is_space(chars@[f - 1]));
                        } else {
                            assert(f == to);
                            if to < n {
                                assert(is_space(chars@[f]));
                            }
                        }
                    }
                }
            }
            if to < n {
                i = to + 1;
            } else {
                i = to;
            }
        }
    }
    None
}

/// Whether `text` names the nightly channel.
pub open spec fn names_nightly(text: Seq<char>) -> bool {
    occurs_in(text, "nightly"@)
}

/// Whether `text` names the beta channel.
pub open spec fn names_beta(text: Seq<char>) -> bool {
    occurs_in(text, "beta"@)
}

/// Why the compiler at hand does not meet a requirement.
#[derive(Debug, Clone, PartialEq, Eq)]
pub enum ToolchainError {
    /// A nightly compiler is needed; the field holds what the compiler says
    /// of itself.
    NeedNightly(String),
    /// A stable compiler is needed; the field holds what the compiler says
    /// of itself.
    NeedStable(String),
    /// The compiler's version could not be read.
    UnparsableVersion,
    /// The package asks for another version than the compiler has.
    MsrvMismatch {
        /// The version that the package asks for.
        need: String,
        /// The manifest that says so.
        manifest: String,
        /// The version of the compiler.
        have: String,
    },
}

impl ToolchainError {
    /// The text of this error.
    pub open spec fn message_text(&self) -> Seq<char> {
        match self {
            ToolchainError::NeedNightly(have) => "Need a nightly compiler; have "@ + have@,
            ToolchainError::NeedStable(have) => "Need a stable compiler; have "@ + have@,
            ToolchainError::UnparsableVersion => "Could not parse rustc version"@,
            ToolchainError::MsrvMismatch { need, manifest, have } => "Need Rust "@ + need@
                + " for MSRV testing in "@ + manifest@ + "; have "@ + have@,
        }
    }

    /// The text to show for this error.
    pub fn message(&self) -> (text: String)
        ensures
            text@ == self.message_text(),
    {
        match self {
            ToolchainError::NeedNightly(have) => join2("Need a nightly compiler; have ", have.as_str()),
            ToolchainError::NeedStable(have) => join2("Need a stable compiler; have ", have.as_str()),
            ToolchainError::UnparsableVersion => String::from_str("Could not parse rustc version"),
            ToolchainError::MsrvMismatch { need, manifest, have } => {
                let mut text = String::from_str("Need Rust ");
                text.append(need.as_str());
                text.append(" for MSRV testing in ");
                text.append(manifest.as_str());
                text.append("; have ");
                text.append(have.as_str());
                text
            },
        }
    }
}

/// Checks what the compiler says of itself against the channel that a task
/// needs.
///
/// A task for nightly needs a compiler that names the nightly channel; a
/// task for stable needs one that names neither nightly nor beta. A task
/// for the minimum supported version accepts every channel: its version is
/// checked by [`check_msrv`].
pub fn check_channel(required: Toolchain, current: &str) -> (outcome: Result<(), ToolchainError>)
    ensures
        outcome is Ok <==> match required {
            Toolchain::Nightly => names_nightly(current@),
            Toolchain::Stable => !names_nightly(current@) && !names_beta(current@),
            Toolchain::Msrv => true,
        },
        outcome matches Err(error) ==> match required {
            Toolchain::Nightly => error matches ToolchainError::NeedNightly(have) && have@
                == current@,
            Toolchain::Stable => error matches ToolchainError::NeedStable(have) && have@
                == current@,
            Toolchain::Msrv => false,
        },
{
    match required {
        Toolchain::Nightly => {
            if !text_contains(current, "nightly") {
                return Err(ToolchainError::NeedNightly(current.to_owned()));
            }
        },
        Toolchain::Stable => {
            if text_contains(current, "nightly") || text_contains(current, "beta") {
                return Err(ToolchainError::NeedStable(current.to_owned()));
            }
        },
        Toolchain::Msrv => {},
    }
    Ok(())
}

/// Checks the version of the compiler against the minimum supported version
/// `msrv` that the manifest at `manifest_path` declares: the two must read
/// the same.
pub fn check_msrv(current: &str, msrv: &str, manifest_path: &str) -> (outcome: Result<
    (),
    ToolchainError,
>)
    ensures
        outcome is Ok <==> is_first_version(current@, Some(msrv@)),
        is_first_version(current@, None) <==> outcome == Err::<(), ToolchainError>(
            ToolchainError::UnparsableVersion,
        ),
        outcome matches Err(ToolchainError::MsrvMismatch { need, manifest, have }) ==> need@
            == msrv@ && manifest@ == manifest_path@ && have@ != msrv@ && is_first_version(
            current@,
            Some(have@),
        ),
        outcome matches Err(error) ==> error is UnparsableVersion || error is MsrvMismatch,
{
    match extract_version(current) {
        None => {
            proof {
                if is_first_version(current@, Some(msrv@)) {
                    first_version_is_unique(current@, None, Some(msrv@));
                }
            }
            Err(ToolchainError::UnparsableVersion)
        },
        Some(version) => {
            proof {
                if is_first_version(current@, None) {
                    first_version_is_unique(current@, None, Some(version@));
                }
                if is_first_version(current@, Some(msrv@)) {
                    first_version_is_unique(current@, Some(msrv@), Some(version@));
                }
            }
            if text_eq(version, msrv) {
                Ok(())
            } else {
                Err(
                    ToolchainError::MsrvMismatch {
                        need: msrv.to_owned(),
                        manifest: manifest_path.to_owned(),
                        have: version.to_owned(),
                    },
                )
            }
        },
    }
}

} // verus!
