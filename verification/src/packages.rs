//! The packages of a workspace, and the choice among them.

use vstd::prelude::*;
use vstd::string::{StrSliceExecFns, StringExecFns};
use crate::text::{chars_of, join_with, joined, list_contains, lists, texts};

verus! {

/// A package of the workspace: its name and the directory that holds it.
#[derive(Debug, Clone, PartialEq, Eq)]
pub struct PackageInfo {
    /// The package name.
    pub name: String,
    /// The directory of the package's sources.
    pub directory: String,
}

impl PackageInfo {
    /// A copy of this package entry.
    pub fn duplicate(&self) -> (copy: PackageInfo)
        ensures
            copy == *self,
    {
        PackageInfo { name: self.name.clone(), directory: self.directory.clone() }
    }
}

/// Whether `text` ends with `suffix`.
pub open spec fn ends_with(text: Seq<char>, suffix: Seq<char>) -> bool {
    suffix.len() <= text.len() && text.subrange(text.len() - suffix.len(), text.len() as int)
        == suffix
}

/// `text` without any run of `suffix` at its end.
pub open spec fn without_trailing(text: Seq<char>, suffix: Seq<char>) -> Seq<char>
    decreases text.len(),
{
    if suffix.len() > 0 && ends_with(text, suffix) {
        without_trailing(text.subrange(0, text.len() - suffix.len()), suffix)
    } else {
        text
    }
}

/// The directory of the package whose manifest is at `manifest_path`: the
/// path without the manifest's file name, e.g. `/repo/units` for
/// `/repo/units/Cargo.toml`. A path that does not end in the manifest's file
/// name is handed back as it is.
pub fn package_directory<'a>(manifest_path: &'a str) -> (directory: &'a str)
    ensures
        directory@ == without_trailing(manifest_path@, "/Cargo.toml"@),
{
    let chars = chars_of(manifest_path);
    let suffix = chars_of("/Cargo.toml");
    proof {
        reveal_strlit("/Cargo.toml");
    }
    let mut end: usize = chars.len();
    assert(manifest_path@.subrange(0, end as int) =~= manifest_path@);
    loop
        invariant
            end <= chars@.len(),
            chars@ == manifest_path@,
            suffix@ == "/Cargo.toml"@,
            suffix@.len() == 11,
            without_trailing(manifest_path@, suffix@) == without_trailing(
                manifest_path@.subrange(0, end as int),
                suffix@,
            ),
        ensures
            end <= chars@.len(),
            without_trailing(manifest_path@, suffix@) == manifest_path@.subrange(0, end as int),
        decreases end,
    {
        let ghost head = manifest_path@.subrange(0, end as int);
        if end >= suffix.len() && crate::text::chars_occur_at(&chars, &suffix, end - suffix.len()) {
            proof {
                assert(head.subrange(head.len() - suffix@.len(), head.len() as int)
                    =~= chars@.subrange(end - suffix@.len(), end as int));
                assert(ends_with(head, suffix@));
                assert(head.subrange(0, head.len() - suffix@.len()) =~= manifest_path@.subrange(
                    0,
                    end - suffix@.len(),
                ));
            }
            end = end - suffix.len();
        } else {
            proof {
                if end >= suffix@.len() {
                    assert(head.subrange(head.len() - suffix@.len(), head.len() as int)
                        =~= chars@.subrange(end - suffix@.len(), end as int));
                }
                assert(!ends_with(head, suffix@));
            }
            break ;
        }
    }
    manifest_path.substring_char(0, end)
}

/// Whether some package of `all` is called `name`.
pub open spec fn has_package(all: Seq<PackageInfo>, name: Seq<char>) -> bool {
    exists|i: int| 0 <= i < all.len() && (#[trigger] all[i]).name@ == name
}

/// The names of `all`, in order.
pub open spec fn package_names(all: Seq<PackageInfo>) -> Seq<Seq<char>> {
    Seq::new(all.len(), |i: int| all[i].name@)
}

/// The names among `requested` that no package of `all` carries, in the
/// order and as often as they were requested.
pub open spec fn unknown_names(requested: Seq<String>, all: Seq<PackageInfo>) -> Seq<Seq<char>>
    decreases requested.len(),
{
    if requested.len() == 0 {
        Seq::empty()
    } else {
        let earlier = unknown_names(requested.drop_last(), all);
        if has_package(all, requested.last()@) {
            earlier
        } else {
            earlier.push(requested.last()@)
        }
    }
}

/// The packages of `all` whose name was requested, in the order of `all`.
pub open spec fn selected(all: Seq<PackageInfo>, requested: Seq<String>) -> Seq<PackageInfo>
    decreases all.len(),
{
    if all.len() == 0 {
        Seq::empty()
    } else {
        let earlier = selected(all.drop_last(), requested);
        if lists(requested, all.last().name@) {
            earlier.push(all.last())
        } else {
            earlier
        }
    }
}

/// A request named packages that the workspace does not have.
#[derive(Debug, Clone, PartialEq, Eq)]
pub struct UnknownPackages {
    /// The requested names that no package carries.
    pub missing: Vec<String>,
    /// The names of the packages that the workspace does have.
    pub available: Vec<String>,
}

/// One line per name, each behind a line break and a dash.
pub open spec fn bulleted(names: Seq<Seq<char>>) -> Seq<char>
    decreases names.len(),
{
    if names.len() == 0 {
        Seq::empty()
    } else {
        bulleted(names.drop_last()) + "\n  - "@ + names.last()
    }
}

impl UnknownPackages {
    /// The text of this error.
    pub open spec fn message_text(&self) -> Seq<char> {
        "Package not found in workspace: "@ + joined(texts(self.missing@), ", "@)
            + "\n\nAvailable packages:"@ + bulleted(texts(self.available@))
    }

    /// The text to show for this error: the unknown names, then the names
    /// that could have been asked for.
    pub fn message(&self) -> (text: String)
        ensures
            text@ == self.message_text(),
    {
        let mut text = String::from_str("Package not found in workspace: ");
        text.append(join_with(&self.missing, ", ").as_str());
        text.append("\n\nAvailable packages:");
        let ghost start = text@;
        let mut k: usize = 0;
        assert(texts(self.available@).take(0) =~= Seq::<Seq<char>>::empty());
        while k < self.available.len()
            invariant
                k <= self.available@.len(),
                text@ == start + bulleted(texts(self.available@).take(k as int)),
            decreases self.available@.len() - k,
        {
            proof {
                let longer = texts(self.available@).take(k + 1);
                assert(longer.drop_last() =~= texts(self.available@).take(k as int));
                assert(longer.last() == self.available@[k as int]@);
            }
            text.append("\n  - ");
            text.append(self.available[k].as_str());
            assert(text@ =~= start + bulleted(texts(self.available@).take(k + 1)));
            k += 1;
        }
        assert(texts(self.available@).take(k as int) =~= texts(self.available@));
        text
    }
}

/// Whether some package of `all` is called `name`.
pub fn workspace_has(all: &Vec<PackageInfo>, name: &String) -> (found: bool)
    ensures
        found == has_package(all@, name@),
{
    let mut k: usize = 0;
    while k < all.len()
        invariant
            k <= all@.len(),
            forall|i: int| 0 <= i < k ==> (#[trigger] all@[i]).name@ != name@,
        decreases all@.len() - k,
    {
        if all[k].name == *name {
            return true;
        }
        k += 1;
    }
    false
}

/// Narrows the packages of the workspace to those requested.
///
/// With nothing requested, every package is selected. A requested name that
/// no package carries is an error, which lists every such name and every
/// name available. Otherwise the packages whose name was requested are
/// selected, in the order of the workspace.
pub fn select_packages(all: Vec<PackageInfo>, requested: &Vec<String>) -> (outcome: Result<
    Vec<PackageInfo>,
    UnknownPackages,
>)
    ensures
        requested@.len() == 0 ==> outcome == Ok::<Vec<PackageInfo>, UnknownPackages>(all),
        requested@.len() > 0 && unknown_names(requested@, all@).len() == 0 ==> (outcome matches Ok(
            kept,
        ) && kept@ == selected(all@, requested@)),
        requested@.len() > 0 && unknown_names(requested@, all@).len() > 0 ==> (
        outcome matches Err(error) && texts(error.missing@) == unknown_names(requested@, all@)
            && texts(error.available@) == package_names(all@)),
{
    if requested.len() == 0 {
        return Ok(all);
    }
    let mut missing: Vec<String> = Vec::new();
    let mut k: usize = 0;
    assert(requested@.take(0) =~= Seq::<String>::empty());
    while k < requested.len()
        invariant
            k <= requested@.len(),
            texts(missing@) == unknown_names(requested@.take(k as int), all@),
        decreases requested@.len() - k,
    {
        proof {
            let longer = requested@.take(k + 1);
            assert(longer.drop_last() =~= requested@.take(k as int));
            assert(longer.last() == requested@[k as int]);
        }
        if !workspace_has(&all, &requested[k]) {
            let ghost before = missing@;
            missing.push(requested[k].clone());
            assert(texts(missing@) =~= texts(before).push(requested@[k as int]@));
        }
        k += 1;
    }
    assert(requested@.take(k as int) =~= requested@);
    if missing.len() > 0 {
        let mut available: Vec<String> = Vec::new();
        let mut j: usize = 0;
        while j < all.len()
            invariant
                j <= all@.len(),
                available@.len() == j,
                forall|i: int| 0 <= i < j ==> (#[trigger] available@[i])@ == all@[i].name@,
            decreases all@.len() - j,
        {
            available.push(all[j].name.clone());
            j += 1;
        }
        assert(texts(available@) =~= package_names(all@));
        return Err(UnknownPackages { missing, available });
    }
    let mut kept: Vec<PackageInfo> = Vec::new();
    let mut j: usize = 0;
    assert(all@.take(0) =~= Seq::<PackageInfo>::empty());
    while j < all.len()
        invariant
            j <= all@.len(),
            kept@ == selected(all@.take(j as int), requested@),
        decreases all@.len() - j,
    {
        proof {
            let longer = all@.take(j + 1);
            assert(longer.drop_last() =~= all@.take(j as int));
            assert(longer.last() == all@[j as int]);
        }
        if list_contains(requested, &all[j].name) {
            kept.push(all[j].duplicate());
        }
        j += 1;
    }
    assert(all@.take(j as int) =~= all@);
    Ok(kept)
}

} // verus!
