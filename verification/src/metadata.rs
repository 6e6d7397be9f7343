//! What the build tool tells about the packages of a workspace, field by
//! field as it was found, and what the tasks read from it.

use vstd::prelude::*;
use vstd::string::StringExecFns;
use crate::order::{is_sorted, sort_texts};
use crate::packages::{package_directory, without_trailing, PackageInfo};
use crate::text::texts;

verus! {

/// A build target of a package. A field that the build tool left out, or
/// gave as something other than what is expected, is `None`.
#[derive(Debug, Clone, PartialEq, Eq, Default)]
pub struct TargetMetadata {
    /// The target's name.
    pub name: Option<String>,
    /// The kinds of the target, such as `bin` or `lib`; an entry that is no
    /// text is `None`.
    pub kinds: Option<Vec<Option<String>>>,
}

/// A package as the build tool describes it. A field that the build tool
/// left out, or gave as something other than what is expected, is `None`.
#[derive(Debug, Clone, PartialEq, Eq, Default)]
pub struct PackageMetadata {
    /// The package name.
    pub name: Option<String>,
    /// The package version.
    pub version: Option<String>,
    /// The path of the package's manifest.
    pub manifest_path: Option<String>,
    /// The minimum supported compiler version that the manifest declares.
    pub rust_version: Option<String>,
    /// The build targets of the package.
    pub targets: Option<Vec<TargetMetadata>>,
    /// The names of the features of the package.
    pub features: Option<Vec<String>>,
}

/// The packages among the first `upto` of `packages` that have a name and a
/// manifest path, each with the directory of its manifest.
pub open spec fn described_packages(packages: Seq<PackageMetadata>, upto: int) -> Seq<
    (Seq<char>, Seq<char>),
>
    decreases upto,
{
    if upto <= 0 {
        Seq::empty()
    } else {
        let earlier = described_packages(packages, upto - 1);
        match (packages[upto - 1].name, packages[upto - 1].manifest_path) {
            (Some(name), Some(path)) => earlier.push(
                (name@, without_trailing(path@, "/Cargo.toml"@)),
            ),
            _ => earlier,
        }
    }
}

/// The name and the directory of each of `list`.
pub open spec fn package_pairs(list: Seq<PackageInfo>) -> Seq<(Seq<char>, Seq<char>)> {
    Seq::new(list.len(), |i: int| (list[i].name@, list[i].directory@))
}

/// The packages of the workspace: every described package that has a name
/// and a manifest path, with the directory that holds its manifest.
pub fn workspace_packages(packages: &Vec<PackageMetadata>) -> (list: Vec<PackageInfo>)
    ensures
        package_pairs(list@) == described_packages(packages@, packages@.len() as int),
{
    let mut list: Vec<PackageInfo> = Vec::new();
    let mut k: usize = 0;
    assert(package_pairs(list@) =~= described_packages(packages@, 0));
    while k < packages.len()
        invariant
            k <= packages@.len(),
            package_pairs(list@) == described_packages(packages@, k as int),
        decreases packages@.len() - k,
    {
        let ghost before = package_pairs(list@);
        match (&packages[k].name, &packages[k].manifest_path) {
            (Some(name), Some(path)) => {
                let directory = package_directory(path.as_str()).to_owned();
                list.push(PackageInfo { name: name.clone(), directory });
                assert(package_pairs(list@) =~= before.push(
                    (name@, without_trailing(path@, "/Cargo.toml"@)),
                ));
            },
            _ => {},
        }
        k += 1;
    }
    list
}

/// The directories of the manifests among the first `upto` of `packages`.
pub open spec fn described_directories(packages: Seq<PackageMetadata>, upto: int) -> Seq<Seq<char>>
    decreases upto,
{
    if upto <= 0 {
        Seq::empty()
    } else {
        let earlier = described_directories(packages, upto - 1);
        match packages[upto - 1].manifest_path {
            Some(path) => earlier.push(without_trailing(path@, "/Cargo.toml"@)),
            None => earlier,
        }
    }
}

/// The directories of the crates of the workspace: for every described
/// package with a manifest path, the directory that holds the manifest.
pub fn crate_directories(packages: &Vec<PackageMetadata>) -> (directories: Vec<String>)
    ensures
        texts(directories@) == described_directories(packages@, packages@.len() as int),
{
    let mut directories: Vec<String> = Vec::new();
    let mut k: usize = 0;
    assert(texts(directories@) =~= described_directories(packages@, 0));
    while k < packages.len()
        invariant
            k <= packages@.len(),
            texts(directories@) == described_directories(packages@, k as int),
        decreases packages@.len() - k,
    {
        let ghost before = texts(directories@);
        match &packages[k].manifest_path {
            Some(path) => {
                directories.push(package_directory(path.as_str()).to_owned());
                assert(texts(directories@) =~= before.push(
                    without_trailing(path@, "/Cargo.toml"@),
                ));
            },
            None => {},
        }
        k += 1;
    }
    directories
}

/// Whether package `i` is the first of `packages` whose manifest is at
/// `manifest`.
pub open spec fn first_at_manifest(packages: Seq<PackageMetadata>, manifest: Seq<char>, i: int) -> bool {
    &&& 0 <= i < packages.len()
    &&& packages[i].manifest_path matches Some(path) && path@ == manifest
    &&& forall|j: int|
        0 <= j < i ==> !((#[trigger] packages[j]).manifest_path matches Some(path) && path@
            == manifest)
}

/// Whether no package of `packages` has its manifest at `manifest`.
pub open spec fn none_at_manifest(packages: Seq<PackageMetadata>, manifest: Seq<char>) -> bool {
    forall|j: int|
        0 <= j < packages.len() ==> !((#[trigger] packages[j]).manifest_path matches Some(path)
            && path@ == manifest)
}

/// Position of the first package whose manifest is at `manifest`.
pub fn find_by_manifest(packages: &Vec<PackageMetadata>, manifest: &str) -> (found: Option<usize>)
    ensures
        found matches Some(i) ==> first_at_manifest(packages@, manifest@, i as int),
        found is None ==> none_at_manifest(packages@, manifest@),
{
    let wanted = manifest.to_owned();
    let mut k: usize = 0;
    while k < packages.len()
        invariant
            k <= packages@.len(),
            wanted@ == manifest@,
            forall|j: int|
                0 <= j < k ==> !((#[trigger] packages@[j]).manifest_path matches Some(path)
                    && path@ == manifest@),
        decreases packages@.len() - k,
    {
        match &packages[k].manifest_path {
            Some(path) => {
                if *path == wanted {
                    return Some(k);
                }
            },
            None => {},
        }
        k += 1;
    }
    None
}

/// The minimum supported compiler version that the package with its manifest
/// at `manifest` declares; `None` where no package has its manifest there,
/// or where the first such package declares none.
pub fn msrv_of(packages: &Vec<PackageMetadata>, manifest: &str) -> (msrv: Option<String>)
    ensures
        none_at_manifest(packages@, manifest@) ==> msrv is None,
        forall|i: int|
            first_at_manifest(packages@, manifest@, i) ==> match packages@[i].rust_version {
                Some(version) => msrv matches Some(found) && found@ == version@,
                None => msrv is None,
            },
{
    match find_by_manifest(packages, manifest) {
        Some(i) => {
            assert forall|j: int| first_at_manifest(packages@, manifest@, j) implies j == i by {
                if j < i {
                    assert(!(packages@[j].manifest_path matches Some(path) && path@ == manifest@));
                } else if i < j {
                    assert(!(packages@[i as int].manifest_path matches Some(path) && path@
                        == manifest@));
                }
            }
            match &packages[i].rust_version {
                Some(version) => Some(version.clone()),
                None => None,
            }
        },
        None => {
            assert forall|j: int| !first_at_manifest(packages@, manifest@, j) by {}
            None
        },
    }
}

/// What to tell when a manifest declares no minimum supported version.
pub fn missing_msrv_message(manifest: &str) -> (text: String)
    ensures
        text@ == "No MSRV (rust-version) specified in "@ + manifest@,
{
    crate::text::join2("No MSRV (rust-version) specified in ", manifest)
}

/// Why the directory of the packaged crate cannot be told.
#[derive(Debug, Clone, Copy, PartialEq, Eq, Structural)]
pub enum PublishDirError {
    /// A package without a manifest path was met before the current package.
    MissingManifestPath,
    /// The current package has no name.
    MissingName,
    /// The current package has no version.
    MissingVersion,
    /// No package has its manifest in the current directory.
    NotFound,
}

impl PublishDirError {
    /// The text to show for this error.
    pub fn message(&self) -> (text: &'static str)
        ensures
            text@ == match self {
                PublishDirError::MissingManifestPath => "Missing manifest_path in package"@,
                PublishDirError::MissingName => "Missing name in package"@,
                PublishDirError::MissingVersion => "Missing version in package"@,
                PublishDirError::NotFound => "Could not find current package in cargo metadata"@,
            },
    {
        match self {
            PublishDirError::MissingManifestPath => "Missing manifest_path in package",
            PublishDirError::MissingName => "Missing name in package",
            PublishDirError::MissingVersion => "Missing version in package",
            PublishDirError::NotFound => "Could not find current package in cargo metadata",
        }
    }
}

/// The directory into which package `name` in version `version` is packaged
/// below `target_dir`.
pub open spec fn publish_path(target_dir: Seq<char>, name: Seq<char>, version: Seq<char>) -> Seq<
    char,
> {
    target_dir + "/package/"@ + name + "-"@ + version
}

/// What the search for the package at `manifest` among the first `upto`
/// packages comes to: `None` while the search goes on.
pub open spec fn publish_search(
    target_dir: Seq<char>,
    packages: Seq<PackageMetadata>,
    manifest: Seq<char>,
    upto: int,
) -> Option<Result<Seq<char>, PublishDirError>>
    decreases upto,
{
    if upto <= 0 {
        None
    } else {
        match publish_search(target_dir, packages, manifest, upto - 1) {
            Some(settled) => Some(settled),
            None => match packages[upto - 1].manifest_path {
                None => Some(Err(PublishDirError::MissingManifestPath)),
                Some(path) => if path@ != manifest {
                    None
                } else {
                    match (packages[upto - 1].name, packages[upto - 1].version) {
                        (None, _) => Some(Err(PublishDirError::MissingName)),
                        (Some(_), None) => Some(Err(PublishDirError::MissingVersion)),
                        (Some(name), Some(version)) => Some(
                            Ok(publish_path(target_dir, name@, version@)),
                        ),
                    }
                },
            },
        }
    }
}

/// The directory into which the package with its manifest at `manifest` is
/// packaged below `target_dir`.
///
/// The packages are read in order up to the first whose manifest is at
/// `manifest`; a package without a manifest path on the way, or a current
/// package without name or version, is an error, and so is a search that
/// finds nothing.
pub fn publish_directory(target_dir: &str, packages: &Vec<PackageMetadata>, manifest: &str) -> (outcome:
    Result<String, PublishDirError>)
    ensures
        (match outcome {
            Ok(directory) => Ok(directory@),
            Err(error) => Err(error),
        }) == (match publish_search(
            target_dir@,
            packages@,
            manifest@,
            packages@.len() as int,
        ) {
            Some(settled) => settled,
            None => Err(PublishDirError::NotFound),
        }),
{
    let wanted = manifest.to_owned();
    let mut k: usize = 0;
    while k < packages.len()
        invariant
            k <= packages@.len(),
            wanted@ == manifest@,
            publish_search(target_dir@, packages@, manifest@, k as int) is None,
        decreases packages@.len() - k,
    {
        let package = &packages[k];
        let ghost settled = publish_search(target_dir@, packages@, manifest@, k + 1);
        let outcome: Option<Result<String, PublishDirError>> = match &package.manifest_path {
            None => Some(Err(PublishDirError::MissingManifestPath)),
            Some(path) => {
                if *path == wanted {
                    match (&package.name, &package.version) {
                        (None, _) => Some(Err(PublishDirError::MissingName)),
                        (Some(_), None) => Some(Err(PublishDirError::MissingVersion)),
                        (Some(name), Some(version)) => {
                            let mut directory = String::from_str(target_dir);
                            directory.append("/package/");
                            directory.append(name.as_str());
                            directory.append("-");
                            directory.append(version.as_str());
                            Some(Ok(directory))
                        },
                    }
                } else {
                    None
                }
            },
        };
        match outcome {
            Some(result) => {
                proof {
                    publish_search_stays_settled(
                        target_dir@,
                        packages@,
                        manifest@,
                        k + 1,
                        packages@.len() as int,
                    );
                }
                return result;
            },
            None => {},
        }
        k += 1;
    }
    Err(PublishDirError::NotFound)
}

/// Once the search has come to something, reading further packages changes
/// nothing.
pub proof fn publish_search_stays_settled(
    target_dir: Seq<char>,
    packages: Seq<PackageMetadata>,
    manifest: Seq<char>,
    from: int,
    upto: int,
)
    requires
        0 <= from <= upto,
        publish_search(target_dir, packages, manifest, from) is Some,
    ensures
        publish_search(target_dir, packages, manifest, upto) == publish_search(
            target_dir,
            packages,
            manifest,
            from,
        ),
    decreases upto - from,
{
    if from < upto {
        publish_search_stays_settled(target_dir, packages, manifest, from, upto - 1);
    }
}

/// Whether `target` is a binary with a name.
pub open spec fn is_named_binary(target: TargetMetadata) -> bool {
    &&& target.name is Some
    &&& target.kinds matches Some(kinds) && exists|i: int|
        0 <= i < kinds@.len() && (#[trigger] kinds@[i] matches Some(kind) && kind@ == "bin"@)
}

/// The names of the named binaries among the first `upto` of `targets`.
pub open spec fn binary_names(targets: Seq<TargetMetadata>, upto: int) -> Seq<Seq<char>>
    decreases upto,
{
    if upto <= 0 {
        Seq::empty()
    } else {
        let earlier = binary_names(targets, upto - 1);
        if is_named_binary(targets[upto - 1]) {
            earlier.push(targets[upto - 1].name->0@)
        } else {
            earlier
        }
    }
}

/// Whether package `i` is the first of `packages` called `name`.
pub open spec fn first_called(packages: Seq<PackageMetadata>, name: Seq<char>, i: int) -> bool {
    &&& 0 <= i < packages.len()
    &&& packages[i].name matches Some(found) && found@ == name
    &&& forall|j: int|
        0 <= j < i ==> !((#[trigger] packages[j]).name matches Some(found) && found@ == name)
}

/// Whether `kinds` names the kind `bin`.
fn has_bin(kinds: &Vec<Option<String>>) -> (yes: bool)
    ensures
        yes == exists|i: int|
            0 <= i < kinds@.len() && (#[trigger] kinds@[i] matches Some(kind) && kind@ == "bin"@),
{
    let bin = String::from_str("bin");
    let mut k: usize = 0;
    while k < kinds.len()
        invariant
            k <= kinds@.len(),
            bin@ == "bin"@,
            forall|i: int|
                0 <= i < k ==> !(#[trigger] kinds@[i] matches Some(kind) && kind@ == "bin"@),
        decreases kinds@.len() - k,
    {
        match &kinds[k] {
            Some(kind) => {
                if *kind == bin {
                    return true;
                }
            },
            None => {},
        }
        k += 1;
    }
    false
}

/// The names of the binaries of `targets`, in the order of the targets.
pub fn binaries_of(targets: &Vec<TargetMetadata>) -> (names: Vec<String>)
    ensures
        texts(names@) == binary_names(targets@, targets@.len() as int),
{
    let mut names: Vec<String> = Vec::new();
    let mut k: usize = 0;
    assert(texts(names@) =~= binary_names(targets@, 0));
    while k < targets.len()
        invariant
            k <= targets@.len(),
            texts(names@) == binary_names(targets@, k as int),
        decreases targets@.len() - k,
    {
        let ghost before = texts(names@);
        match (&targets[k].kinds, &targets[k].name) {
            (Some(kinds), Some(name)) => {
                if has_bin(kinds) {
                    names.push(name.clone());
                    assert(texts(names@) =~= before.push(name@));
                }
            },
            _ => {},
        }
        k += 1;
    }
    names
}

/// The fuzz targets of the workspace: the binaries of the first package
/// called `package_name`, in alphabetical order. There are none where no
/// package is called so, or where that package lists no targets.
pub fn fuzz_targets(packages: &Vec<PackageMetadata>, package_name: &str) -> (targets: Vec<String>)
    ensures
        is_sorted(texts(targets@)),
        (forall|i: int| !first_called(packages@, package_name@, i)) ==> targets@.len() == 0,
        forall|i: int|
            first_called(packages@, package_name@, i) ==> texts(targets@).to_multiset()
                == (match packages@[i].targets {
                Some(list) => binary_names(list@, list@.len() as int),
                None => Seq::empty(),
            }).to_multiset(),
{
    let wanted = package_name.to_owned();
    let mut k: usize = 0;
    while k < packages.len()
        invariant
            k <= packages@.len(),
            wanted@ == package_name@,
            forall|j: int|
                0 <= j < k ==> !((#[trigger] packages@[j]).name matches Some(found) && found@
                    == package_name@),
        decreases packages@.len() - k,
    {
        let is_wanted = match &packages[k].name {
            Some(name) => *name == wanted,
            None => false,
        };
        if is_wanted {
            let names = match &packages[k].targets {
                Some(list) => binaries_of(list),
                None => Vec::new(),
            };
            let sorted = sort_texts(&names);
            proof {
                assert(first_called(packages@, package_name@, k as int));
                assert forall|i: int| first_called(packages@, package_name@, i) implies i == k by {
                    if i < k {
                        assert(!(packages@[i].name matches Some(found) && found@ == package_name@));
                    } else if k < i {
                        assert(!(packages@[k as int].name matches Some(found) && found@
                            == package_name@));
                    }
                }
                if packages@[k as int].targets is None {
                    assert(texts(names@) =~= Seq::<Seq<char>>::empty());
                }
            }
            return sorted;
        }
        k += 1;
    }
    let none: Vec<String> = Vec::new();
    assert forall|i: int| !first_called(packages@, package_name@, i) by {}
    none
}

/// The features that stand for versions of the node: the features of the
/// first described package, in alphabetical order.
pub fn version_features(packages: &Vec<PackageMetadata>) -> (features: Vec<String>)
    ensures
        is_sorted(texts(features@)),
        texts(features@).to_multiset() == (if packages@.len() > 0 {
            match packages@[0].features {
                Some(list) => texts(list@),
                None => Seq::empty(),
            }
        } else {
            Seq::empty()
        }).to_multiset(),
{
    if packages.len() > 0 {
        match &packages[0].features {
            Some(list) => {
                return sort_texts(list);
            },
            None => {},
        }
    }
    let none: Vec<String> = Vec::new();
    assert(texts(none@) =~= Seq::<Seq<char>>::empty());
    none
}

} // verus!
