//! The releases of an organisation's crates, and what is known as the latest
//! release of each.

use vstd::prelude::*;
use vstd::string::{StrSliceExecFns, StringExecFns};
use crate::text::{join2, join3};
use crate::version::{semver_exceeds, semver_parsed, InvalidVersion, Version, VersionParts};

pub mod json;

verus! {

/// The state of the organisation that the checks run on.
#[derive(Debug, Clone, PartialEq, Eq)]
pub struct Config {
    /// List of the latest releases.
    pub latests: Vec<CrateVersion>,
    /// The releases to check.
    pub releases: Vec<CrateNode>,
}

/// A specific version of a crate.
#[derive(Debug, Clone, PartialEq, Eq)]
pub struct CrateVersion {
    /// The crate's package name.
    pub package: String,
    /// The version.
    pub version: Version,
}

/// A version of one of the crates of the organisation.
#[derive(Debug, Clone, PartialEq, Eq)]
pub struct CrateNode {
    /// The crate this release is for.
    pub package: String,
    /// The release's version.
    pub version: Version,
    /// List of this release's dependencies.
    pub dependencies: Vec<CrateVersion>,
}

/// Why the latest release of a package cannot be told.
#[derive(Debug, Clone, PartialEq, Eq)]
pub enum LatestError {
    /// The list of latest releases does not name the package.
    NotListed(String),
    /// No release of the package is greater than `0.0.0`.
    NoRelease(String),
    /// The greatest release of the package is not the one listed as latest.
    Mismatch(String),
}

impl LatestError {
    /// The text of this error.
    pub open spec fn message_text(&self) -> Seq<char> {
        match self {
            LatestError::NotListed(package) => "package "@ + package@
                + " is not listed in latest section of config file"@,
            LatestError::NoRelease(package) => "we don't have a release in the config file for "@
                + package@,
            LatestError::Mismatch(package) => "the latest version in the releases section for "@
                + package@ + " does not match the verison in the latest section"@,
        }
    }

    /// The text to show for this error.
    pub fn message(&self) -> (text: String)
        ensures
            text@ == self.message_text(),
    {
        match self {
            LatestError::NotListed(package) => join3(
                "package ",
                package.as_str(),
                " is not listed in latest section of config file",
            ),
            LatestError::NoRelease(package) => join2(
                "we don't have a release in the config file for ",
                package.as_str(),
            ),
            LatestError::Mismatch(package) => join3(
                "the latest version in the releases section for ",
                package.as_str(),
                " does not match the verison in the latest section",
            ),
        }
    }
}

/// Whether entry `i` is the last entry of `latests` for `package`.
pub open spec fn last_listing(latests: Seq<CrateVersion>, package: Seq<char>, i: int) -> bool {
    &&& 0 <= i < latests.len()
    &&& latests[i].package@ == package
    &&& forall|j: int| i < j < latests.len() ==> (#[trigger] latests[j]).package@ != package
}

/// Whether `latests` has an entry for `package`.
pub open spec fn is_listed(latests: Seq<CrateVersion>, package: Seq<char>) -> bool {
    exists|i: int| 0 <= i < latests.len() && (#[trigger] latests[i]).package@ == package
}

/// The release that a reader of the first `upto` releases holds to be the
/// newest of `package`: the reader starts from version `0.0.0` and moves on
/// to each release of the package that is greater than what is held so far.
pub open spec fn newest_release(releases: Seq<CrateNode>, package: Seq<char>, upto: int) -> Option<
    int,
>
    decreases upto,
{
    if upto <= 0 {
        None
    } else {
        let earlier = newest_release(releases, package, upto - 1);
        let held = match earlier {
            Some(i) => releases[i].version@,
            None => "0.0.0"@,
        };
        if releases[upto - 1].package@ == package && semver_exceeds(
            releases[upto - 1].version@,
            held,
        ) == Some(true) {
            Some(upto - 1)
        } else {
            earlier
        }
    }
}

impl CrateVersion {
    /// A copy of this entry.
    pub fn duplicate(&self) -> (copy: CrateVersion)
        ensures
            copy.package@ == self.package@,
            copy.version@ == self.version@,
    {
        CrateVersion { package: self.package.clone(), version: self.version.duplicate() }
    }
}

impl CrateNode {
    /// The release as shown to users: the package, a blank, the version.
    pub fn label(&self) -> (text: String)
        ensures
            text@ == self.package@ + " "@ + self.version@,
    {
        join3(self.package.as_str(), " ", self.version.as_str())
    }
}

/// Position of the last entry of `latests` for `package`.
pub fn last_listed(latests: &Vec<CrateVersion>, package: &str) -> (found: Option<usize>)
    ensures
        found is Some <==> is_listed(latests@, package@),
        found matches Some(i) ==> last_listing(latests@, package@, i as int),
{
    let name = package.to_owned();
    let mut found: Option<usize> = None;
    let mut k: usize = 0;
    while k < latests.len()
        invariant
            k <= latests@.len(),
            name@ == package@,
            found is None ==> forall|j: int|
                0 <= j < k ==> (#[trigger] latests@[j]).package@ != package@,
            found matches Some(w) ==> w < k && latests@[w as int].package@ == package@ && forall|
                j: int,
            | w < j < k ==> (#[trigger] latests@[j]).package@ != package@,
        decreases latests@.len() - k,
    {
        if latests[k].package == name {
            found = Some(k);
        }
        k += 1;
    }
    found
}

/// Position of the newest release of `package` among `releases`, as a reader
/// finds it who starts from version `0.0.0`.
pub fn newest_release_of(releases: &Vec<CrateNode>, package: &str) -> (found: Option<usize>)
    ensures
        (match found {
            Some(i) => Some(i as int),
            None => None,
        }) == newest_release(releases@, package@, releases@.len() as int),
        found matches Some(i) ==> i < releases@.len(),
{
    let name = package.to_owned();
    let mut found: Option<usize> = None;
    let mut r: usize = 0;
    while r < releases.len()
        invariant
            r <= releases@.len(),
            name@ == package@,
            found matches Some(i) ==> i < r,
            (match found {
                Some(i) => Some(i as int),
                None => None,
            }) == newest_release(releases@, package@, r as int),
        decreases releases@.len() - r,
    {
        let candidate = &releases[r];
        if candidate.package == name {
            let greater = match found {
                Some(i) => candidate.version.exceeds(&releases[i].version),
                None => match candidate.version.exceeds_text("0.0.0") {
                    Some(greater) => greater,
                    None => false,
                },
            };
            if greater {
                found = Some(r);
            }
        }
        r += 1;
    }
    found
}

/// What the search for the latest release of `package` comes to, given
/// whether the package is listed, where its newest release stands, and
/// whether that release has the parts of the listed version: the position of
/// the newest release, or the reason why there is no answer. A missing
/// listing is told before a missing release, and that before a mismatch.
pub fn settle_latest(package: &str, listed: bool, newest: Option<usize>, matches_listing: bool) -> (outcome:
    Result<usize, LatestError>)
    ensures
        !listed ==> (outcome matches Err(LatestError::NotListed(name)) && name@ == package@),
        listed && newest is None ==> (outcome matches Err(LatestError::NoRelease(name)) && name@
            == package@),
        listed && newest is Some && !matches_listing ==> (outcome matches Err(
            LatestError::Mismatch(name),
        ) && name@ == package@),
        listed && newest is Some && matches_listing ==> outcome == Ok::<usize, LatestError>(
            newest->0,
        ),
{
    if !listed {
        return Err(LatestError::NotListed(package.to_owned()));
    }
    match newest {
        None => Err(LatestError::NoRelease(package.to_owned())),
        Some(i) => {
            if matches_listing {
                Ok(i)
            } else {
                Err(LatestError::Mismatch(package.to_owned()))
            }
        },
    }
}

impl Config {
    /// Returns the latest release of the given crate.
    ///
    /// The package must be listed among the latest releases; where it is
    /// listed more than once, the last entry counts. Its newest release is
    /// looked for among the releases, and must have the same parts as the
    /// listed version.
    pub fn latest(&self, package: &str) -> (outcome: Result<Version, LatestError>)
        ensures
            !is_listed(self.latests@, package@) ==> (outcome matches Err(
                LatestError::NotListed(name),
            ) && name@ == package@),
            is_listed(self.latests@, package@) && newest_release(
                self.releases@,
                package@,
                self.releases@.len() as int,
            ) is None ==> (outcome matches Err(LatestError::NoRelease(name)) && name@ == package@),
            is_listed(self.latests@, package@) ==> (newest_release(
                self.releases@,
                package@,
                self.releases@.len() as int,
            ) matches Some(newest) ==> exists|wanted: int|
                {
                    &&& last_listing(self.latests@, package@, wanted)
                    &&& if self.releases@[newest].version.parts()
                        == self.latests@[wanted].version.parts() {
                        outcome matches Ok(version) && version@ == self.releases@[newest].version@
                    } else {
                        outcome matches Err(LatestError::Mismatch(name)) && name@ == package@
                    }
                }),
    {
        let wanted = last_listed(&self.latests, package);
        let newest = newest_release_of(&self.releases, package);
        let matches_listing = match (wanted, newest) {
            (Some(w), Some(i)) => self.releases[i].version.same_as(&self.latests[w].version),
            _ => false,
        };
        match settle_latest(package, wanted.is_some(), newest, matches_listing) {
            Ok(i) => Ok(self.releases[i].version.duplicate()),
            Err(error) => Err(error),
        }
    }
}

/// Whether `text` is a semantic version.
pub open spec fn is_version(text: Seq<char>) -> bool {
    semver_parsed(text) is Some
}

/// Whether every version of `list` is a semantic version.
pub open spec fn accepts_versions(list: Seq<json::CrateVersion>) -> bool {
    forall|i: int| 0 <= i < list.len() ==> is_version((#[trigger] list[i]).version@)
}

/// Whether `text` is the first version of `list` that is no semantic version.
pub open spec fn refuses_versions(list: Seq<json::CrateVersion>, text: Seq<char>) -> bool {
    exists|i: int|
        {
            &&& 0 <= i < list.len()
            &&& (#[trigger] list[i]).version@ == text
            &&& !is_version(text)
            &&& forall|j: int| 0 <= j < i ==> is_version((#[trigger] list[j]).version@)
        }
}

/// Whether `read` holds the entries of `list`, each with its package and its
/// version.
pub open spec fn mirrors_versions(read: Seq<CrateVersion>, list: Seq<json::CrateVersion>) -> bool {
    &&& read.len() == list.len()
    &&& forall|i: int|
        0 <= i < list.len() ==> (#[trigger] read[i]).package@ == list[i].package@
            && read[i].version@ == list[i].version@
}

/// Whether the versions of `node`, those of its dependencies and its own,
/// are semantic versions.
pub open spec fn accepts_node(node: json::CrateNode) -> bool {
    accepts_versions(node.dependencies@) && is_version(node.version@)
}

/// Whether `text` is the first version of `node` that is no semantic
/// version, the dependencies being read before the node's own version.
pub open spec fn refuses_node(node: json::CrateNode, text: Seq<char>) -> bool {
    refuses_versions(node.dependencies@, text) || (accepts_versions(node.dependencies@)
        && node.version@ == text && !is_version(text))
}

/// Whether `read` holds what `node` holds.
pub open spec fn mirrors_node(read: CrateNode, node: json::CrateNode) -> bool {
    &&& read.package@ == node.package@
    &&& read.version@ == node.version@
    &&& mirrors_versions(read.dependencies@, node.dependencies@)
}

/// Whether every version of every node of `list` is a semantic version.
pub open spec fn accepts_nodes(list: Seq<json::CrateNode>) -> bool {
    forall|i: int| 0 <= i < list.len() ==> accepts_node(#[trigger] list[i])
}

/// Whether `text` is the first version among the nodes of `list` that is no
/// semantic version.
pub open spec fn refuses_nodes(list: Seq<json::CrateNode>, text: Seq<char>) -> bool {
    exists|i: int|
        {
            &&& 0 <= i < list.len()
            &&& refuses_node(#[trigger] list[i], text)
            &&& forall|j: int| 0 <= j < i ==> accepts_node(#[trigger] list[j])
        }
}

/// Whether `read` holds the nodes of `list`.
pub open spec fn mirrors_nodes(read: Seq<CrateNode>, list: Seq<json::CrateNode>) -> bool {
    &&& read.len() == list.len()
    &&& forall|i: int| 0 <= i < list.len() ==> mirrors_node(#[trigger] read[i], list[i])
}

/// Whether every version in `file` is a semantic version.
pub open spec fn accepts_file(file: json::Config) -> bool {
    accepts_versions(file.latests@) && accepts_nodes(file.releases@)
}

/// Whether `text` is the first version in `file` that is no semantic
/// version, the latest releases being read before the releases.
pub open spec fn refuses_file(file: json::Config, text: Seq<char>) -> bool {
    refuses_versions(file.latests@, text) || (accepts_versions(file.latests@) && refuses_nodes(
        file.releases@,
        text,
    ))
}

/// Reads the versions of a list of entries.
pub fn versions_from_json(list: &Vec<json::CrateVersion>) -> (outcome: Result<
    Vec<CrateVersion>,
    InvalidVersion,
>)
    ensures
        outcome is Ok <==> accepts_versions(list@),
        outcome matches Ok(read) ==> mirrors_versions(read@, list@),
        outcome matches Err(error) ==> refuses_versions(list@, error.0@),
{
    let mut read: Vec<CrateVersion> = Vec::new();
    let mut k: usize = 0;
    while k < list.len()
        invariant
            k <= list@.len(),
            read@.len() == k,
            forall|i: int| 0 <= i < k ==> is_version((#[trigger] list@[i]).version@),
            forall|i: int|
                0 <= i < k ==> (#[trigger] read@[i]).package@ == list@[i].package@
                    && read@[i].version@ == list@[i].version@,
        decreases list@.len() - k,
    {
        match CrateVersion::from_json(&list[k]) {
            Ok(entry) => {
                read.push(entry);
            },
            Err(error) => {
                return Err(error);
            },
        }
        k += 1;
    }
    Ok(read)
}

impl CrateVersion {
    /// Reads the version of an entry.
    pub fn from_json(entry: &json::CrateVersion) -> (outcome: Result<CrateVersion, InvalidVersion>)
        ensures
            outcome is Ok <==> is_version(entry.version@),
            outcome matches Ok(read) ==> read.package@ == entry.package@ && read.version@
                == entry.version@,
            outcome matches Err(error) ==> error.0@ == entry.version@,
    {
        match Version::parse(entry.version.as_str()) {
            Ok(version) => Ok(CrateVersion { package: entry.package.clone(), version }),
            Err(error) => Err(error),
        }
    }
}

impl CrateNode {
    /// Reads the versions of a node: those of its dependencies, in order,
    /// then its own.
    pub fn from_json(node: &json::CrateNode) -> (outcome: Result<CrateNode, InvalidVersion>)
        ensures
            outcome is Ok <==> accepts_node(*node),
            outcome matches Ok(read) ==> mirrors_node(read, *node),
            outcome matches Err(error) ==> refuses_node(*node, error.0@),
    {
        let dependencies = match versions_from_json(&node.dependencies) {
            Ok(dependencies) => dependencies,
            Err(error) => {
                return Err(error);
            },
        };
        match Version::parse(node.version.as_str()) {
            Ok(version) => Ok(CrateNode { package: node.package.clone(), version, dependencies }),
            Err(error) => Err(error),
        }
    }
}

impl Config {
    /// Reads every version of a release file: the latest releases first, then
    /// the releases. Fails with the first version that is no semantic
    /// version.
    pub fn from_json(file: &json::Config) -> (outcome: Result<Config, InvalidVersion>)
        ensures
            outcome is Ok <==> accepts_file(*file),
            outcome matches Ok(config) ==> mirrors_versions(config.latests@, file.latests@)
                && mirrors_nodes(config.releases@, file.releases@),
            outcome matches Err(error) ==> refuses_file(*file, error.0@),
    {
        let latests = match versions_from_json(&file.latests) {
            Ok(latests) => latests,
            Err(error) => {
                return Err(error);
            },
        };
        let mut releases: Vec<CrateNode> = Vec::new();
        let mut k: usize = 0;
        while k < file.releases.len()
            invariant
                k <= file.releases@.len(),
                releases@.len() == k,
                accepts_versions(file.latests@),
                forall|i: int| 0 <= i < k ==> accepts_node(#[trigger] file.releases@[i]),
                forall|i: int| 0 <= i < k ==> mirrors_node(#[trigger] releases@[i], file.releases@[i]),
            decreases file.releases@.len() - k,
        {
            match CrateNode::from_json(&file.releases[k]) {
                Ok(node) => {
                    releases.push(node);
                },
                Err(error) => {
                    assert(refuses_node(file.releases@[k as int], error.0@));
                    return Err(error);
                },
            }
            k += 1;
        }
        Ok(Config { latests, releases })
    }
}

/// How a dependency stands against the latest release of its package.
#[derive(Debug, Clone, Copy, PartialEq, Eq, Structural)]
pub enum Freshness {
    /// Major or minor number differ from the latest release.
    Outdated,
    /// Only the patch number differs from the latest release.
    PatchBehind,
    /// Major, minor and patch number are those of the latest release.
    Latest,
}

/// How `used` stands against `latest`, by major, minor and patch number.
pub open spec fn freshness_of(
    used: crate::version::PartsModel,
    latest: crate::version::PartsModel,
) -> Freshness {
    if latest.major != used.major || latest.minor != used.minor {
        Freshness::Outdated
    } else if latest.patch != used.patch {
        Freshness::PatchBehind
    } else {
        Freshness::Latest
    }
}

/// Tells how a version with the parts `used` stands against a latest
/// release with the parts `latest`.
pub fn freshness_of_parts(used: &VersionParts, latest: &VersionParts) -> (verdict: Freshness)
    ensures
        verdict == freshness_of(used@, latest@),
{
    if latest.major != used.major || latest.minor != used.minor {
        Freshness::Outdated
    } else if latest.patch != used.patch {
        Freshness::PatchBehind
    } else {
        Freshness::Latest
    }
}

/// Tells how the version that a manifest asks for stands against the latest
/// release of the package.
pub fn freshness(used: &Version, latest: &Version) -> (verdict: Freshness)
    ensures
        verdict == freshness_of(used.parts(), latest.parts()),
{
    freshness_of_parts(&used.to_parts(), &latest.to_parts())
}

/// `text` followed by as many blanks as it lacks to `width` characters.
pub open spec fn padded(text: Seq<char>, width: nat) -> Seq<char> {
    text + Seq::new(
        if text.len() < width {
            (width - text.len()) as nat
        } else {
            0nat
        },
        |i: int| ' ',
    )
}

/// `text`, filled up with blanks to `width` characters.
pub fn pad(text: &str, width: usize) -> (filled: String)
    ensures
        filled@ == padded(text@, width as nat),
{
    let length = text.unicode_len();
    let mut filled = String::from_str(text);
    let mut k: usize = length;
    proof {
        reveal_strlit(" ");
    }
    assert(filled@ =~= text@ + Seq::new(0nat, |i: int| ' '));
    while k < width
        invariant
            length == text@.len(),
            length <= k,
            k <= width || k == length,
            " "@ == seq![' '],
            filled@ == text@ + Seq::new((k - length) as nat, |i: int| ' '),
        decreases width - k,
    {
        filled.append(" ");
        k += 1;
        assert(filled@ =~= text@ + Seq::new((k - length) as nat, |i: int| ' '));
    }
    filled
}

/// The mark for something in order: a green tick.
pub fn tick() -> (mark: &'static str)
    ensures
        mark@ == "\x1b[92m\u{2713}\x1b[0m"@,
{
    "\x1b[92m\u{2713}\x1b[0m"
}

/// The mark for something amiss: a red cross.
pub fn cross() -> (mark: &'static str)
    ensures
        mark@ == "\x1b[91m\u{2717}\x1b[0m"@,
{
    "\x1b[91m\u{2717}\x1b[0m"
}

/// The start of a line of a list: a dash and the package in a column of
/// twenty characters.
pub open spec fn entry_start(package: Seq<char>) -> Seq<char> {
    "    - "@ + padded(package, 20)
}

/// The start of a line of a list for `package`.
fn start_entry(package: &str) -> (line: String)
    ensures
        line@ == entry_start(package@),
{
    let mut line = String::from_str("    - ");
    line.append(pad(package, 20).as_str());
    line
}

impl CrateVersion {
    /// The line that lists this release.
    pub fn list_line(&self) -> (line: String)
        ensures
            line@ == entry_start(self.package@) + " "@ + self.version@,
    {
        let mut line = start_entry(self.package.as_str());
        line.append(" ");
        line.append(self.version.as_str());
        line
    }

    /// Whether the release that the registry holds as the latest is the one
    /// listed here.
    pub fn is_current(&self, released: &Version) -> (current: bool)
        ensures
            current == (self.version.parts() == released.parts()),
    {
        self.version.same_as(released)
    }

    /// The line that tells how this listing stands against the release that
    /// the registry holds as the latest.
    pub fn check_line(&self, released: &Version) -> (line: String)
        ensures
            line@ == if self.version.parts() == released.parts() {
                self.package@ + " "@ + self.version@ + " \x1b[92m\u{2713}\x1b[0m"@
            } else {
                "Latest crates.io release "@ + self.package@ + " "@ + released@
                    + " does not match the config file latest version "@ + self.version@
            },
    {
        if self.version.same_as(released) {
            let mut line = self.package.clone();
            line.append(" ");
            line.append(self.version.as_str());
            line.append(" \x1b[92m\u{2713}\x1b[0m");
            line
        } else {
            let mut line = String::from_str("Latest crates.io release ");
            line.append(self.package.as_str());
            line.append(" ");
            line.append(released.as_str());
            line.append(" does not match the config file latest version ");
            line.append(self.version.as_str());
            line
        }
    }
}

/// What to tell when every listed release is the latest.
pub fn all_current_message() -> (text: &'static str)
    ensures
        text@ == "\nAll releases on crates.io match those in the config file"@,
{
    "\nAll releases on crates.io match those in the config file"
}

/// What a manifest says of a dependency, as far as the checks read it.
#[derive(Debug, Clone, PartialEq, Eq)]
pub enum DependencyValue {
    /// The dependency is given as a text: its version.
    Text(String),
    /// The dependency is given as a table, which may name the package and
    /// the version; a field that is no text counts as absent.
    Table {
        /// The package, where it differs from the key.
        package: Option<String>,
        /// The version.
        version: Option<String>,
    },
    /// The dependency is given as something else.
    Other,
}

/// The package that the dependency under `key` stands for: the one that its
/// table names, and the key itself otherwise.
pub fn dependency_package<'a>(key: &'a str, value: &'a DependencyValue) -> (package: &'a str)
    ensures
        package@ == match value {
            DependencyValue::Table { package: Some(name), .. } => name@,
            _ => key@,
        },
{
    match value {
        DependencyValue::Table { package: Some(name), .. } => name.as_str(),
        _ => key,
    }
}

/// The version that the manifest asks for, if it names one.
pub fn dependency_version(value: &DependencyValue) -> (version: Option<&str>)
    ensures
        match value {
            DependencyValue::Text(text) => version matches Some(found) && found@ == text@,
            DependencyValue::Table { version: Some(text), .. } => version matches Some(found)
                && found@ == text@,
            _ => version is None,
        },
{
    match value {
        DependencyValue::Text(text) => Some(text.as_str()),
        DependencyValue::Table { version: Some(text), .. } => Some(text.as_str()),
        _ => None,
    }
}

/// The line that tells how a dependency on `package` stands: without a
/// version in the manifest, the latest release; with one, a cross for a
/// version that is outdated and a tick otherwise, the version, and the
/// latest release where the two differ.
pub open spec fn dependency_text(
    package: Seq<char>,
    used: Option<Version>,
    latest: Version,
) -> Seq<char> {
    match used {
        None => entry_start(package) + " "@ + latest@,
        Some(version) => match freshness_of(version.parts(), latest.parts()) {
            Freshness::Outdated => entry_start(package) + " \x1b[91m\u{2717}\x1b[0m      "@
                + version@ + " latest: "@ + latest@,
            Freshness::PatchBehind => entry_start(package) + " \x1b[92m\u{2713}\x1b[0m      "@
                + version@ + " latest: "@ + latest@,
            Freshness::Latest => entry_start(package) + " \x1b[92m\u{2713}\x1b[0m      "@
                + latest@,
        },
    }
}

/// The line to show for a dependency on `package`, of which the manifest
/// asks for `used` and the registry holds `latest` as the latest release.
pub fn dependency_line(package: &str, used: Option<&Version>, latest: &Version) -> (line: String)
    ensures
        line@ == dependency_text(
            package@,
            match used {
                Some(version) => Some(*version),
                None => None,
            },
            *latest,
        ),
{
    let mut line = start_entry(package);
    match used {
        None => {
            line.append(" ");
            line.append(latest.as_str());
        },
        Some(version) => match freshness(version, latest) {
            Freshness::Outdated => {
                line.append(" \x1b[91m\u{2717}\x1b[0m      ");
                line.append(version.as_str());
                line.append(" latest: ");
                line.append(latest.as_str());
            },
            Freshness::PatchBehind => {
                line.append(" \x1b[92m\u{2713}\x1b[0m      ");
                line.append(version.as_str());
                line.append(" latest: ");
                line.append(latest.as_str());
            },
            Freshness::Latest => {
                line.append(" \x1b[92m\u{2713}\x1b[0m      ");
                line.append(latest.as_str());
            },
        },
    }
    line
}

} // verus!
