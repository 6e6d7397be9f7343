//! The release file as it is written: every version is still a text.

use vstd::prelude::*;

verus! {

/// The release file.
#[derive(Debug, Clone, PartialEq, Eq)]
pub struct Config {
    /// The organisation that the file relates to.
    pub org: String,
    /// List of the latest releases.
    pub latests: Vec<CrateVersion>,
    /// List of all releases that checks are run against.
    pub releases: Vec<CrateNode>,
}

/// A specific version of a crate.
#[derive(Debug, Clone, PartialEq, Eq)]
pub struct CrateVersion {
    /// The crate's package name.
    pub package: String,
    /// The version, as written.
    pub version: String,
}

/// A version of one of the crates along with its dependencies and their
/// versions.
#[derive(Debug, Clone, PartialEq, Eq)]
pub struct CrateNode {
    /// The crate's package name.
    pub package: String,
    /// The release's version, as written.
    pub version: String,
    /// List of this release's dependencies.
    pub dependencies: Vec<CrateVersion>,
}

} // verus!
