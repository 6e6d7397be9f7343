//! Settings that a workspace or package may give in its configuration file,
//! as plain values.

use vstd::prelude::*;

verus! {

/// Path to the configuration file, relative to the workspace or package root.
pub fn config_file_path() -> (path: &'static str)
    ensures
        path@ == "rbmt.toml"@,
{
    "rbmt.toml"
}

/// Settings for fuzz testing.
#[derive(Debug, Clone, PartialEq, Eq, Default)]
pub struct FuzzConfig {
    /// Package name containing fuzz targets.
    pub package: Option<String>,
}

impl FuzzConfig {
    /// The package that holds the fuzz targets.
    pub open spec fn package_text(&self) -> Seq<char> {
        match self.package {
            Some(name) => name@,
            None => "fuzz"@,
        }
    }

    /// Get the package name; `fuzz` where none is configured.
    pub fn package_name(&self) -> (name: &str)
        ensures
            name@ == self.package_text(),
    {
        match &self.package {
            Some(name) => name.as_str(),
            None => "fuzz",
        }
    }
}

/// Settings for integration testing.
#[derive(Debug, Clone, PartialEq, Eq, Default)]
pub struct IntegrationConfig {
    /// Package name containing integration tests.
    pub package: Option<String>,
    /// Versions of the node to test, each one on its own. Every version that
    /// the integration package offers is tested where none is given.
    pub versions: Option<Vec<String>>,
}

impl IntegrationConfig {
    /// The package that holds the integration tests.
    pub open spec fn package_text(&self) -> Seq<char> {
        match self.package {
            Some(name) => name@,
            None => "bitcoind-tests"@,
        }
    }

    /// Get the package name; `bitcoind-tests` where none is configured.
    pub fn package_name(&self) -> (name: &str)
        ensures
            name@ == self.package_text(),
    {
        match &self.package {
            Some(name) => name.as_str(),
            None => "bitcoind-tests",
        }
    }
}

} // verus!
