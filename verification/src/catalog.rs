//! The feature configurations under which a public API is extracted.

use vstd::prelude::*;

verus! {

/// A build profile under which the public surface of a package is extracted.
#[derive(Debug, Clone, Copy, PartialEq, Eq, Hash, Structural)]
pub enum FeatureConfig {
    /// No features enabled.
    NoFeatures,
    /// Only the `alloc` feature enabled.
    Alloc,
    /// All features enabled.
    All,
}

impl FeatureConfig {
    /// Position of this configuration in the catalog.
    pub open spec fn index(self) -> int {
        match self {
            FeatureConfig::NoFeatures => 0,
            FeatureConfig::Alloc => 1,
            FeatureConfig::All => 2,
        }
    }

    /// The file name under which a snapshot for this configuration is stored.
    pub open spec fn filename_text(self) -> Seq<char> {
        match self {
            FeatureConfig::NoFeatures => "no-features.txt"@,
            FeatureConfig::Alloc => "alloc-only.txt"@,
            FeatureConfig::All => "all-features.txt"@,
        }
    }

    /// The label shown to users for this configuration.
    pub open spec fn display_text(self) -> Seq<char> {
        match self {
            FeatureConfig::NoFeatures => "no-features"@,
            FeatureConfig::Alloc => "alloc-only"@,
            FeatureConfig::All => "all-features"@,
        }
    }

    /// The build flags that select this configuration.
    pub open spec fn cargo_arg_texts(self) -> Seq<Seq<char>> {
        match self {
            FeatureConfig::NoFeatures => seq!["--no-default-features"@],
            FeatureConfig::Alloc => seq!["--no-default-features"@, "--features=alloc"@],
            FeatureConfig::All => seq!["--all-features"@],
        }
    }

    /// Get the filename for this configuration.
    pub fn filename(self) -> (name: &'static str)
        ensures
            name@ == self.filename_text(),
    {
        match self {
            FeatureConfig::NoFeatures => "no-features.txt",
            FeatureConfig::Alloc => "alloc-only.txt",
            FeatureConfig::All => "all-features.txt",
        }
    }

    /// Get a display name for this configuration.
    pub fn display_name(self) -> (name: &'static str)
        ensures
            name@ == self.display_text(),
    {
        match self {
            FeatureConfig::NoFeatures => "no-features",
            FeatureConfig::Alloc => "alloc-only",
            FeatureConfig::All => "all-features",
        }
    }

    /// Get the cargo arguments for this configuration.
    pub fn cargo_args(self) -> (args: Vec<&'static str>)
        ensures
            args@.len() == self.cargo_arg_texts().len(),
            forall|i: int| 0 <= i < args@.len() ==> (#[trigger] args@[i])@ == self.cargo_arg_texts()[i],
    {
        match self {
            FeatureConfig::NoFeatures => vec!["--no-default-features"],
            FeatureConfig::Alloc => vec!["--no-default-features", "--features=alloc"],
            FeatureConfig::All => vec!["--all-features"],
        }
    }
}

/// The catalog as a sequence, in the order in which it is walked.
pub open spec fn catalog_order() -> Seq<FeatureConfig> {
    seq![FeatureConfig::NoFeatures, FeatureConfig::Alloc, FeatureConfig::All]
}

/// The fixed, ordered list of every feature configuration.
pub fn catalog() -> (configs: Vec<FeatureConfig>)
    ensures
        configs@ == catalog_order(),
{
    vec![FeatureConfig::NoFeatures, FeatureConfig::Alloc, FeatureConfig::All]
}

/// Every configuration occurs in the catalog, once, at its own index.
pub proof fn catalog_is_complete(config: FeatureConfig)
    ensures
        0 <= config.index() < catalog_order().len(),
        catalog_order()[config.index()] == config,
        forall|i: int| 0 <= i < catalog_order().len() && catalog_order()[i] == config ==> i == config.index(),
{
}

} // verus!
