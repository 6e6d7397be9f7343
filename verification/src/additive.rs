//! The rule that features are additive: enabling every feature may add public
//! items, but may not remove or alter an item that exists without features.

use vstd::prelude::*;
use crate::api::{covers_catalog, item_models, ApiItem, ItemModel, PackageApiSet};
use crate::catalog::FeatureConfig;
use crate::diff::{
    breaks, changed_lines, changed_models, diff, diff_accounts_for_every_difference, diff_of,
    push_changed_lines, push_removed_lines, removed_lines, ChangedItem, ChangedModel,
};
use crate::text::{join3, texts};
use vstd::string::StringExecFns;

verus! {

/// Enabling every feature removed or changed the listed items. No entry
/// occurs twice in a list, and at least one list has an entry.
#[derive(Debug, PartialEq, Eq)]
pub struct NonAdditiveError {
    /// Items that exist without features and are gone with all features.
    pub removed: Vec<ApiItem>,
    /// Items that exist without features and look different with all features.
    pub changed: Vec<ChangedItem>,
}

/// Whether the all-features snapshot keeps every item of the no-features
/// snapshot under its name and signature.
pub open spec fn is_additive(set: Map<FeatureConfig, Set<ItemModel>>) -> bool {
    !breaks(diff_of(set[FeatureConfig::NoFeatures], set[FeatureConfig::All]))
}

/// Checks that the all-features snapshot of `set` only adds to its
/// no-features snapshot.
///
/// Fails when the comparison from no features to all features removes or
/// changes an item; the error then lists every removed item and every
/// changed pair.
pub fn check_additive(set: &PackageApiSet) -> (outcome: Result<(), NonAdditiveError>)
    ensures
        outcome is Ok <==> is_additive(set@),
        outcome matches Err(error) ==> {
            &&& item_models(error.removed@).no_duplicates()
            &&& changed_models(error.changed@).no_duplicates()
            &&& item_models(error.removed@).to_set() == diff_of(
                set@[FeatureConfig::NoFeatures],
                set@[FeatureConfig::All],
            ).removed
            &&& changed_models(error.changed@).to_set() == diff_of(
                set@[FeatureConfig::NoFeatures],
                set@[FeatureConfig::All],
            ).changed
        },
{
    let found = diff(set.get(FeatureConfig::NoFeatures), set.get(FeatureConfig::All));
    if found.is_breaking() {
        Err(NonAdditiveError { removed: found.removed, changed: found.changed })
    } else {
        Ok(())
    }
}

/// The diagnostic for a violation in `package`: a heading, then the removed
/// items under their own heading if there are any, then the changed pairs
/// under theirs if there are any.
pub open spec fn violation_lines(
    package: Seq<char>,
    removed: Seq<ItemModel>,
    changed: Seq<ChangedModel>,
) -> Seq<Seq<char>> {
    seq!["Non-additive features detected in "@ + package + ":"@] + (if removed.len() > 0 {
        seq!["  Items removed when enabling features:"@] + removed_lines(removed)
    } else {
        Seq::<Seq<char>>::empty()
    }) + (if changed.len() > 0 {
        seq!["  Items changed when enabling features:"@] + changed_lines(changed)
    } else {
        Seq::<Seq<char>>::empty()
    })
}

impl NonAdditiveError {
    /// The diagnostic lines for this error in `package`.
    pub open spec fn report_texts(&self, package: Seq<char>) -> Seq<Seq<char>> {
        violation_lines(package, item_models(self.removed@), changed_models(self.changed@))
    }

    /// The one-line summary of this error.
    pub fn message(&self) -> (text: &'static str)
        ensures
            text@ == "Non-additive features detected"@,
    {
        "Non-additive features detected"
    }

    /// The diagnostic lines to show for this error in package `package_name`:
    /// every offending item with its full signature and, for a changed item,
    /// both signatures.
    pub fn report_lines(&self, package_name: &str) -> (lines: Vec<String>)
        ensures
            texts(lines@) == self.report_texts(package_name@),
    {
        let mut lines: Vec<String> = Vec::new();
        lines.push(join3("Non-additive features detected in ", package_name, ":"));
        assert(texts(lines@) =~= seq!["Non-additive features detected in "@ + package_name@ + ":"@]);
        if self.removed.len() > 0 {
            let ghost before = texts(lines@);
            lines.push(String::from_str("  Items removed when enabling features:"));
            assert(texts(lines@) =~= before + seq!["  Items removed when enabling features:"@]);
            push_removed_lines(&mut lines, &self.removed);
        }
        let ghost middle = texts(lines@);
        if self.changed.len() > 0 {
            lines.push(String::from_str("  Items changed when enabling features:"));
            assert(texts(lines@) =~= middle + seq!["  Items changed when enabling features:"@]);
            push_changed_lines(&mut lines, &self.changed);
        }
        assert(texts(lines@) =~= violation_lines(
            package_name@,
            item_models(self.removed@),
            changed_models(self.changed@),
        ));
        lines
    }
}

/// A complete set whose all-features snapshot contains its no-features
/// snapshot passes the additive rule.
pub proof fn superset_is_additive(set: Map<FeatureConfig, Set<ItemModel>>)
    requires
        covers_catalog(set),
        set[FeatureConfig::NoFeatures].subset_of(set[FeatureConfig::All]),
    ensures
        is_additive(set),
{
    let old = set[FeatureConfig::NoFeatures];
    let new = set[FeatureConfig::All];
    assert(diff_of(old, new).removed =~= Set::<ItemModel>::empty());
    assert(diff_of(old, new).changed =~= Set::<ChangedModel>::empty());
}

/// An item of the no-features snapshot that the all-features snapshot lacks
/// makes the rule fail, and the failure names it: as a removed item, or as
/// the earlier side of a changed pair.
pub proof fn missing_item_is_reported(set: Map<FeatureConfig, Set<ItemModel>>, item: ItemModel)
    requires
        set[FeatureConfig::NoFeatures].contains(item),
        !set[FeatureConfig::All].contains(item),
    ensures
        !is_additive(set),
        diff_of(set[FeatureConfig::NoFeatures], set[FeatureConfig::All]).removed.contains(item)
            || exists|c: ChangedModel| #[trigger]
            diff_of(set[FeatureConfig::NoFeatures], set[FeatureConfig::All]).changed.contains(c)
                && c.before == item,
{
    diff_accounts_for_every_difference(
        set[FeatureConfig::NoFeatures],
        set[FeatureConfig::All],
        item,
    );
}

} // verus!
