//! Baseline-versus-current compatibility: which feature configurations of
//! which packages lost or changed public items between two revisions.

use vstd::prelude::*;
use crate::api::{ItemModel, PackageApiSet};
use crate::catalog::{catalog, catalog_order, FeatureConfig};
use crate::packages::PackageInfo;
use crate::api::item_models;
use crate::diff::{
    breaks, changed_lines, changed_models, diff, diff_of, push_changed_lines, push_removed_lines,
    removed_lines, ApiDiff,
};
use vstd::string::StringExecFns;
use crate::text::{join3, texts};

verus! {

/// The comparison of one package under one feature configuration.
#[derive(Debug, PartialEq, Eq)]
pub struct ConfigOutcome {
    /// The configuration compared.
    pub config: FeatureConfig,
    /// What changed from the baseline to the current revision.
    pub diff: ApiDiff,
}

/// The comparison of one package under every feature configuration, in
/// catalog order.
#[derive(Debug, PartialEq, Eq)]
pub struct BreakingChangeReport {
    /// The package compared.
    pub package: String,
    /// One outcome per configuration.
    pub outcomes: Vec<ConfigOutcome>,
}

/// Whether `report` is the comparison of package `name` from `baseline` to
/// `current`: one outcome per configuration of the catalog, in catalog order,
/// each holding the difference between the two snapshots of its
/// configuration, with no entry listed twice.
pub open spec fn reports_comparison(
    report: BreakingChangeReport,
    name: Seq<char>,
    current: Map<FeatureConfig, Set<ItemModel>>,
    baseline: Map<FeatureConfig, Set<ItemModel>>,
) -> bool {
    &&& report.package@ == name
    &&& report.outcomes@.len() == catalog_order().len()
    &&& forall|i: int|
        0 <= i < catalog_order().len() ==> {
            &&& (#[trigger] report.outcomes@[i]).config == catalog_order()[i]
            &&& report.outcomes@[i].diff@ == diff_of(
                baseline[catalog_order()[i]],
                current[catalog_order()[i]],
            )
            &&& report.outcomes@[i].diff.distinct()
        }
}

/// Whether going from `baseline` to `current` removes or changes an item
/// under some feature configuration.
pub open spec fn breaks_compatibility(
    current: Map<FeatureConfig, Set<ItemModel>>,
    baseline: Map<FeatureConfig, Set<ItemModel>>,
) -> bool {
    exists|config: FeatureConfig| #[trigger] breaks(diff_of(baseline[config], current[config]))
}

/// The heading of the findings for `package` under the configuration shown
/// as `label`.
pub open spec fn finding_heading(package: Seq<char>, label: Seq<char>) -> Seq<char> {
    "API changes detected in "@ + package + " ("@ + label + ")"@
}

impl ConfigOutcome {
    /// The diagnostic lines of this outcome for `package`: nothing where
    /// nothing was removed or changed; otherwise a heading that names the
    /// package and the configuration, the removed items under their own
    /// heading if there are any, and the changed pairs under theirs if there
    /// are any.
    pub open spec fn finding_texts(&self, package: Seq<char>) -> Seq<Seq<char>> {
        if self.diff.removed@.len() == 0 && self.diff.changed@.len() == 0 {
            Seq::<Seq<char>>::empty()
        } else {
            seq![finding_heading(package, self.config.display_text())] + (if self.diff.removed@.len()
                > 0 {
                seq!["  Items removed:"@] + removed_lines(item_models(self.diff.removed@))
            } else {
                Seq::<Seq<char>>::empty()
            }) + (if self.diff.changed@.len() > 0 {
                seq!["  Items changed:"@] + changed_lines(changed_models(self.diff.changed@))
            } else {
                Seq::<Seq<char>>::empty()
            })
        }
    }

    /// Appends the diagnostic lines of this outcome for `package_name`.
    pub fn push_finding_lines(&self, package_name: &str, lines: &mut Vec<String>)
        ensures
            texts(final(lines)@) == texts(old(lines)@) + self.finding_texts(package_name@),
    {
        let ghost start = texts(lines@);
        if self.diff.removed.len() == 0 && self.diff.changed.len() == 0 {
            assert(texts(lines@) =~= start + Seq::<Seq<char>>::empty());
            return ;
        }
        let mut heading = String::from_str("API changes detected in ");
        heading.append(package_name);
        heading.append(" (");
        heading.append(self.config.display_name());
        heading.append(")");
        let ghost before = lines@;
        lines.push(heading);
        assert(texts(lines@) =~= start + seq![
            finding_heading(package_name@, self.config.display_text()),
        ]);
        if self.diff.removed.len() > 0 {
            let ghost shown = texts(lines@);
            lines.push(String::from_str("  Items removed:"));
            assert(texts(lines@) =~= shown + seq!["  Items removed:"@]);
            push_removed_lines(lines, &self.diff.removed);
        }
        if self.diff.changed.len() > 0 {
            let ghost shown = texts(lines@);
            lines.push(String::from_str("  Items changed:"));
            assert(texts(lines@) =~= shown + seq!["  Items changed:"@]);
            push_changed_lines(lines, &self.diff.changed);
        }
        assert(texts(lines@) =~= start + self.finding_texts(package_name@));
    }

    /// Whether this configuration lost or changed an item.
    pub fn is_breaking(&self) -> (breaking: bool)
        ensures
            breaking == breaks(self.diff@),
    {
        self.diff.is_breaking()
    }
}

/// The diagnostic lines of `outcomes` for `package`, outcome after outcome.
pub open spec fn findings_texts(outcomes: Seq<ConfigOutcome>, package: Seq<char>) -> Seq<Seq<char>>
    decreases outcomes.len(),
{
    if outcomes.len() == 0 {
        Seq::empty()
    } else {
        findings_texts(outcomes.drop_last(), package) + outcomes.last().finding_texts(package)
    }
}

impl BreakingChangeReport {
    /// The diagnostic lines to show for this report: for every configuration
    /// that lost or changed an item, the package, the label of the
    /// configuration and every offending signature.
    pub fn report_lines(&self) -> (lines: Vec<String>)
        ensures
            texts(lines@) == findings_texts(self.outcomes@, self.package@),
    {
        let mut lines: Vec<String> = Vec::new();
        let mut k: usize = 0;
        assert(texts(lines@) =~= findings_texts(self.outcomes@.take(0), self.package@));
        while k < self.outcomes.len()
            invariant
                k <= self.outcomes@.len(),
                texts(lines@) == findings_texts(self.outcomes@.take(k as int), self.package@),
            decreases self.outcomes@.len() - k,
        {
            proof {
                assert(self.outcomes@.take(k + 1).drop_last() =~= self.outcomes@.take(k as int));
                assert(self.outcomes@.take(k + 1).last() == self.outcomes@[k as int]);
            }
            self.outcomes[k].push_finding_lines(self.package.as_str(), &mut lines);
            k += 1;
        }
        assert(self.outcomes@.take(k as int) =~= self.outcomes@);
        lines
    }

    /// Whether some outcome of this report breaks compatibility.
    pub open spec fn breaking(&self) -> bool {
        exists|i: int| 0 <= i < self.outcomes@.len() && breaks((#[trigger] self.outcomes@[i]).diff@)
    }

    /// Whether some configuration lost or changed an item. Additions alone
    /// do not break.
    pub fn is_breaking(&self) -> (breaking: bool)
        ensures
            breaking == self.breaking(),
    {
        let mut k: usize = 0;
        while k < self.outcomes.len()
            invariant
                k <= self.outcomes@.len(),
                forall|i: int| 0 <= i < k ==> !breaks((#[trigger] self.outcomes@[i]).diff@),
            decreases self.outcomes@.len() - k,
        {
            if self.outcomes[k].is_breaking() {
                return true;
            }
            k += 1;
        }
        false
    }

    /// The configurations that lost or changed an item, in the order of the
    /// outcomes.
    pub fn breaking_configs(&self) -> (configs: Vec<FeatureConfig>)
        ensures
            configs@ == breaking_among(self.outcomes@, self.outcomes@.len() as int),
    {
        let mut configs: Vec<FeatureConfig> = Vec::new();
        let mut k: usize = 0;
        while k < self.outcomes.len()
            invariant
                k <= self.outcomes@.len(),
                configs@ == breaking_among(self.outcomes@, k as int),
            decreases self.outcomes@.len() - k,
        {
            if self.outcomes[k].is_breaking() {
                configs.push(self.outcomes[k].config);
            }
            k += 1;
        }
        configs
    }
}

/// The configurations among the first `upto` outcomes that lost or changed
/// an item, in order.
pub open spec fn breaking_among(outcomes: Seq<ConfigOutcome>, upto: int) -> Seq<FeatureConfig>
    decreases upto,
{
    if upto <= 0 {
        Seq::empty()
    } else {
        let earlier = breaking_among(outcomes, upto - 1);
        if breaks(outcomes[upto - 1].diff@) {
            earlier.push(outcomes[upto - 1].config)
        } else {
            earlier
        }
    }
}

/// Compares the snapshots of `package` at the current revision with those at
/// the baseline, configuration by configuration.
///
/// A configuration breaks compatibility when the step from its baseline
/// snapshot to its current snapshot removes or changes an item; the report
/// breaks when some configuration does.
pub fn compare(package: &PackageInfo, current: &PackageApiSet, baseline: &PackageApiSet) -> (report:
    BreakingChangeReport)
    ensures
        reports_comparison(report, package.name@, current@, baseline@),
        report.breaking() == breaks_compatibility(current@, baseline@),
{
    let configs = catalog();
    let mut outcomes: Vec<ConfigOutcome> = Vec::new();
    let mut k: usize = 0;
    while k < configs.len()
        invariant
            k <= configs@.len(),
            configs@ == catalog_order(),
            outcomes@.len() == k,
            forall|i: int|
                0 <= i < k ==> {
                    &&& (#[trigger] outcomes@[i]).config == catalog_order()[i]
                    &&& outcomes@[i].diff@ == diff_of(
                        baseline@[catalog_order()[i]],
                        current@[catalog_order()[i]],
                    )
                    &&& outcomes@[i].diff.distinct()
                },
        decreases configs@.len() - k,
    {
        let config = configs[k];
        let found = diff(baseline.get(config), current.get(config));
        outcomes.push(ConfigOutcome { config, diff: found });
        k += 1;
    }
    let report = BreakingChangeReport { package: package.name.clone(), outcomes };
    proof {
        comparison_breaks_with_its_snapshots(report, package.name@, current@, baseline@);
    }
    report
}

/// A comparison report breaks exactly when its two sets of snapshots differ
/// by a removal or a change under some configuration.
pub proof fn comparison_breaks_with_its_snapshots(
    report: BreakingChangeReport,
    name: Seq<char>,
    current: Map<FeatureConfig, Set<ItemModel>>,
    baseline: Map<FeatureConfig, Set<ItemModel>>,
)
    requires
        reports_comparison(report, name, current, baseline),
    ensures
        report.breaking() == breaks_compatibility(current, baseline),
{
    if report.breaking() {
        let i = choose|i: int|
            0 <= i < report.outcomes@.len() && breaks((#[trigger] report.outcomes@[i]).diff@);
        assert(breaks(diff_of(baseline[catalog_order()[i]], current[catalog_order()[i]])));
    }
    if breaks_compatibility(current, baseline) {
        let config = choose|config: FeatureConfig| #[trigger]
            breaks(diff_of(baseline[config], current[config]));
        crate::catalog::catalog_is_complete(config);
        let i = config.index();
        assert(breaks(report.outcomes@[i].diff@));
    }
}

/// A current revision that keeps every baseline item, under every
/// configuration, does not break compatibility, whatever it adds.
pub proof fn additions_do_not_break(
    current: Map<FeatureConfig, Set<ItemModel>>,
    baseline: Map<FeatureConfig, Set<ItemModel>>,
)
    requires
        forall|config: FeatureConfig| (#[trigger] baseline[config]).subset_of(current[config]),
    ensures
        !breaks_compatibility(current, baseline),
{
    assert forall|config: FeatureConfig| !#[trigger] breaks(
        diff_of(baseline[config], current[config]),
    ) by {
        assert(baseline[config].subset_of(current[config]));
        assert(diff_of(baseline[config], current[config]).removed =~= Set::<ItemModel>::empty());
        assert(diff_of(baseline[config], current[config]).changed
            =~= Set::<crate::diff::ChangedModel>::empty());
    }
}

/// A baseline item that the current revision lacks under some configuration
/// breaks compatibility.
pub proof fn lost_item_breaks(
    current: Map<FeatureConfig, Set<ItemModel>>,
    baseline: Map<FeatureConfig, Set<ItemModel>>,
    config: FeatureConfig,
    item: ItemModel,
)
    requires
        baseline[config].contains(item),
        !current[config].contains(item),
    ensures
        breaks_compatibility(current, baseline),
{
    crate::diff::diff_accounts_for_every_difference(baseline[config], current[config], item);
    assert(breaks(diff_of(baseline[config], current[config])));
}

/// The snapshots of one package, as one entry of the table of a revision.
#[derive(Debug)]
pub struct PackageApis {
    /// The package that the snapshots belong to.
    pub package: String,
    /// Its snapshots, one per configuration.
    pub apis: PackageApiSet,
}

/// One of the two revisions of a comparison.
#[derive(Debug, Clone, Copy, PartialEq, Eq, Structural)]
pub enum Revision {
    /// The revision compared against.
    Baseline,
    /// The revision being checked.
    Current,
}

/// A package that one of the two revisions lacks. It is reported and left
/// out of the comparison; it is no failure.
#[derive(Debug, PartialEq, Eq)]
pub struct MissingPackageWarning {
    /// The package that could not be compared.
    pub package: String,
    /// The revision that has no snapshots for it.
    pub missing_from: Revision,
}

/// What the comparison found for one requested package.
#[derive(Debug, PartialEq, Eq)]
pub enum PackageOutcome {
    /// Both revisions hold the package; here is its comparison.
    Compared(BreakingChangeReport),
    /// A revision lacks the package; it was skipped.
    Skipped(MissingPackageWarning),
}

/// The comparison of every requested package, in the order requested.
#[derive(Debug, PartialEq, Eq)]
pub struct SemverReport {
    /// One outcome per requested package.
    pub outcomes: Vec<PackageOutcome>,
}

/// Whether `table` has an entry for package `name`.
pub open spec fn listed(table: Seq<PackageApis>, name: Seq<char>) -> bool {
    exists|i: int| 0 <= i < table.len() && (#[trigger] table[i]).package@ == name
}

/// Whether entry `i` is the first entry of `table` for package `name`.
pub open spec fn first_listing(table: Seq<PackageApis>, name: Seq<char>, i: int) -> bool {
    &&& 0 <= i < table.len()
    &&& table[i].package@ == name
    &&& forall|j: int| 0 <= j < i ==> (#[trigger] table[j]).package@ != name
}

/// Whether `outcome` is what the comparison owes for package `name`: a
/// warning where the baseline lacks the package, else a warning where the
/// current revision lacks it, else the comparison of the first entry of each
/// table.
pub open spec fn settles(
    outcome: PackageOutcome,
    name: Seq<char>,
    current: Seq<PackageApis>,
    baseline: Seq<PackageApis>,
) -> bool {
    if !listed(baseline, name) {
        outcome matches PackageOutcome::Skipped(warning) && warning.package@ == name
            && warning.missing_from == Revision::Baseline
    } else if !listed(current, name) {
        outcome matches PackageOutcome::Skipped(warning) && warning.package@ == name
            && warning.missing_from == Revision::Current
    } else {
        outcome matches PackageOutcome::Compared(report) && exists|b: int, c: int|
            #![trigger baseline[b], current[c]]
            first_listing(baseline, name, b) && first_listing(current, name, c)
                && reports_comparison(report, name, current[c].apis@, baseline[b].apis@)
    }
}

/// Position of the first entry of `table` for package `name`.
pub fn find_package(table: &Vec<PackageApis>, name: &String) -> (found: Option<usize>)
    ensures
        found is Some <==> listed(table@, name@),
        found matches Some(i) ==> first_listing(table@, name@, i as int),
{
    let mut k: usize = 0;
    while k < table.len()
        invariant
            k <= table@.len(),
            forall|j: int| 0 <= j < k ==> (#[trigger] table@[j]).package@ != name@,
        decreases table@.len() - k,
    {
        if table[k].package == *name {
            return Some(k);
        }
        k += 1;
    }
    None
}

impl MissingPackageWarning {
    /// The text of this warning.
    pub open spec fn message_text(&self) -> Seq<char> {
        match self.missing_from {
            Revision::Baseline => "Warning: Package '"@ + self.package@
                + "' not found in baseline - skipping comparison"@,
            Revision::Current => "Warning: Package '"@ + self.package@
                + "' exists in baseline but not in current - possible removal"@,
        }
    }

    /// The text to show for this warning.
    pub fn message(&self) -> (text: String)
        ensures
            text@ == self.message_text(),
    {
        match self.missing_from {
            Revision::Baseline => join3(
                "Warning: Package '",
                self.package.as_str(),
                "' not found in baseline - skipping comparison",
            ),
            Revision::Current => join3(
                "Warning: Package '",
                self.package.as_str(),
                "' exists in baseline but not in current - possible removal",
            ),
        }
    }
}

impl PackageOutcome {
    /// Whether this outcome is a comparison that breaks compatibility. A
    /// skipped package never does.
    pub open spec fn breaking(&self) -> bool {
        self matches PackageOutcome::Compared(report) && report.breaking()
    }
}

/// What to tell the user when a comparison found breaking changes.
pub fn breaking_message() -> (text: &'static str)
    ensures
        text@ == "Semver compatibility check failed: breaking changes detected"@,
{
    "Semver compatibility check failed: breaking changes detected"
}

impl SemverReport {
    /// Whether some compared package breaks compatibility.
    pub open spec fn breaking(&self) -> bool {
        exists|i: int| 0 <= i < self.outcomes@.len() && (#[trigger] self.outcomes@[i]).breaking()
    }

    /// Whether some compared package lost or changed an item under some
    /// configuration. Skipped packages play no part.
    pub fn is_breaking(&self) -> (breaking: bool)
        ensures
            breaking == self.breaking(),
    {
        let mut k: usize = 0;
        while k < self.outcomes.len()
            invariant
                k <= self.outcomes@.len(),
                forall|i: int| 0 <= i < k ==> !(#[trigger] self.outcomes@[i]).breaking(),
            decreases self.outcomes@.len() - k,
        {
            match &self.outcomes[k] {
                PackageOutcome::Compared(report) => {
                    if report.is_breaking() {
                        return true;
                    }
                },
                PackageOutcome::Skipped(_) => {},
            }
            k += 1;
        }
        false
    }

    /// The texts of the warnings of this report, in the order of the packages.
    pub open spec fn warning_texts(outcomes: Seq<PackageOutcome>) -> Seq<Seq<char>>
        decreases outcomes.len(),
    {
        if outcomes.len() == 0 {
            Seq::empty()
        } else {
            let earlier = Self::warning_texts(outcomes.drop_last());
            match outcomes.last() {
                PackageOutcome::Skipped(warning) => earlier.push(warning.message_text()),
                PackageOutcome::Compared(_) => earlier,
            }
        }
    }

    /// The warnings to show: one per skipped package, in the order of the
    /// packages.
    pub fn warnings(&self) -> (messages: Vec<String>)
        ensures
            texts(messages@) == Self::warning_texts(self.outcomes@),
    {
        let mut messages: Vec<String> = Vec::new();
        let mut k: usize = 0;
        assert(texts(messages@) =~= Self::warning_texts(self.outcomes@.take(0)));
        while k < self.outcomes.len()
            invariant
                k <= self.outcomes@.len(),
                texts(messages@) == Self::warning_texts(self.outcomes@.take(k as int)),
            decreases self.outcomes@.len() - k,
        {
            let ghost before = messages@;
            proof {
                assert(self.outcomes@.take(k + 1).drop_last() =~= self.outcomes@.take(k as int));
                assert(self.outcomes@.take(k + 1).last() == self.outcomes@[k as int]);
            }
            match &self.outcomes[k] {
                PackageOutcome::Skipped(warning) => {
                    let message = warning.message();
                    messages.push(message);
                    assert(texts(messages@) =~= texts(before).push(message@));
                },
                PackageOutcome::Compared(_) => {},
            }
            k += 1;
        }
        assert(self.outcomes@.take(k as int) =~= self.outcomes@);
        messages
    }
}

/// A feature configuration of a package under which the current revision
/// removed or changed an item.
#[derive(Debug, Clone, PartialEq, Eq)]
pub struct BreakingChangeError {
    /// The package that broke compatibility.
    pub package: String,
    /// The configuration under which it did.
    pub config: FeatureConfig,
}

/// One error per configuration of `configs`, each for `package`.
pub open spec fn errors_for(package: Seq<char>, configs: Seq<FeatureConfig>) -> Seq<
    (Seq<char>, FeatureConfig),
> {
    Seq::new(configs.len(), |i: int| (package, configs[i]))
}

/// The breaking configurations of the first `upto` outcomes, each with its
/// package, in the order of the packages and of the catalog.
pub open spec fn errors_among(outcomes: Seq<PackageOutcome>, upto: int) -> Seq<
    (Seq<char>, FeatureConfig),
>
    decreases upto,
{
    if upto <= 0 {
        Seq::empty()
    } else {
        let earlier = errors_among(outcomes, upto - 1);
        match outcomes[upto - 1] {
            PackageOutcome::Compared(report) => earlier + errors_for(
                report.package@,
                breaking_among(report.outcomes@, report.outcomes@.len() as int),
            ),
            PackageOutcome::Skipped(_) => earlier,
        }
    }
}

/// The package and the configuration of each error.
pub open spec fn error_pairs(errors: Seq<BreakingChangeError>) -> Seq<(Seq<char>, FeatureConfig)> {
    Seq::new(errors.len(), |i: int| (errors[i].package@, errors[i].config))
}

impl SemverReport {
    /// Every breaking change of this report: one error per package and
    /// configuration that removed or changed an item, across all packages.
    pub fn breaking_changes(&self) -> (errors: Vec<BreakingChangeError>)
        ensures
            error_pairs(errors@) == errors_among(self.outcomes@, self.outcomes@.len() as int),
    {
        let mut errors: Vec<BreakingChangeError> = Vec::new();
        let mut k: usize = 0;
        assert(error_pairs(errors@) =~= errors_among(self.outcomes@, 0));
        while k < self.outcomes.len()
            invariant
                k <= self.outcomes@.len(),
                error_pairs(errors@) == errors_among(self.outcomes@, k as int),
            decreases self.outcomes@.len() - k,
        {
            match &self.outcomes[k] {
                PackageOutcome::Compared(report) => {
                    let configs = report.breaking_configs();
                    let ghost start = error_pairs(errors@);
                    let mut j: usize = 0;
                    assert(error_pairs(errors@) =~= start + errors_for(
                        report.package@,
                        configs@.take(0),
                    ));
                    while j < configs.len()
                        invariant
                            j <= configs@.len(),
                            error_pairs(errors@) == start + errors_for(
                                report.package@,
                                configs@.take(j as int),
                            ),
                        decreases configs@.len() - j,
                    {
                        let ghost before = error_pairs(errors@);
                        errors.push(
                            BreakingChangeError {
                                package: report.package.clone(),
                                config: configs[j],
                            },
                        );
                        assert(error_pairs(errors@) =~= before.push(
                            (report.package@, configs@[j as int]),
                        ));
                        assert(error_pairs(errors@) =~= start + errors_for(
                            report.package@,
                            configs@.take(j + 1),
                        ));
                        j += 1;
                    }
                    assert(configs@.take(j as int) =~= configs@);
                },
                PackageOutcome::Skipped(_) => {},
            }
            k += 1;
        }
        errors
    }
}

/// Compares every requested package between the two revisions.
///
/// A package that the baseline table lacks, or else that the current table
/// lacks, yields a warning and is skipped; every other package is compared
/// under every feature configuration. The report holds one outcome per
/// requested package, in the order requested.
pub fn compare_all(
    packages: &Vec<PackageInfo>,
    current: &Vec<PackageApis>,
    baseline: &Vec<PackageApis>,
) -> (report: SemverReport)
    ensures
        report.outcomes@.len() == packages@.len(),
        forall|i: int|
            0 <= i < packages@.len() ==> settles(
                #[trigger] report.outcomes@[i],
                packages@[i].name@,
                current@,
                baseline@,
            ),
{
    let mut outcomes: Vec<PackageOutcome> = Vec::new();
    let mut k: usize = 0;
    while k < packages.len()
        invariant
            k <= packages@.len(),
            outcomes@.len() == k,
            forall|i: int|
                0 <= i < k ==> settles(
                    #[trigger] outcomes@[i],
                    packages@[i].name@,
                    current@,
                    baseline@,
                ),
        decreases packages@.len() - k,
    {
        let package = &packages[k];
        let outcome = match find_package(baseline, &package.name) {
            None => PackageOutcome::Skipped(
                MissingPackageWarning {
                    package: package.name.clone(),
                    missing_from: Revision::Baseline,
                },
            ),
            Some(b) => match find_package(current, &package.name) {
                None => PackageOutcome::Skipped(
                    MissingPackageWarning {
                        package: package.name.clone(),
                        missing_from: Revision::Current,
                    },
                ),
                Some(c) => {
                    let report = compare(package, &current[c].apis, &baseline[b].apis);
                    assert(first_listing(baseline@, package.name@, b as int) && first_listing(
                        current@,
                        package.name@,
                        c as int,
                    ) && reports_comparison(
                        report,
                        package.name@,
                        current@[c as int].apis@,
                        baseline@[b as int].apis@,
                    ));
                    PackageOutcome::Compared(report)
                },
            },
        };
        assert(settles(outcome, package.name@, current@, baseline@));
        outcomes.push(outcome);
        k += 1;
    }
    SemverReport { outcomes }
}

/// A package that one revision lacks cannot make the run fail: its outcome
/// is a warning, and a warning never counts as breaking.
pub proof fn missing_package_is_no_failure(
    outcome: PackageOutcome,
    name: Seq<char>,
    current: Seq<PackageApis>,
    baseline: Seq<PackageApis>,
)
    requires
        settles(outcome, name, current, baseline),
        !listed(baseline, name) || !listed(current, name),
    ensures
        outcome is Skipped,
        !outcome.breaking(),
{
}

} // verus!
