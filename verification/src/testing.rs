//! Which test runs a package gets: its examples and its feature matrix.

use vstd::prelude::*;
use vstd::string::{StrSliceExecFns, StringExecFns};
use crate::text::{chars_of, join2, join_with, joined, texts};

verus! {

/// Conventional feature flags used across the packages.
#[derive(Debug, Clone, Copy, PartialEq, Eq, Structural)]
pub enum FeatureFlag {
    /// Enable the standard library.
    Std,
    /// Legacy feature to disable standard library.
    NoStd,
}

impl FeatureFlag {
    /// The feature that this flag names.
    pub open spec fn text(self) -> Seq<char> {
        match self {
            FeatureFlag::Std => "std"@,
            FeatureFlag::NoStd => "no-std"@,
        }
    }

    /// Get the feature string for this flag.
    pub fn as_str(&self) -> (name: &'static str)
        ensures
            name@ == self.text(),
    {
        match self {
            FeatureFlag::Std => "std",
            FeatureFlag::NoStd => "no-std",
        }
    }
}

/// Settings for testing a package.
#[derive(Debug, Clone, PartialEq, Eq, Default)]
pub struct TestConfig {
    /// Examples to run, each as `name`, `name:-` or `name:features`.
    pub examples: Vec<String>,
    /// Features to test together with `std`.
    pub features_with_std: Vec<String>,
    /// Features to test without `std`.
    pub features_without_std: Vec<String>,
    /// Exact feature combinations to test, and nothing besides them.
    pub exact_features: Vec<Vec<String>>,
    /// Features to test together with `no-std`.
    pub features_with_no_std: Vec<String>,
}

/// The flag that switches debug assertions for a test run.
pub fn debug_assertions_flag(no_debug_assertions: bool) -> (flag: &'static str)
    ensures
        flag@ == if no_debug_assertions {
            "-C debug-assertions=off"@
        } else {
            "-C debug-assertions=on"@
        },
{
    if no_debug_assertions {
        "-C debug-assertions=off"
    } else {
        "-C debug-assertions=on"
    }
}

/// The features that an example is run with.
#[derive(Debug, Clone, PartialEq, Eq)]
pub enum ExampleFeatures {
    /// The default features.
    Default,
    /// No default features.
    NoDefault,
    /// The named features, as one text.
    Only(String),
}

/// One example to run.
#[derive(Debug, Clone, PartialEq, Eq)]
pub struct ExampleRun {
    /// The example's name.
    pub name: String,
    /// The features to run it with.
    pub features: ExampleFeatures,
}

/// An example entry with more than one colon. The field holds the entry.
#[derive(Debug, Clone, PartialEq, Eq)]
pub struct InvalidExample(pub String);

/// Number of colons in `text`.
pub open spec fn colon_count(text: Seq<char>) -> nat
    decreases text.len(),
{
    if text.len() == 0 {
        0
    } else {
        colon_count(text.drop_last()) + if text.last() == ':' {
            1nat
        } else {
            0nat
        }
    }
}

/// Whether `at` is the position of the first colon of `text`.
pub open spec fn first_colon(text: Seq<char>, at: int) -> bool {
    &&& 0 <= at < text.len()
    &&& text[at] == ':'
    &&& forall|k: int| 0 <= k < at ==> #[trigger] text[k] != ':'
}

/// Whether `run` is what the entry `text` asks for: the whole entry names
/// the example where there is no colon; otherwise the name stands before the
/// colon and the features behind it, a lone hyphen standing for "no default
/// features".
pub open spec fn reads_example(text: Seq<char>, run: ExampleRun) -> bool {
    if colon_count(text) == 0 {
        run.name@ == text && run.features == ExampleFeatures::Default
    } else {
        exists|at: int|
            {
                &&& first_colon(text, at)
                &&& run.name@ == text.subrange(0, at)
                &&& if text.subrange(at + 1, text.len() as int) == "-"@ {
                    run.features == ExampleFeatures::NoDefault
                } else {
                    run.features matches ExampleFeatures::Only(features) && features@
                        == text.subrange(at + 1, text.len() as int)
                }
            }
    }
}

impl InvalidExample {
    /// The text to show for this error.
    pub fn message(&self) -> (text: String)
        ensures
            text@ == "Invalid example format: "@ + self.0@
                + ", expected 'name', 'name:-', or 'name:features'"@,
    {
        let mut text = String::from_str("Invalid example format: ");
        text.append(self.0.as_str());
        text.append(", expected 'name', 'name:-', or 'name:features'");
        text
    }
}

/// Reads one example entry: `name`, `name:-` or `name:features`.
///
/// An entry with more than one colon is refused.
pub fn parse_example(example: &str) -> (outcome: Result<ExampleRun, InvalidExample>)
    ensures
        outcome is Ok <==> colon_count(example@) <= 1,
        outcome matches Ok(run) ==> reads_example(example@, run),
        outcome matches Err(error) ==> error.0@ == example@,
{
    let chars = chars_of(example);
    let mut colons: usize = 0;
    let mut first: usize = 0;
    let mut k: usize = 0;
    assert(chars@.take(0) =~= Seq::<char>::empty());
    while k < chars.len()
        invariant
            k <= chars@.len(),
            colons <= k,
            colons == colon_count(chars@.take(k as int)),
            colons > 0 ==> first_colon(chars@, first as int) && first < k,
            colons == 0 ==> forall|i: int| 0 <= i < k ==> #[trigger] chars@[i] != ':',
        decreases chars@.len() - k,
    {
        proof {
            let longer = chars@.take(k + 1);
            assert(longer.drop_last() =~= chars@.take(k as int));
            assert(longer.last() == chars@[k as int]);
        }
        if chars[k] == ':' {
            if colons == 0 {
                first = k;
            }
            colons += 1;
        }
        k += 1;
    }
    assert(chars@.take(k as int) =~= chars@);
    if colons == 0 {
        Ok(ExampleRun { name: example.to_owned(), features: ExampleFeatures::Default })
    } else if colons == 1 {
        let name = example.substring_char(0, first).to_owned();
        let rest = example.substring_char(first + 1, chars.len());
        let features = if crate::text::text_eq(rest, "-") {
            ExampleFeatures::NoDefault
        } else {
            ExampleFeatures::Only(rest.to_owned())
        };
        let run = ExampleRun { name, features };
        assert(reads_example(example@, run));
        Ok(run)
    } else {
        Err(InvalidExample(example.to_owned()))
    }
}

/// The arguments that `run` adds to `cargo --locked run`.
pub open spec fn example_arg_texts(run: ExampleRun) -> Seq<Seq<char>> {
    match run.features {
        ExampleFeatures::Default => seq!["--example"@, run.name@],
        ExampleFeatures::NoDefault => seq!["--no-default-features"@, "--example"@, run.name@],
        ExampleFeatures::Only(features) => seq![
            "--example"@,
            run.name@,
            "--features="@ + features@,
        ],
    }
}

impl ExampleRun {
    /// The arguments to put behind `cargo --locked run` for this example.
    pub fn cargo_args(&self) -> (args: Vec<String>)
        ensures
            texts(args@) == example_arg_texts(*self),
    {
        let mut args: Vec<String> = Vec::new();
        match &self.features {
            ExampleFeatures::Default => {
                args.push(String::from_str("--example"));
                args.push(self.name.clone());
            },
            ExampleFeatures::NoDefault => {
                args.push(String::from_str("--no-default-features"));
                args.push(String::from_str("--example"));
                args.push(self.name.clone());
            },
            ExampleFeatures::Only(features) => {
                args.push(String::from_str("--example"));
                args.push(self.name.clone());
                args.push(join2("--features=", features.as_str()));
            },
        }
        assert(texts(args@) =~= example_arg_texts(*self));
        args
    }
}

/// The features of one test run: the base feature, if any, followed by
/// `extra`, separated by blanks.
pub open spec fn combination(base: Option<FeatureFlag>, extra: Seq<Seq<char>>) -> Seq<char> {
    match base {
        Some(flag) => joined(seq![flag.text()] + extra, " "@),
        None => joined(extra, " "@),
    }
}

/// The combinations of feature `i` with each of the features `i + 1` up to
/// `upto - 1`, in that order.
pub open spec fn pair_combinations(
    base: Option<FeatureFlag>,
    features: Seq<Seq<char>>,
    i: int,
    upto: int,
) -> Seq<Seq<char>>
    decreases upto - i,
{
    if upto <= i + 1 {
        Seq::empty()
    } else {
        pair_combinations(base, features, i, upto - 1).push(
            combination(base, seq![features[i], features[upto - 1]]),
        )
    }
}

/// For each of the first `count` features: the feature alone, then the
/// feature paired with each later one.
pub open spec fn single_and_pair_combinations(
    base: Option<FeatureFlag>,
    features: Seq<Seq<char>>,
    count: int,
) -> Seq<Seq<char>>
    decreases count,
{
    if count <= 0 {
        Seq::empty()
    } else {
        single_and_pair_combinations(base, features, count - 1) + seq![
            combination(base, seq![features[count - 1]]),
        ] + pair_combinations(base, features, count - 1, features.len() as int)
    }
}

/// The feature combinations that test `features` on top of `base`: all of
/// them together; then, where there is more than one, each alone and each
/// pair.
pub open spec fn combinations(base: Option<FeatureFlag>, features: Seq<Seq<char>>) -> Seq<
    Seq<char>,
> {
    seq![combination(base, features)] + if features.len() > 1 {
        single_and_pair_combinations(base, features, features.len() as int)
    } else {
        Seq::empty()
    }
}

/// The text that selects the base feature, if any, and `extra`.
pub fn combine_features(base: Option<FeatureFlag>, extra: &Vec<String>) -> (text: String)
    ensures
        text@ == combination(base, texts(extra@)),
{
    match base {
        Some(flag) => {
            let mut all: Vec<String> = Vec::new();
            all.push(String::from_str(flag.as_str()));
            let mut k: usize = 0;
            while k < extra.len()
                invariant
                    k <= extra@.len(),
                    all@.len() == k + 1,
                    all@[0]@ == flag.text(),
                    forall|i: int| 0 <= i < k ==> (#[trigger] all@[i + 1])@ == extra@[i]@,
                decreases extra@.len() - k,
            {
                all.push(extra[k].clone());
                k += 1;
            }
            proof {
                let want = seq![flag.text()] + texts(extra@);
                assert(texts(all@).len() == want.len());
                assert forall|i: int| 0 <= i < want.len() implies texts(all@)[i] == want[i] by {
                    if i > 0 {
                        assert(all@[(i - 1) + 1]@ == extra@[i - 1]@);
                    }
                }
                assert(texts(all@) =~= want);
            }
            join_with(&all, " ")
        },
        None => join_with(extra, " "),
    }
}

/// The feature combinations to test for `features` on top of `base`, in the
/// order in which they are tested.
///
/// All features together come first. Where there is more than one feature,
/// each feature follows alone, and behind it its pairs with every later
/// feature: pairs catch features that work alone and clash together, at a
/// cost that stays quadratic.
pub fn feature_combinations(base: Option<FeatureFlag>, features: &Vec<String>) -> (runs: Vec<
    String,
>)
    ensures
        texts(runs@) == combinations(base, texts(features@)),
{
    let mut runs: Vec<String> = Vec::new();
    let together = combine_features(base, features);
    runs.push(together);
    let ghost names = texts(features@);
    assert(texts(runs@) =~= seq![combination(base, names)]);
    if features.len() > 1 {
        let mut i: usize = 0;
        while i < features.len()
            invariant
                i <= features@.len(),
                names == texts(features@),
                texts(runs@) == seq![combination(base, names)] + single_and_pair_combinations(
                    base,
                    names,
                    i as int,
                ),
            decreases features@.len() - i,
        {
            let ghost before = texts(runs@);
            let mut single: Vec<String> = Vec::new();
            single.push(features[i].clone());
            assert(texts(single@) =~= seq![names[i as int]]);
            let alone = combine_features(base, &single);
            runs.push(alone);
            assert(texts(runs@) =~= before + seq![combination(base, seq![names[i as int]])]);
            let ghost row_start = texts(runs@);
            let mut j: usize = i + 1;
            while j < features.len()
                invariant
                    i < j <= features@.len(),
                    names == texts(features@),
                    texts(runs@) == row_start + pair_combinations(base, names, i as int, j as int),
                decreases features@.len() - j,
            {
                let ghost shown = texts(runs@);
                let mut pair: Vec<String> = Vec::new();
                pair.push(features[i].clone());
                pair.push(features[j].clone());
                assert(texts(pair@) =~= seq![names[i as int], names[j as int]]);
                let both = combine_features(base, &pair);
                runs.push(both);
                assert(texts(runs@) =~= shown.push(both@));
                assert(texts(runs@) =~= row_start + pair_combinations(
                    base,
                    names,
                    i as int,
                    j + 1,
                ));
                j += 1;
            }
            assert(texts(runs@) =~= seq![combination(base, names)] + single_and_pair_combinations(
                base,
                names,
                i + 1,
            ));
            i += 1;
        }
    }
    runs
}

/// One invocation of the test suite.
#[derive(Debug, Clone, PartialEq, Eq)]
pub enum TestRun {
    /// Without the default features.
    NoDefaultFeatures,
    /// With every feature.
    AllFeatures,
    /// Without the default features and with the named ones, given as one
    /// text in which blanks separate the features.
    Features(String),
}

/// What a [`TestRun`] stands for.
pub enum TestRunModel {
    NoDefaultFeatures,
    AllFeatures,
    Features(Seq<char>),
}

impl View for TestRun {
    type V = TestRunModel;

    open spec fn view(&self) -> TestRunModel {
        match self {
            TestRun::NoDefaultFeatures => TestRunModel::NoDefaultFeatures,
            TestRun::AllFeatures => TestRunModel::AllFeatures,
            TestRun::Features(features) => TestRunModel::Features(features@),
        }
    }
}

/// The models of a sequence of runs, position by position.
pub open spec fn run_models(runs: Seq<TestRun>) -> Seq<TestRunModel> {
    Seq::new(runs.len(), |i: int| runs[i]@)
}

/// One run per combination, each with the features of its combination.
pub open spec fn feature_runs(combos: Seq<Seq<char>>) -> Seq<TestRunModel> {
    Seq::new(combos.len(), |i: int| TestRunModel::Features(combos[i]))
}

/// One run per exact combination: its features, separated by blanks.
pub open spec fn exact_runs(exact: Seq<Vec<String>>) -> Seq<TestRunModel> {
    Seq::new(exact.len(), |i: int| TestRunModel::Features(joined(texts(exact[i]@), " "@)))
}

/// The test runs that `config` asks for, in order.
///
/// Exact combinations, where given, are all that is run. Otherwise: the run
/// without default features, or, for a package with features to test on top
/// of `no-std`, the run with `no-std` alone and the combinations on top of
/// it; the run with all features; the combinations on top of `std`; and the
/// combinations without a base feature.
pub open spec fn matrix(config: TestConfig) -> Seq<TestRunModel> {
    if config.exact_features@.len() > 0 {
        exact_runs(config.exact_features@)
    } else {
        (if config.features_with_no_std@.len() > 0 {
            seq![TestRunModel::Features(FeatureFlag::NoStd.text())] + feature_runs(
                combinations(Some(FeatureFlag::NoStd), texts(config.features_with_no_std@)),
            )
        } else {
            seq![TestRunModel::NoDefaultFeatures]
        }) + seq![TestRunModel::AllFeatures] + (if config.features_with_std@.len() > 0 {
            feature_runs(combinations(Some(FeatureFlag::Std), texts(config.features_with_std@)))
        } else {
            Seq::empty()
        }) + (if config.features_without_std@.len() > 0 {
            feature_runs(combinations(None, texts(config.features_without_std@)))
        } else {
            Seq::empty()
        })
    }
}

/// The arguments that a run adds to `cargo --locked test`.
pub open spec fn test_arg_texts(run: TestRunModel) -> Seq<Seq<char>> {
    match run {
        TestRunModel::NoDefaultFeatures => seq!["--no-default-features"@],
        TestRunModel::AllFeatures => seq!["--all-features"@],
        TestRunModel::Features(features) => seq![
            "--no-default-features"@,
            "--features="@ + features,
        ],
    }
}

impl TestRun {
    /// The arguments to put behind `cargo --locked test` for this run.
    pub fn cargo_args(&self) -> (args: Vec<String>)
        ensures
            texts(args@) == test_arg_texts(self@),
    {
        let mut args: Vec<String> = Vec::new();
        match self {
            TestRun::NoDefaultFeatures => {
                args.push(String::from_str("--no-default-features"));
            },
            TestRun::AllFeatures => {
                args.push(String::from_str("--all-features"));
            },
            TestRun::Features(features) => {
                args.push(String::from_str("--no-default-features"));
                args.push(join2("--features=", features.as_str()));
            },
        }
        assert(texts(args@) =~= test_arg_texts(self@));
        args
    }
}

/// Appends one run per combination of `combos`.
fn push_feature_runs(runs: &mut Vec<TestRun>, combos: &Vec<String>)
    ensures
        run_models(final(runs)@) == run_models(old(runs)@) + feature_runs(texts(combos@)),
{
    let ghost start = run_models(runs@);
    let mut k: usize = 0;
    assert(run_models(runs@) =~= start + feature_runs(texts(combos@).take(0)));
    while k < combos.len()
        invariant
            k <= combos@.len(),
            run_models(runs@) == start + feature_runs(texts(combos@).take(k as int)),
        decreases combos@.len() - k,
    {
        let ghost before = run_models(runs@);
        runs.push(TestRun::Features(combos[k].clone()));
        assert(run_models(runs@) =~= before.push(TestRunModel::Features(combos@[k as int]@)));
        assert(run_models(runs@) =~= start + feature_runs(texts(combos@).take(k + 1)));
        k += 1;
    }
    assert(texts(combos@).take(k as int) =~= texts(combos@));
}

/// The test runs of the feature matrix of `config`, in order.
pub fn feature_matrix(config: &TestConfig) -> (runs: Vec<TestRun>)
    ensures
        run_models(runs@) == matrix(*config),
{
    let mut runs: Vec<TestRun> = Vec::new();
    if config.exact_features.len() > 0 {
        let mut k: usize = 0;
        while k < config.exact_features.len()
            invariant
                k <= config.exact_features@.len(),
                runs@.len() == k,
                forall|i: int|
                    0 <= i < k ==> (#[trigger] runs@[i])@ == TestRunModel::Features(
                        joined(texts(config.exact_features@[i]@), " "@),
                    ),
            decreases config.exact_features@.len() - k,
        {
            runs.push(TestRun::Features(join_with(&config.exact_features[k], " ")));
            k += 1;
        }
        assert(run_models(runs@) =~= exact_runs(config.exact_features@));
        return runs;
    }
    if config.features_with_no_std.len() > 0 {
        runs.push(TestRun::Features(String::from_str(FeatureFlag::NoStd.as_str())));
        assert(run_models(runs@) =~= seq![TestRunModel::Features(FeatureFlag::NoStd.text())]);
        let combos = feature_combinations(Some(FeatureFlag::NoStd), &config.features_with_no_std);
        push_feature_runs(&mut runs, &combos);
    } else {
        runs.push(TestRun::NoDefaultFeatures);
        assert(run_models(runs@) =~= seq![TestRunModel::NoDefaultFeatures]);
    }
    let ghost first = run_models(runs@);
    runs.push(TestRun::AllFeatures);
    assert(run_models(runs@) =~= first + seq![TestRunModel::AllFeatures]);
    let ghost second = run_models(runs@);
    if config.features_with_std.len() > 0 {
        let combos = feature_combinations(Some(FeatureFlag::Std), &config.features_with_std);
        push_feature_runs(&mut runs, &combos);
    } else {
        assert(run_models(runs@) =~= second + Seq::<TestRunModel>::empty());
    }
    let ghost third = run_models(runs@);
    if config.features_without_std.len() > 0 {
        let combos = feature_combinations(None, &config.features_without_std);
        push_feature_runs(&mut runs, &combos);
    } else {
        assert(run_models(runs@) =~= third + Seq::<TestRunModel>::empty());
    }
    assert(run_models(runs@) =~= matrix(*config));
    runs
}

} // verus!
