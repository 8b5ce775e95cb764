//! The test-suite runner: suites, their cases, and the report of a run.

use vstd::prelude::*;
use crate::request::ExecProgramArgs;

verus! {

/// A test case: its name and the line of its suite at which it is
/// defined.
#[derive(Clone, Debug, PartialEq, Eq)]
pub struct TestCase {
    pub name: String,
    pub line: u64,
}

/// The test cases of one source file, in the order of their definition.
#[derive(Clone, Debug, PartialEq, Eq)]
pub struct TestSuite {
    /// The path of the source file. It identifies the suite.
    pub path: String,
    pub cases: Vec<TestCase>,
}

/// How suites are run.
#[derive(Clone, Debug, PartialEq, Eq)]
pub struct TestOptions {
    /// The arguments every case is evaluated with.
    pub exec_args: ExecProgramArgs,
}

impl Default for TestOptions {
    fn default() -> (opts: Self)
        ensures
            opts.exec_args.work_dir@.len() == 0,
            opts.exec_args.k_filename_list@.len() == 0,
            opts.exec_args.args@.len() == 0,
            !opts.exec_args.disable_yaml_result,
            !opts.exec_args.compile_only,
    {
        TestOptions { exec_args: ExecProgramArgs::default() }
    }
}

/// How the evaluation of one case ended: how long it took, in
/// microseconds, and the error it ended in, if it did. A fault of the
/// engine during a case is an error of that case.
#[derive(Clone, Debug, PartialEq, Eq)]
pub struct CaseOutcome {
    pub duration: u64,
    pub error: Option<String>,
}

/// The entry of one case in a report.
#[derive(Clone, Debug, PartialEq, Eq)]
pub struct TestInfo {
    pub name: String,
    pub duration: u64,
    pub error: Option<String>,
}

/// The report of a run: one entry for each case of the suite, in the
/// order of the cases.
#[derive(Clone, Debug, PartialEq, Eq)]
pub struct TestResult {
    pub info: Vec<TestInfo>,
}

/// A test case as contracts see it.
pub struct TestCaseView {
    pub name: Seq<char>,
    pub line: u64,
}

/// A suite as contracts see it.
pub struct TestSuiteView {
    pub path: Seq<char>,
    pub cases: Seq<TestCaseView>,
}

/// The outcome of a case as contracts see it.
pub struct CaseOutcomeView {
    pub duration: u64,
    pub error: Option<Seq<char>>,
}

/// An entry of a report as contracts see it.
pub struct TestInfoView {
    pub name: Seq<char>,
    pub duration: u64,
    pub error: Option<Seq<char>>,
}

/// The view of an error that may be absent.
pub open spec fn error_view(error: Option<String>) -> Option<Seq<char>> {
    match error {
        Some(text) => Some(text@),
        None => None,
    }
}

impl View for TestCase {
    type V = TestCaseView;

    open spec fn view(&self) -> TestCaseView {
        TestCaseView { name: self.name@, line: self.line }
    }
}

impl View for TestSuite {
    type V = TestSuiteView;

    open spec fn view(&self) -> TestSuiteView {
        TestSuiteView { path: self.path@, cases: self.cases@.map_values(|c: TestCase| c@) }
    }
}

impl View for CaseOutcome {
    type V = CaseOutcomeView;

    open spec fn view(&self) -> CaseOutcomeView {
        CaseOutcomeView { duration: self.duration, error: error_view(self.error) }
    }
}

impl View for TestInfo {
    type V = TestInfoView;

    open spec fn view(&self) -> TestInfoView {
        TestInfoView { name: self.name@, duration: self.duration, error: error_view(self.error) }
    }
}

impl View for TestResult {
    type V = Seq<TestInfoView>;

    open spec fn view(&self) -> Seq<TestInfoView> {
        self.info@.map_values(|i: TestInfo| i@)
    }
}

/// The entry that records `outcome` for `case`.
pub open spec fn spec_record(case: TestCaseView, outcome: CaseOutcomeView) -> TestInfoView {
    TestInfoView { name: case.name, duration: outcome.duration, error: outcome.error }
}

/// The report of a run in which case `i` ended in `outcomes[i]`.
pub open spec fn spec_report(cases: Seq<TestCaseView>, outcomes: Seq<CaseOutcomeView>) -> Seq<
    TestInfoView,
> {
    Seq::new(cases.len(), |i: int| spec_record(cases[i], outcomes[i]))
}

/// A report with every duration set to zero: what is left is what two
/// runs are compared by.
pub open spec fn spec_without_durations(report: Seq<TestInfoView>) -> Seq<TestInfoView> {
    report.map_values(|i: TestInfoView| TestInfoView { duration: 0, ..i })
}

/// Which cases passed: each name with whether its case ended without
/// error.
pub open spec fn spec_verdicts(report: Seq<TestInfoView>) -> Seq<(Seq<char>, bool)> {
    report.map_values(|i: TestInfoView| (i.name, i.error is None))
}

/// Copies an error that may be absent.
fn copy_error(error: &Option<String>) -> (copy: Option<String>)
    ensures
        copy == *error,
{
    match error {
        Some(text) => Some(text.clone()),
        None => None,
    }
}

/// `entry` is an entry that a run may record for case `i` of `suite`: the
/// name of the case with the duration and the error of an outcome of
/// `run_case` on it.
pub open spec fn is_entry_of<F>(
    suite: &TestSuite,
    i: int,
    opts: &TestOptions,
    run_case: F,
    entry: TestInfoView,
) -> bool where F: Fn(&TestSuite, &TestCase, &TestOptions) -> CaseOutcome {
    exists|outcome: CaseOutcome|
        #![trigger call_ensures(run_case, (suite, &suite.cases@[i], opts), outcome)]
        call_ensures(run_case, (suite, &suite.cases@[i], opts), outcome) && entry == spec_record(
            suite.cases@[i]@,
            outcome@,
        )
}

impl TestSuite {
    /// Runs the cases of this suite one after the other, first case
    /// first.
    ///
    /// `run_case` evaluates one case and says how it ended. Every case is
    /// run once, whatever the cases before it ended in, and the report has
    /// the entry of each: its name, and the duration and the error that
    /// `run_case` gave for it.
    pub fn run<F>(&self, opts: &TestOptions, run_case: F) -> (result: TestResult)
        where
            F: Fn(&TestSuite, &TestCase, &TestOptions) -> CaseOutcome,
        requires
            forall|i: int|
                0 <= i < self.cases@.len() ==> call_requires(
                    run_case,
                    (self, &#[trigger] self.cases@[i], opts),
                ),
        ensures
            is_report_of(self, opts, run_case, result@),
    {
        let mut info: Vec<TestInfo> = Vec::new();
        let mut i: usize = 0;
        while i < self.cases.len()
            invariant
                i <= self.cases@.len(),
                info@.len() == i,
                forall|k: int|
                    0 <= k < self.cases@.len() ==> call_requires(
                        run_case,
                        (self, &#[trigger] self.cases@[k], opts),
                    ),
                forall|k: int|
                    0 <= k < i ==> is_entry_of(self, k, opts, run_case, (#[trigger] info@[k])@),
            decreases self.cases@.len() - i,
        {
            let case = &self.cases[i];
            let outcome = run_case(self, case, opts);
            let entry = TestInfo {
                name: case.name.clone(),
                duration: outcome.duration,
                error: outcome.error,
            };
            proof {
                assert(call_ensures(run_case, (self, &self.cases@[i as int], opts), outcome));
                assert(entry@ == spec_record(self.cases@[i as int]@, outcome@));
                assert(is_entry_of(self, i as int, opts, run_case, entry@));
            }
            info.push(entry);
            i += 1;
        }
        let result = TestResult { info };
        assert forall|k: int| 0 <= k < self.cases@.len() implies is_entry_of(
            self,
            k,
            opts,
            run_case,
            #[trigger] result@[k],
        ) by {
            assert(result@[k] == result.info@[k]@);
        }
        result
    }
}

/// `report` is a report that a run of `suite` may give: an entry for
/// each case, in the order of the cases.
pub open spec fn is_report_of<F>(
    suite: &TestSuite,
    opts: &TestOptions,
    run_case: F,
    report: Seq<TestInfoView>,
) -> bool where F: Fn(&TestSuite, &TestCase, &TestOptions) -> CaseOutcome {
    &&& report.len() == suite.cases@.len()
    &&& forall|i: int|
        0 <= i < suite.cases@.len() ==> is_entry_of(suite, i, opts, run_case, #[trigger] report[i])
}

/// `report` is a report that a run of `suites` may give: the reports of
/// the suites, one behind the other in the order of the suites.
pub open spec fn is_report_of_all<F>(
    suites: Seq<TestSuite>,
    opts: &TestOptions,
    run_case: F,
    report: Seq<TestInfoView>,
) -> bool where F: Fn(&TestSuite, &TestCase, &TestOptions) -> CaseOutcome
    decreases suites.len(),
{
    if suites.len() == 0 {
        report.len() == 0
    } else {
        let last = suites.last().cases@.len();
        &&& last <= report.len()
        &&& is_report_of_all(
            suites.drop_last(),
            opts,
            run_case,
            report.subrange(0, report.len() - last),
        )
        &&& is_report_of(
            &suites.last(),
            opts,
            run_case,
            report.subrange(report.len() - last, report.len() as int),
        )
    }
}

/// Runs suites one after the other, first suite first, and gives one
/// report for all of them: the cases of the first suite first.
pub fn run_all<F>(suites: &Vec<TestSuite>, opts: &TestOptions, run_case: F) -> (result: TestResult)
    where
        F: Fn(&TestSuite, &TestCase, &TestOptions) -> CaseOutcome,
    requires
        forall|k: int, i: int|
            0 <= k < suites@.len() && 0 <= i < suites@[k].cases@.len() ==> call_requires(
                run_case,
                (&suites@[k], &#[trigger] suites@[k].cases@[i], opts),
            ),
    ensures
        is_report_of_all(suites@, opts, run_case, result@),
{
    let mut info: Vec<TestInfo> = Vec::new();
    let mut k: usize = 0;
    proof {
        assert(suites@.take(0).len() == 0);
    }
    while k < suites.len()
        invariant
            k <= suites@.len(),
            forall|k: int, i: int|
                0 <= k < suites@.len() && 0 <= i < suites@[k].cases@.len() ==> call_requires(
                    run_case,
                    (&suites@[k], &#[trigger] suites@[k].cases@[i], opts),
                ),
            is_report_of_all(
                suites@.take(k as int),
                opts,
                run_case,
                info@.map_values(|i: TestInfo| i@),
            ),
        decreases suites@.len() - k,
    {
        let suite = &suites[k];
        let ghost before = info@.map_values(|i: TestInfo| i@);
        let mut i: usize = 0;
        while i < suite.cases.len()
            invariant
                i <= suite.cases@.len(),
                suite == &suites@[k as int],
                k < suites@.len(),
                forall|k: int, i: int|
                    0 <= k < suites@.len() && 0 <= i < suites@[k].cases@.len() ==> call_requires(
                        run_case,
                        (&suites@[k], &#[trigger] suites@[k].cases@[i], opts),
                    ),
                info@.len() == before.len() + i,
                info@.map_values(|i: TestInfo| i@).subrange(0, before.len() as int) == before,
                forall|j: int|
                    0 <= j < i ==> is_entry_of(
                        suite,
                        j,
                        opts,
                        run_case,
                        (#[trigger] info@[before.len() + j])@,
                    ),
            decreases suite.cases@.len() - i,
        {
            let case = &suite.cases[i];
            proof {
                assert(call_requires(run_case, (&suites@[k as int], &suites@[k as int].cases@[i as int], opts)));
            }
            let outcome = run_case(suite, case, opts);
            let entry = TestInfo {
                name: case.name.clone(),
                duration: outcome.duration,
                error: outcome.error,
            };
            proof {
                assert(call_ensures(run_case, (suite, &suite.cases@[i as int], opts), outcome));
                assert(is_entry_of(suite, i as int, opts, run_case, entry@));
            }
            let ghost old_info = info@;
            info.push(entry);
            proof {
                assert(info@.map_values(|i: TestInfo| i@).subrange(0, before.len() as int)
                    =~= old_info.map_values(|i: TestInfo| i@).subrange(0, before.len() as int));
                assert forall|j: int| 0 <= j < i + 1 implies is_entry_of(
                    suite,
                    j,
                    opts,
                    run_case,
                    (#[trigger] info@[before.len() + j])@,
                ) by {
                    if j < i {
                        assert(info@[before.len() + j] == old_info[before.len() + j]);
                    }
                }
            }
            i += 1;
        }
        proof {
            let now = info@.map_values(|i: TestInfo| i@);
            let n = suite.cases@.len();
            assert(suites@.take(k + 1).last() == suites@[k as int]);
            assert(suites@.take(k + 1).drop_last() =~= suites@.take(k as int));
            assert(now.subrange(0, now.len() - n) == before);
            let tail = now.subrange(now.len() - n, now.len() as int);
            assert forall|j: int| 0 <= j < n implies is_entry_of(
                suite,
                j,
                opts,
                run_case,
                #[trigger] tail[j],
            ) by {
                assert(tail[j] == info@[before.len() + j]@);
            }
            assert(is_report_of(suite, opts, run_case, tail));
        }
        k += 1;
    }
    proof {
        assert(suites@.take(suites@.len() as int) =~= suites@);
    }
    TestResult { info }
}

impl TestResult {
    /// This report with every duration set to zero.
    pub fn without_durations(&self) -> (bare: TestResult)
        ensures
            bare@ == spec_without_durations(self@),
    {
        let mut info: Vec<TestInfo> = Vec::new();
        let mut i: usize = 0;
        while i < self.info.len()
            invariant
                i <= self.info@.len(),
                info@.len() == i,
                forall|k: int|
                    0 <= k < i ==> (#[trigger] info@[k])@ == (TestInfoView {
                        duration: 0,
                        ..self.info@[k]@
                    }),
            decreases self.info@.len() - i,
        {
            let entry = &self.info[i];
            info.push(
                TestInfo { name: entry.name.clone(), duration: 0, error: copy_error(&entry.error) },
            );
            i += 1;
        }
        let bare = TestResult { info };
        assert(bare@ =~= spec_without_durations(self@));
        bare
    }

    /// Whether every case ended without error.
    pub fn passed(&self) -> (all: bool)
        ensures
            all == forall|i: int| 0 <= i < self@.len() ==> (#[trigger] self@[i]).error is None,
    {
        let mut i: usize = 0;
        while i < self.info.len()
            invariant
                i <= self.info@.len(),
                forall|k: int| 0 <= k < i ==> (#[trigger] self@[k]).error is None,
            decreases self.info@.len() - i,
        {
            if self.info[i].error.is_some() {
                assert(self@[i as int].error is Some);
                return false;
            }
            assert(self@[i as int].error is None);
            i += 1;
        }
        true
    }
}

/// Running a suite again reproduces which cases pass and which fail. If
/// each case ends with an error in the second run exactly when it did in
/// the first, the two reports name the same cases in the same order with
/// the same verdicts, however long each run took. If the errors are the
/// same texts as well, the reports are equal once durations are set to
/// zero.
pub proof fn lemma_rerun_reproduces_verdicts(
    cases: Seq<TestCaseView>,
    first: Seq<CaseOutcomeView>,
    second: Seq<CaseOutcomeView>,
)
    requires
        first.len() == cases.len(),
        second.len() == cases.len(),
        forall|i: int| 0 <= i < cases.len() ==> (first[i].error is None <==> second[i].error is None),
    ensures
        spec_verdicts(spec_report(cases, first)) == spec_verdicts(spec_report(cases, second)),
        (forall|i: int| 0 <= i < cases.len() ==> first[i].error == second[i].error)
            ==> spec_without_durations(spec_report(cases, first)) == spec_without_durations(
            spec_report(cases, second),
        ),
{
    assert(spec_verdicts(spec_report(cases, first)) =~= spec_verdicts(spec_report(cases, second)));
    if forall|i: int| 0 <= i < cases.len() ==> first[i].error == second[i].error {
        assert(spec_without_durations(spec_report(cases, first)) =~= spec_without_durations(
            spec_report(cases, second),
        ));
    }
}

} // verus!
