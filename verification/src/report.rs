//! How tests ended

use vstd::prelude::*;
use vstd::string::StringExecFns;
use crate::container::Role;
use crate::endpoint::{decimal, decimal_text};

verus! {

/// What is reported of a test whose worker ended without handing back a result
pub const CRASHED: &'static str = "failed to run test in isolated thread";

/// The reason why a test did not pass. Each reason concerns one test only: the tests after it
/// still run.
#[derive(Debug)]
pub enum Failure {
    /// A container could not be started, did not become ready, or could not be located.
    Provision(String),
    /// No session with the browser could be opened.
    Connection(String),
    /// The test itself failed: it returned an error, or its worker ended abnormally.
    Execution(String),
}

/// What a [`Failure`] stands for.
pub ghost enum FailureView {
    Provision(Seq<char>),
    Connection(Seq<char>),
    Execution(Seq<char>),
}

impl View for Failure {
    type V = FailureView;

    open spec fn view(&self) -> FailureView {
        match self {
            Failure::Provision(message) => FailureView::Provision(message@),
            Failure::Connection(message) => FailureView::Connection(message@),
            Failure::Execution(message) => FailureView::Execution(message@),
        }
    }
}

impl DeepView for Failure {
    type V = FailureView;

    open spec fn deep_view(&self) -> FailureView {
        self@
    }
}

impl Clone for Failure {
    fn clone(&self) -> (copy: Failure)
        ensures
            copy@ == self@,
    {
        match self {
            Failure::Provision(message) => Failure::Provision(message.clone()),
            Failure::Connection(message) => Failure::Connection(message.clone()),
            Failure::Execution(message) => Failure::Execution(message.clone()),
        }
    }
}

impl Failure {
    /// What went wrong, in words
    pub fn message(&self) -> (message: &String)
        ensures
            message@ == match self@ {
                FailureView::Provision(m) => m,
                FailureView::Connection(m) => m,
                FailureView::Execution(m) => m,
            },
    {
        match self {
            Failure::Provision(message) => message,
            Failure::Connection(message) => message,
            Failure::Execution(message) => message,
        }
    }
}

/// How the worker that ran the body of a test ended.
#[derive(Debug)]
pub enum Completion {
    /// The body returned without an error.
    Passed,
    /// The body returned the given error.
    Failed(String),
    /// The worker ended abnormally, and the body handed nothing back.
    Crashed,
}

/// What a [`Completion`] stands for.
pub ghost enum CompletionView {
    Passed,
    Failed(Seq<char>),
    Crashed,
}

impl CompletionView {
    /// The failure that the test is reported with, if it did not pass. A worker that ended
    /// abnormally is reported as a failed test with a fixed message.
    pub open spec fn failure(self) -> Option<FailureView> {
        match self {
            CompletionView::Passed => None,
            CompletionView::Failed(message) => Some(FailureView::Execution(message)),
            CompletionView::Crashed => Some(FailureView::Execution(CRASHED@)),
        }
    }
}

impl View for Completion {
    type V = CompletionView;

    open spec fn view(&self) -> CompletionView {
        match self {
            Completion::Passed => CompletionView::Passed,
            Completion::Failed(message) => CompletionView::Failed(message@),
            Completion::Crashed => CompletionView::Crashed,
        }
    }
}

impl Completion {
    /// The failure that the test is reported with, if it did not pass.
    pub fn failure(self) -> (failure: Option<Failure>)
        ensures
            failure.deep_view() == self@.failure(),
    {
        match self {
            Completion::Passed => None,
            Completion::Failed(message) => Some(Failure::Execution(message)),
            Completion::Crashed => Some(Failure::Execution(CRASHED.to_owned())),
        }
    }
}

/// Something that went wrong while the environment of a test was taken down. It is noted and
/// changes nothing else: the rest is still taken down, and the test keeps its result.
#[derive(Clone, Copy, Debug, PartialEq, Eq, Structural)]
pub enum TeardownWarning {
    /// The session with the browser could not be closed.
    Disconnect,
    /// The container could not be stopped.
    Stop(Role),
}

/// How one test ended.
#[derive(Debug)]
pub struct TestResult {
    name: String,
    failure: Option<Failure>,
    warnings: Vec<TeardownWarning>,
}

/// What a [`TestResult`] stands for.
pub ghost struct TestResultView {
    /// The name of the test
    pub name: Seq<char>,
    /// Why the test did not pass, if it did not
    pub failure: Option<FailureView>,
    /// What went wrong while the environment of the test was taken down
    pub warnings: Seq<TeardownWarning>,
}

impl TestResultView {
    /// The test passed.
    pub open spec fn passed(self) -> bool {
        self.failure is None
    }
}

impl View for TestResult {
    type V = TestResultView;

    closed spec fn view(&self) -> TestResultView {
        TestResultView {
            name: self.name@,
            failure: self.failure.deep_view(),
            warnings: self.warnings@,
        }
    }
}

impl DeepView for TestResult {
    type V = TestResultView;

    open spec fn deep_view(&self) -> TestResultView {
        self@
    }
}

/// Copies an optional failure.
pub fn clone_failure(failure: &Option<Failure>) -> (copy: Option<Failure>)
    ensures
        copy.deep_view() == failure.deep_view(),
{
    match failure {
        Some(failure) => Some(failure.clone()),
        None => None,
    }
}

/// Copies a list of warnings.
pub fn clone_warnings(warnings: &Vec<TeardownWarning>) -> (copy: Vec<TeardownWarning>)
    ensures
        copy@ == warnings@,
{
    let mut copy: Vec<TeardownWarning> = Vec::new();
    let mut i: usize = 0;
    while i < warnings.len()
        invariant
            i <= warnings.len(),
            copy@ == warnings@.take(i as int),
        decreases warnings.len() - i,
    {
        copy.push(warnings[i]);
        assert(warnings@.take(i + 1) =~= warnings@.take(i as int).push(warnings[i as int]));
        i += 1;
    }
    assert(warnings@.take(warnings.len() as int) =~= warnings@);
    copy
}

impl Clone for TestResult {
    fn clone(&self) -> (copy: TestResult)
        ensures
            copy@ == self@,
    {
        TestResult {
            name: self.name.clone(),
            failure: clone_failure(&self.failure),
            warnings: clone_warnings(&self.warnings),
        }
    }
}

impl TestResult {
    /// The result of the test with the given name.
    pub fn new(name: String, failure: Option<Failure>, warnings: Vec<TeardownWarning>) -> (result:
        TestResult)
        ensures
            result@ == (TestResultView {
                name: name@,
                failure: failure.deep_view(),
                warnings: warnings@,
            }),
    {
        TestResult { name, failure, warnings }
    }

    /// The name of the test
    pub fn name(&self) -> (name: &String)
        ensures
            name@ == self@.name,
    {
        &self.name
    }

    /// Whether the test passed
    pub fn passed(&self) -> (passed: bool)
        ensures
            passed == self@.passed(),
    {
        self.failure.is_none()
    }

    /// Why the test did not pass, if it did not
    pub fn failure(&self) -> (failure: &Option<Failure>)
        ensures
            failure.deep_view() == self@.failure,
    {
        &self.failure
    }

    /// What went wrong while the environment of the test was taken down
    pub fn warnings(&self) -> (warnings: &Vec<TeardownWarning>)
        ensures
            warnings@ == self@.warnings,
    {
        &self.warnings
    }
}

/// The number of tests that passed.
pub open spec fn passes(results: Seq<TestResultView>) -> nat
    decreases results.len(),
{
    if results.len() == 0 {
        0
    } else {
        passes(results.drop_last()) + if results.last().passed() {
            1nat
        } else {
            0nat
        }
    }
}

/// The number of tests that did not pass.
pub open spec fn failures(results: Seq<TestResultView>) -> nat
    decreases results.len(),
{
    if results.len() == 0 {
        0
    } else {
        failures(results.drop_last()) + if results.last().passed() {
            0nat
        } else {
            1nat
        }
    }
}

/// The summary of a run: the number of the tests that passed and of those that did not.
pub open spec fn summary(results: Seq<TestResultView>) -> Seq<char> {
    decimal(passes(results)) + " passed; "@ + decimal(failures(results)) + " failed"@
}

/// Every test that has run either passed or failed.
pub proof fn lemma_tally(results: Seq<TestResultView>)
    ensures
        passes(results) + failures(results) == results.len(),
    decreases results.len(),
{
    if results.len() > 0 {
        lemma_tally(results.drop_last());
    }
}

/// One more result adds one to the number of passes or to the number of failures, and leaves
/// the other number as it is.
pub proof fn lemma_tally_push(results: Seq<TestResultView>, result: TestResultView)
    ensures
        passes(results.push(result)) == passes(results) + if result.passed() {
            1nat
        } else {
            0nat
        },
        failures(results.push(result)) == failures(results) + if result.passed() {
            0nat
        } else {
            1nat
        },
{
    assert(results.push(result).drop_last() =~= results);
}

/// The results of the tests that have run, in the order in which they ran.
#[derive(Debug)]
pub struct Report {
    results: Vec<TestResult>,
}

impl View for Report {
    type V = Seq<TestResultView>;

    closed spec fn view(&self) -> Seq<TestResultView> {
        self.results.deep_view()
    }
}

impl DeepView for Report {
    type V = Seq<TestResultView>;

    open spec fn deep_view(&self) -> Seq<TestResultView> {
        self@
    }
}

impl Report {
    /// The report of a run in which no test has run yet.
    pub fn new() -> (report: Report)
        ensures
            report@ == Seq::<TestResultView>::empty(),
    {
        let report = Report { results: Vec::new() };
        assert(report.results.deep_view() =~= Seq::empty());
        report
    }

    /// Add the result of the test that has just run.
    pub fn record(self, result: TestResult) -> (report: Report)
        ensures
            report@ == self@.push(result@),
    {
        let mut results = self.results;
        let ghost before = results.deep_view();
        results.push(result);
        assert(results.deep_view() =~= before.push(result@));
        Report { results }
    }

    /// The results, in the order in which the tests ran
    pub fn results(&self) -> (results: &Vec<TestResult>)
        ensures
            results.deep_view() == self@,
    {
        &self.results
    }

    /// The number of tests that have run
    pub fn len(&self) -> (len: usize)
        ensures
            len == self@.len(),
    {
        self.results.len()
    }

    /// The number of tests that passed
    pub fn passed(&self) -> (count: usize)
        ensures
            count == passes(self@),
    {
        let mut count: usize = 0;
        let mut i: usize = 0;
        while i < self.results.len()
            invariant
                i <= self.results.len(),
                count == passes(self@.take(i as int)),
                count <= i,
            decreases self.results.len() - i,
        {
            proof {
                assert(self@.take(i + 1) =~= self@.take(i as int).push(self@[i as int]));
                lemma_tally_push(self@.take(i as int), self@[i as int]);
            }
            if self.results[i].passed() {
                count += 1;
            }
            i += 1;
        }
        assert(self@.take(self.results.len() as int) =~= self@);
        count
    }

    /// The number of tests that did not pass
    pub fn failed(&self) -> (count: usize)
        ensures
            count == failures(self@),
    {
        let mut count: usize = 0;
        let mut i: usize = 0;
        while i < self.results.len()
            invariant
                i <= self.results.len(),
                count == failures(self@.take(i as int)),
                count <= i,
            decreases self.results.len() - i,
        {
            proof {
                assert(self@.take(i + 1) =~= self@.take(i as int).push(self@[i as int]));
                lemma_tally_push(self@.take(i as int), self@[i as int]);
            }
            if !self.results[i].passed() {
                count += 1;
            }
            i += 1;
        }
        assert(self@.take(self.results.len() as int) =~= self@);
        count
    }

    /// Whether no test failed
    pub fn success(&self) -> (success: bool)
        ensures
            success == (failures(self@) == 0),
    {
        self.failed() == 0
    }

    /// The exit status of the run: 0 if no test failed, and 1 otherwise.
    pub fn exit_code(&self) -> (code: u8)
        ensures
            code == if failures(self@) == 0 {
                0u8
            } else {
                1u8
            },
    {
        if self.success() {
            0
        } else {
            1
        }
    }

    /// The summary of the run, such as `2 passed; 1 failed`.
    pub fn summary(&self) -> (line: String)
        ensures
            line@ == summary(self@),
    {
        let passed = decimal_text(self.passed() as u64);
        let failed = decimal_text(self.failed() as u64);
        passed.concat(" passed; ").concat(failed.as_str()).concat(" failed")
    }
}

} // verus!
