//! The tests that a run consists of

use vstd::prelude::*;

verus! {

/// A test: its name, and the function that is its body.
#[derive(Debug)]
pub struct TestCase<F> {
    name: String,
    function: F,
}

/// What a [`TestCase`] stands for.
pub ghost struct TestCaseView<F> {
    pub name: Seq<char>,
    pub function: F,
}

impl<F> View for TestCase<F> {
    type V = TestCaseView<F>;

    closed spec fn view(&self) -> TestCaseView<F> {
        TestCaseView { name: self.name@, function: self.function }
    }
}

impl<F> DeepView for TestCase<F> {
    type V = TestCaseView<F>;

    open spec fn deep_view(&self) -> TestCaseView<F> {
        self@
    }
}

impl<F> TestCase<F> {
    /// The test with the given name and body.
    pub fn new(name: &str, function: F) -> (case: TestCase<F>)
        ensures
            case@ == (TestCaseView { name: name@, function }),
    {
        TestCase { name: name.to_owned(), function }
    }

    /// The name of the test
    pub fn name(&self) -> (name: &String)
        ensures
            name@ == self@.name,
    {
        &self.name
    }

    /// The body of the test
    pub fn function(&self) -> (function: &F)
        ensures
            *function == self@.function,
    {
        &self.function
    }
}

/// The tests of a run, in the order in which they were registered.
///
/// Tests are registered before the first of them runs. Once the registry has been sealed, it
/// takes no more tests.
#[derive(Debug)]
pub struct Registry<F> {
    cases: Vec<TestCase<F>>,
    sealed: bool,
}

/// What a [`Registry`] stands for.
pub ghost struct RegistryView<F> {
    /// The tests, in the order in which they were registered
    pub cases: Seq<TestCaseView<F>>,
    /// Whether the registry takes no more tests
    pub sealed: bool,
}

impl<F> View for Registry<F> {
    type V = RegistryView<F>;

    closed spec fn view(&self) -> RegistryView<F> {
        RegistryView { cases: self.cases.deep_view(), sealed: self.sealed }
    }
}

impl<F> Registry<F> {
    /// The registry without tests.
    pub fn new() -> (registry: Registry<F>)
        ensures
            registry@ == (RegistryView { cases: Seq::<TestCaseView<F>>::empty(), sealed: false }),
    {
        let registry = Registry { cases: Vec::new(), sealed: false };
        assert(registry.cases.deep_view() =~= Seq::<TestCaseView<F>>::empty());
        registry
    }

    /// Register a test, after those that were registered before. A sealed registry stays as it
    /// is. Returns whether the test was registered.
    pub fn register(&mut self, case: TestCase<F>) -> (registered: bool)
        ensures
            registered == !old(self)@.sealed,
            final(self)@ == if registered {
                RegistryView { cases: old(self)@.cases.push(case@), ..old(self)@ }
            } else {
                old(self)@
            },
    {
        if self.sealed {
            false
        } else {
            let ghost before = self.cases.deep_view();
            self.cases.push(case);
            assert(self.cases.deep_view() =~= before.push(case@));
            true
        }
    }

    /// Seal the registry: the tests that it holds now are the tests of the run.
    pub fn seal(&mut self)
        ensures
            final(self)@ == (RegistryView { sealed: true, ..old(self)@ }),
    {
        self.sealed = true;
    }

    /// Whether the registry takes no more tests
    pub fn is_sealed(&self) -> (sealed: bool)
        ensures
            sealed == self@.sealed,
    {
        self.sealed
    }

    /// The number of tests
    pub fn len(&self) -> (len: usize)
        ensures
            len == self@.cases.len(),
    {
        self.cases.len()
    }

    /// The test at the given position in the order of registration, if there is one.
    pub fn get(&self, index: usize) -> (case: Option<&TestCase<F>>)
        ensures
            match case {
                Some(case) => index < self@.cases.len() && case@ == self@.cases[index as int],
                None => index >= self@.cases.len(),
            },
    {
        if index < self.cases.len() {
            Some(&self.cases[index])
        } else {
            None
        }
    }
}

} // verus!
