//! The test frameworks a project can use: what each is called, which port
//! provides it, and what a test target links against.
use crate::error::{not_named, refuse_name, Error, ErrorView};
use crate::plan::{
    launch, launched, no_steps, push_step, require, required, OnExit, OnExitView, Step, StepView,
};
use crate::text::{no_texts, push_text, same_text};
use vstd::prelude::*;

verus! {

/// The frameworks to choose from.
#[derive(Debug, Clone, Copy, PartialEq, Eq, Structural)]
pub enum TestFrameworks {
    GTest,
    CMocka,
    Boost,
    Unit,
}

impl TestFrameworks {
    /// The names of the frameworks, in the order in which they are offered.
    pub open spec fn names() -> Seq<Seq<char>> {
        seq!["GTest"@, "CMocka"@, "Boost"@, "Unit"@]
    }

    /// The name under which a framework is offered, stored and looked up by CMake.
    pub open spec fn name(self) -> Seq<char> {
        match self {
            TestFrameworks::GTest => "GTest"@,
            TestFrameworks::CMocka => "CMocka"@,
            TestFrameworks::Boost => "Boost"@,
            TestFrameworks::Unit => "Unit"@,
        }
    }

    /// The framework called `s`, if there is one.
    pub open spec fn parsed(s: Seq<char>) -> Option<TestFrameworks> {
        if s == "GTest"@ {
            Some(TestFrameworks::GTest)
        } else if s == "CMocka"@ {
            Some(TestFrameworks::CMocka)
        } else if s == "Boost"@ {
            Some(TestFrameworks::Boost)
        } else if s == "Unit"@ {
            Some(TestFrameworks::Unit)
        } else {
            None
        }
    }

    /// The vcpkg port that provides the framework.
    pub open spec fn port(self) -> Seq<char> {
        match self {
            TestFrameworks::GTest => "gtest"@,
            TestFrameworks::CMocka => "cmocka"@,
            TestFrameworks::Boost => "Boost"@,
            TestFrameworks::Unit => "Unit"@,
        }
    }

    /// The words of the error where the port cannot be added.
    pub open spec fn port_failure(self) -> Seq<char> {
        match self {
            TestFrameworks::GTest => "Failed to retrieve GTest for vcpkg."@,
            TestFrameworks::CMocka => "Failed to retrieve CMocka for vcpkg."@,
            TestFrameworks::Boost => "Failed to retrieve Boost for vcpkg."@,
            TestFrameworks::Unit => "Failed to retrieve Unit for vcpkg."@,
        }
    }

    /// What a test target links against to use the framework.
    pub open spec fn link_target(self) -> Seq<char> {
        match self {
            TestFrameworks::GTest => "GTest::gtest GTest::gtest_main"@,
            TestFrameworks::CMocka => "cmocka::cmocka"@,
            TestFrameworks::Boost => "Boost::unit_test_framework\n"@,
            TestFrameworks::Unit => "Unit"@,
        }
    }

    /// The names of the frameworks, in the order in which they are offered.
    pub fn variants() -> (r: Vec<&'static str>)
        ensures
            r.deep_view() == Self::names(),
    {
        let r = vec!["GTest", "CMocka", "Boost", "Unit"];
        r
    }

    /// The framework called `s`, or `None` where `s` names no framework.
    pub fn parse(s: &str) -> (r: Option<TestFrameworks>)
        ensures
            r == Self::parsed(s@),
    {
        if same_text(s, "GTest") {
            Some(TestFrameworks::GTest)
        } else if same_text(s, "CMocka") {
            Some(TestFrameworks::CMocka)
        } else if same_text(s, "Boost") {
            Some(TestFrameworks::Boost)
        } else if same_text(s, "Unit") {
            Some(TestFrameworks::Unit)
        } else {
            None
        }
    }

    /// The framework called `s`; a parse error where `s` names none.
    pub fn from_str(s: &str) -> (r: Result<TestFrameworks, Error>)
        ensures
            match Self::parsed(s@) {
                Some(framework) => r matches Ok(x) && x == framework,
                None => r matches Err(e) && e@ == not_named(),
            },
    {
        match Self::parse(s) {
            Some(framework) => Ok(framework),
            None => Err(refuse_name()),
        }
    }

    /// Every framework is found again under its name, and its name
    /// is among those offered.
    pub proof fn lemma_name_round_trip(self)
        ensures
            Self::parsed(self.name()) == Some(self),
            Self::names().contains(self.name()),
    {
        reveal_strlit("GTest");
        reveal_strlit("CMocka");
        reveal_strlit("Boost");
        reveal_strlit("Unit");
        assert("GTest"@.len() == 5 && "CMocka"@.len() == 6);
        assert("GTest"@[0] != "Boost"@[0]);
    }
}

/// The steps that add `port` to the manifest of the project in `dir`: vcpkg
/// has to be on the search path, and is asked to add the port. Where it
/// reports no success, the operation fails with a custom error of `words`.
pub open spec fn add_port_plan(dir: Seq<char>, port: Seq<char>, words: Seq<char>) -> Seq<StepView> {
    seq![
        required("vcpkg"@, ""@),
        launched(
            "vcpkg"@,
            seq!["add"@, "port"@, port],
            dir,
            OnExitView::Abort(ErrorView::CustomError(words)),
        ),
    ]
}

/// The steps of [`add_port_plan`].
pub fn add_port(dir: &str, port: &str, words: &str) -> (r: Vec<Step>)
    ensures
        r.deep_view() == add_port_plan(dir@, port@, words@),
{
    let mut args = no_texts();
    push_text(&mut args, "add");
    push_text(&mut args, "port");
    push_text(&mut args, port);
    assert(args.deep_view() =~= seq!["add"@, "port"@, port@]);
    let mut plan = no_steps();
    push_step(&mut plan, require("vcpkg", ""));
    push_step(
        &mut plan,
        launch("vcpkg", args, dir, OnExit::Abort(Error::CustomError(words.to_string()))),
    );
    plan
}

/// A framework chosen for the project in the directory `dir`.
#[derive(Debug, PartialEq, Eq)]
pub struct TestFramework {
    variant: TestFrameworks,
    dir: String,
}

/// A [`TestFramework`] over sequences of characters.
pub struct TestFrameworkView {
    pub variant: TestFrameworks,
    pub dir: Seq<char>,
}

impl TestFrameworkView {
    /// The steps that make vcpkg provide the framework.
    pub open spec fn vcpkg_plan(self) -> Seq<StepView> {
        add_port_plan(self.dir, self.variant.port(), self.variant.port_failure())
    }

    /// The steps that make Conan provide the framework: there are none.
    pub open spec fn conan_plan(self) -> Seq<StepView> {
        Seq::empty()
    }
}

impl View for TestFramework {
    type V = TestFrameworkView;

    closed spec fn view(&self) -> TestFrameworkView {
        TestFrameworkView { variant: self.variant, dir: self.dir@ }
    }
}

impl Clone for TestFramework {
    fn clone(&self) -> (r: Self)
        ensures
            r@ == self@,
    {
        TestFramework { variant: self.variant, dir: self.dir.clone() }
    }
}

impl TestFramework {
    /// The framework `variant` for the project in `dir`.
    pub fn new(variant: TestFrameworks, dir: String) -> (r: TestFramework)
        ensures
            r@.variant == variant,
            r@.dir == dir@,
    {
        TestFramework { variant, dir }
    }

    /// The framework that was chosen.
    pub fn variant(&self) -> (r: TestFrameworks)
        ensures
            r == self@.variant,
    {
        self.variant
    }

    /// The directory of the project.
    pub fn dir(&self) -> (r: &str)
        ensures
            r@ == self@.dir,
    {
        self.dir.as_str()
    }

    /// The name of the framework, by which CMake finds its package.
    pub fn as_str(&self) -> (r: &'static str)
        ensures
            r@ == self@.variant.name(),
    {
        match self.variant {
            TestFrameworks::GTest => "GTest",
            TestFrameworks::Boost => "Boost",
            TestFrameworks::CMocka => "CMocka",
            TestFrameworks::Unit => "Unit",
        }
    }

    /// What a test target links against to use the framework.
    pub fn cmake_target(&self) -> (r: &'static str)
        ensures
            r@ == self@.variant.link_target(),
    {
        match self.variant {
            TestFrameworks::GTest => GTest::cmake_target(),
            TestFrameworks::Boost => Boost::cmake_target(),
            TestFrameworks::CMocka => CMocka::cmake_target(),
            TestFrameworks::Unit => Unit::cmake_target(),
        }
    }

    /// The steps that make vcpkg provide the framework: whatever the choice,
    /// vcpkg is asked to add the port of that very framework.
    pub fn vcpkg_setup(&self) -> (r: Vec<Step>)
        ensures
            r.deep_view() == self@.vcpkg_plan(),
    {
        match self.variant {
            TestFrameworks::GTest => GTest::vcpkg_setup(self.dir.as_str()),
            TestFrameworks::Boost => Boost::vcpkg_setup(self.dir.as_str()),
            TestFrameworks::CMocka => CMocka::vcpkg_setup(self.dir.as_str()),
            TestFrameworks::Unit => Unit::vcpkg_setup(self.dir.as_str()),
        }
    }

    /// The steps that make Conan provide the framework: there are none.
    pub fn conan_setup(&self) -> (r: Vec<Step>)
        ensures
            r.deep_view() == self@.conan_plan(),
    {
        match self.variant {
            TestFrameworks::GTest => GTest::conan_setup(),
            TestFrameworks::Boost => Boost::conan_setup(),
            TestFrameworks::CMocka => CMocka::conan_setup(),
            TestFrameworks::Unit => Unit::conan_setup(),
        }
    }
}

/// Google Test.
pub struct GTest {}

impl GTest {
    /// The steps that add the framework's port to the manifest in `dir`.
    pub fn vcpkg_setup(dir: &str) -> (r: Vec<Step>)
        ensures
            r.deep_view() == add_port_plan(
                dir@,
                TestFrameworks::GTest.port(),
                TestFrameworks::GTest.port_failure(),
            ),
    {
        add_port(dir, "gtest", "Failed to retrieve GTest for vcpkg.")
    }

    /// No steps: Conan is asked for nothing.
    pub fn conan_setup() -> (r: Vec<Step>)
        ensures
            r.deep_view() == Seq::<StepView>::empty(),
    {
        no_steps()
    }

    /// What a test target links against.
    pub fn cmake_target() -> (r: &'static str)
        ensures
            r@ == TestFrameworks::GTest.link_target(),
    {
        "GTest::gtest GTest::gtest_main"
    }
}

/// CMocka.
pub struct CMocka {}

impl CMocka {
    /// The steps that add the framework's port to the manifest in `dir`.
    pub fn vcpkg_setup(dir: &str) -> (r: Vec<Step>)
        ensures
            r.deep_view() == add_port_plan(
                dir@,
                TestFrameworks::CMocka.port(),
                TestFrameworks::CMocka.port_failure(),
            ),
    {
        add_port(dir, "cmocka", "Failed to retrieve CMocka for vcpkg.")
    }

    /// No steps: Conan is asked for nothing.
    pub fn conan_setup() -> (r: Vec<Step>)
        ensures
            r.deep_view() == Seq::<StepView>::empty(),
    {
        no_steps()
    }

    /// What a test target links against.
    pub fn cmake_target() -> (r: &'static str)
        ensures
            r@ == TestFrameworks::CMocka.link_target(),
    {
        "cmocka::cmocka"
    }
}

/// The unit test framework of Boost.
pub struct Boost {}

impl Boost {
    /// The steps that add the framework's port to the manifest in `dir`.
    pub fn vcpkg_setup(dir: &str) -> (r: Vec<Step>)
        ensures
            r.deep_view() == add_port_plan(
                dir@,
                TestFrameworks::Boost.port(),
                TestFrameworks::Boost.port_failure(),
            ),
    {
        add_port(dir, "Boost", "Failed to retrieve Boost for vcpkg.")
    }

    /// No steps: Conan is asked for nothing.
    pub fn conan_setup() -> (r: Vec<Step>)
        ensures
            r.deep_view() == Seq::<StepView>::empty(),
    {
        no_steps()
    }

    /// What a test target links against.
    pub fn cmake_target() -> (r: &'static str)
        ensures
            r@ == TestFrameworks::Boost.link_target(),
    {
        "Boost::unit_test_framework\n"
    }
}

/// Unit.
pub struct Unit {}

impl Unit {
    /// The steps that add the framework's port to the manifest in `dir`.
    pub fn vcpkg_setup(dir: &str) -> (r: Vec<Step>)
        ensures
            r.deep_view() == add_port_plan(
                dir@,
                TestFrameworks::Unit.port(),
                TestFrameworks::Unit.port_failure(),
            ),
    {
        add_port(dir, "Unit", "Failed to retrieve Unit for vcpkg.")
    }

    /// No steps: Conan is asked for nothing.
    pub fn conan_setup() -> (r: Vec<Step>)
        ensures
            r.deep_view() == Seq::<StepView>::empty(),
    {
        no_steps()
    }

    /// What a test target links against.
    pub fn cmake_target() -> (r: &'static str)
        ensures
            r@ == TestFrameworks::Unit.link_target(),
    {
        "Unit"
    }
}

} // verus!
