//! Build systems as a trait: what a build system writes for a project and
//! how it builds it, with the test setup of each framework.
pub mod cmake;

use crate::error::{Error, ErrorView};
use crate::naming::variant_not_found;
use crate::plan::{Step, StepView};
use crate::text::same_text;
use vstd::prelude::*;

verus! {

/// The test frameworks a build system can set up, or none.
#[derive(Debug, Clone, Copy, PartialEq, Eq, Structural)]
pub enum TestFrameworkEnum {
    GTest,
    Boost,
    Unit,
    /// No test framework; its name is `None`.
    Nothing,
}

impl TestFrameworkEnum {
    /// The names of the choices, in order.
    pub open spec fn names() -> Seq<Seq<char>> {
        seq!["GTest"@, "Boost"@, "Unit"@, "None"@]
    }

    /// The choice called `s`, if there is one.
    pub open spec fn parsed(s: Seq<char>) -> Option<TestFrameworkEnum> {
        if s == "GTest"@ {
            Some(TestFrameworkEnum::GTest)
        } else if s == "Boost"@ {
            Some(TestFrameworkEnum::Boost)
        } else if s == "Unit"@ {
            Some(TestFrameworkEnum::Unit)
        } else if s == "None"@ {
            Some(TestFrameworkEnum::Nothing)
        } else {
            None
        }
    }

    /// The names of the choices, in order.
    pub fn variants() -> (r: Vec<&'static str>)
        ensures
            r.deep_view() == Self::names(),
    {
        let r = vec!["GTest", "Boost", "Unit", "None"];
        r
    }

    /// The choice called `s`; a parse error where `s` names none.
    pub fn from_str(s: &str) -> (r: Result<TestFrameworkEnum, Error>)
        ensures
            match Self::parsed(s@) {
                Some(choice) => r matches Ok(x) && x == choice,
                None => r matches Err(e) && e@ == not_found(),
            },
    {
        if same_text(s, "GTest") {
            Ok(TestFrameworkEnum::GTest)
        } else if same_text(s, "Boost") {
            Ok(TestFrameworkEnum::Boost)
        } else if same_text(s, "Unit") {
            Ok(TestFrameworkEnum::Unit)
        } else if same_text(s, "None") {
            Ok(TestFrameworkEnum::Nothing)
        } else {
            Err(Error::ParseError(variant_not_found()))
        }
    }
}

/// The error of a name that matches no choice.
pub open spec fn not_found() -> ErrorView {
    ErrorView::ParseError("Matching variant not found"@)
}

/// The build systems to choose from.
#[derive(Debug, Clone, Copy, PartialEq, Eq, Structural)]
pub enum BuildSystemEnum {
    CMake,
    Meson,
    Make,
}

impl BuildSystemEnum {
    /// The names of the choices, in order.
    pub open spec fn names() -> Seq<Seq<char>> {
        seq!["CMake"@, "Meson"@, "Make"@]
    }

    /// The choice called `s`, if there is one.
    pub open spec fn parsed(s: Seq<char>) -> Option<BuildSystemEnum> {
        if s == "CMake"@ {
            Some(BuildSystemEnum::CMake)
        } else if s == "Meson"@ {
            Some(BuildSystemEnum::Meson)
        } else if s == "Make"@ {
            Some(BuildSystemEnum::Make)
        } else {
            None
        }
    }

    /// The names of the choices, in order.
    pub fn variants() -> (r: Vec<&'static str>)
        ensures
            r.deep_view() == Self::names(),
    {
        let r = vec!["CMake", "Meson", "Make"];
        r
    }

    /// The choice called `s`; a parse error where `s` names none.
    pub fn from_str(s: &str) -> (r: Result<BuildSystemEnum, Error>)
        ensures
            match Self::parsed(s@) {
                Some(choice) => r matches Ok(x) && x == choice,
                None => r matches Err(e) && e@ == not_found(),
            },
    {
        if same_text(s, "CMake") {
            Ok(BuildSystemEnum::CMake)
        } else if same_text(s, "Meson") {
            Ok(BuildSystemEnum::Meson)
        } else if same_text(s, "Make") {
            Ok(BuildSystemEnum::Make)
        } else {
            Err(Error::ParseError(variant_not_found()))
        }
    }
}

/// A build system: it writes its description of a project, builds the
/// project, and knows how each test framework is set up in its description.
pub trait BuildSystem {
    /// The steps of [`init`](BuildSystem::init).
    spec fn init_plan(&self) -> Seq<StepView>;

    /// The steps of [`build`](BuildSystem::build).
    spec fn build_plan(&self) -> Seq<StepView>;

    /// The text of [`google_test`](BuildSystem::google_test).
    spec fn google_test_text(&self) -> Seq<char>;

    /// The text of [`boost_test`](BuildSystem::boost_test).
    spec fn boost_test_text(&self) -> Seq<char>;

    /// The text of [`unit_test`](BuildSystem::unit_test).
    spec fn unit_test_text(&self) -> Seq<char>;

    /// The steps that write the description of the project.
    fn init(&self) -> (r: Vec<Step>)
        ensures
            r.deep_view() == self.init_plan(),
    ;

    /// The steps that build the project.
    fn build(&self) -> (r: Vec<Step>)
        ensures
            r.deep_view() == self.build_plan(),
    ;

    /// The test setup for Google Test.
    fn google_test(&self) -> (r: String)
        ensures
            r@ == self.google_test_text(),
    ;

    /// The test setup for Boost.
    fn boost_test(&self) -> (r: String)
        ensures
            r@ == self.boost_test_text(),
    ;

    /// The test setup for Unit.
    fn unit_test(&self) -> (r: String)
        ensures
            r@ == self.unit_test_text(),
    ;

    /// The test setup for `framework`: that of the framework, and nothing for none.
    fn test_init(&self, framework: &TestFrameworkEnum) -> (r: String)
        ensures
            r@ == match *framework {
                TestFrameworkEnum::GTest => self.google_test_text(),
                TestFrameworkEnum::Boost => self.boost_test_text(),
                TestFrameworkEnum::Unit => self.unit_test_text(),
                TestFrameworkEnum::Nothing => Seq::empty(),
            },
    {
        match framework {
            TestFrameworkEnum::GTest => self.google_test(),
            TestFrameworkEnum::Boost => self.boost_test(),
            TestFrameworkEnum::Unit => self.unit_test(),
            TestFrameworkEnum::Nothing => String::new(),
        }
    }
}

} // verus!
