//! The package managers a project can use. Both are driven the same way: the
//! tool has to be on the search path, sets the project up as an application,
//! and installs what the test framework needs.
use crate::error::{not_named, refuse_name, Error, ErrorView};
use crate::language::Language;
use crate::plan::{
    launch, launched, no_steps, push_step, require, required, reword, reworded_plan,
    run, Action, ActionView, OnExit, OnExitView, OnFault, OnFaultView, OutcomeView, Step,
    StepView,
};
use crate::test_framework::{TestFramework, TestFrameworkView};
use crate::text::{glue2, no_texts, push_text, same_text};
use vstd::prelude::*;

verus! {

/// The package managers to choose from.
#[derive(Debug, Clone, Copy, PartialEq, Eq, Structural)]
pub enum PackageManagers {
    Vcpkg,
    Conan,
}

impl PackageManagers {
    /// The names of the package managers, in the order in which they are offered.
    pub open spec fn names() -> Seq<Seq<char>> {
        seq!["Vcpkg"@, "Conan"@]
    }

    /// The name under which a package manager is offered and stored.
    pub open spec fn name(self) -> Seq<char> {
        match self {
            PackageManagers::Vcpkg => "Vcpkg"@,
            PackageManagers::Conan => "Conan"@,
        }
    }

    /// The package manager called `s`, if there is one.
    pub open spec fn parsed(s: Seq<char>) -> Option<PackageManagers> {
        if s == "Vcpkg"@ {
            Some(PackageManagers::Vcpkg)
        } else if s == "Conan"@ {
            Some(PackageManagers::Conan)
        } else {
            None
        }
    }

    /// The names of the package managers, in the order in which they are offered.
    pub fn variants() -> (r: Vec<&'static str>)
        ensures
            r.deep_view() == Self::names(),
    {
        let r = vec!["Vcpkg", "Conan"];
        r
    }

    /// The name of the package manager.
    pub fn as_str(&self) -> (r: &'static str)
        ensures
            r@ == self.name(),
    {
        match self {
            PackageManagers::Vcpkg => "Vcpkg",
            PackageManagers::Conan => "Conan",
        }
    }

    /// The package manager called `s`, or `None` where `s` names none.
    pub fn parse(s: &str) -> (r: Option<PackageManagers>)
        ensures
            r == Self::parsed(s@),
    {
        if same_text(s, "Vcpkg") {
            Some(PackageManagers::Vcpkg)
        } else if same_text(s, "Conan") {
            Some(PackageManagers::Conan)
        } else {
            None
        }
    }

    /// The package manager called `s`; a parse error where `s` names none.
    pub fn from_str(s: &str) -> (r: Result<PackageManagers, Error>)
        ensures
            match Self::parsed(s@) {
                Some(manager) => r matches Ok(x) && x == manager,
                None => r matches Err(e) && e@ == not_named(),
            },
    {
        match Self::parse(s) {
            Some(manager) => Ok(manager),
            None => Err(refuse_name()),
        }
    }

    /// Every package manager is found again under its name, and its
    /// name is among those offered.
    pub proof fn lemma_name_round_trip(self)
        ensures
            Self::parsed(self.name()) == Some(self),
            Self::names().contains(self.name()),
    {
        reveal_strlit("Vcpkg");
        reveal_strlit("Conan");
        assert("Vcpkg"@[0] != "Conan"@[0]);
    }
}

/// The steps that set the directory `dir` up as an application of the
/// package manager `tool`. The tool has to be on the search path. Where it
/// cannot be started, or reports no success, the operation fails with a
/// custom error that names the tool.
pub open spec fn bootstrap_plan(tool: Seq<char>, dir: Seq<char>) -> Seq<StepView> {
    seq![
        required(tool, ""@),
        StepView {
            action: ActionView::Run { program: tool, args: seq!["new"@, "--application"@], dir },
            on_fault: OnFaultView::Custom(tool + " failed: "@),
            on_exit: OnExitView::Abort(ErrorView::CustomError(tool + " command failed"@)),
        },
    ]
}

/// The step by which the package manager `tool` installs what the project
/// in `dir` depends on. Where the installation reports no success, the
/// operation fails with a custom error that names the tool.
pub open spec fn install_step(tool: Seq<char>, dir: Seq<char>) -> StepView {
    launched(
        tool,
        seq!["install"@],
        dir,
        OnExitView::Abort(ErrorView::CustomError(tool + " install failed"@)),
    )
}

/// The steps by which vcpkg provides the test framework of the project in
/// `dir`: the framework's port is added, with every error reworded, and the
/// manifest is installed.
pub open spec fn vcpkg_config_plan(dir: Seq<char>, framework: TestFrameworkView) -> Seq<StepView> {
    reworded_plan(framework.vcpkg_plan()) + seq![install_step("vcpkg"@, dir)]
}

/// The steps by which Conan provides the test framework of the project in
/// `dir`: what the framework asks of Conan, with every error reworded, and
/// Conan's installation.
pub open spec fn conan_config_plan(dir: Seq<char>, framework: TestFrameworkView) -> Seq<StepView> {
    reworded_plan(framework.conan_plan()) + seq![install_step("conan"@, dir)]
}

/// The steps of [`bootstrap_plan`].
fn bootstrap(tool: &str, dir: &str) -> (r: Vec<Step>)
    ensures
        r.deep_view() == bootstrap_plan(tool@, dir@),
{
    let mut args = no_texts();
    push_text(&mut args, "new");
    push_text(&mut args, "--application");
    assert(args.deep_view() =~= seq!["new"@, "--application"@]);
    let failed = glue2(tool, " failed: ");
    let refused = glue2(tool, " command failed");
    let start = Step {
        action: Action::Run { program: tool.to_string(), args, dir: dir.to_string() },
        on_fault: OnFault::Custom(failed),
        on_exit: OnExit::Abort(Error::CustomError(refused)),
    };
    let mut plan = no_steps();
    push_step(&mut plan, require(tool, ""));
    push_step(&mut plan, start);
    plan
}

/// The step of [`install_step`].
fn install(tool: &str, dir: &str) -> (r: Step)
    ensures
        r@ == install_step(tool@, dir@),
{
    let mut args = no_texts();
    push_text(&mut args, "install");
    launch(tool, args, dir, OnExit::Abort(Error::CustomError(glue2(tool, " install failed"))))
}

/// vcpkg.
pub struct VcpkgManager;

impl VcpkgManager {
    /// The steps that set the directory `project_dir` up as an application of vcpkg.
    pub fn init(project_dir: &str) -> (r: Vec<Step>)
        ensures
            r.deep_view() == bootstrap_plan("vcpkg"@, project_dir@),
    {
        bootstrap("vcpkg", project_dir)
    }

    /// The steps by which vcpkg provides `test_framework` to the project in `dir`.
    pub fn config(dir: &str, test_framework: &TestFramework) -> (r: Vec<Step>)
        ensures
            r.deep_view() == vcpkg_config_plan(dir@, test_framework@),
    {
        let mut plan = reword(test_framework.vcpkg_setup());
        push_step(&mut plan, install("vcpkg", dir));
        plan
    }
}

/// Conan.
pub struct ConanManager;

impl ConanManager {
    /// The steps that set the directory `project_dir` up as an application of Conan.
    pub fn init(project_dir: &str) -> (r: Vec<Step>)
        ensures
            r.deep_view() == bootstrap_plan("conan"@, project_dir@),
    {
        bootstrap("conan", project_dir)
    }

    /// The steps by which Conan provides `test_framework` to the project in `dir`.
    pub fn config(dir: &str, test_framework: &TestFramework) -> (r: Vec<Step>)
        ensures
            r.deep_view() == conan_config_plan(dir@, test_framework@),
    {
        let mut plan = reword(test_framework.conan_setup());
        push_step(&mut plan, install("conan", dir));
        plan
    }
}

/// The package manager of one project.
#[derive(Debug, PartialEq, Eq)]
pub struct PackageManager {
    variant: PackageManagers,
    directory: String,
    test_framework: TestFramework,
    language: Language,
}

/// A [`PackageManager`] over sequences of characters.
pub struct PackageManagerView {
    pub variant: PackageManagers,
    pub directory: Seq<char>,
    pub test_framework: TestFrameworkView,
    pub language: Language,
}

impl PackageManagerView {
    /// The steps that set the project up as an application of the package manager.
    pub open spec fn init_plan(self) -> Seq<StepView> {
        match self.variant {
            PackageManagers::Vcpkg => bootstrap_plan("vcpkg"@, self.directory),
            PackageManagers::Conan => bootstrap_plan("conan"@, self.directory),
        }
    }

    /// The steps that provide the project's test framework.
    pub open spec fn config_plan(self) -> Seq<StepView> {
        match self.variant {
            PackageManagers::Vcpkg => vcpkg_config_plan(self.directory, self.test_framework),
            PackageManagers::Conan => conan_config_plan(self.directory, self.test_framework),
        }
    }
}

impl View for PackageManager {
    type V = PackageManagerView;

    closed spec fn view(&self) -> PackageManagerView {
        PackageManagerView {
            variant: self.variant,
            directory: self.directory@,
            test_framework: self.test_framework@,
            language: self.language,
        }
    }
}

impl PackageManager {
    /// The package manager `variant` of the project in `directory`.
    pub fn new(
        variant: PackageManagers,
        directory: String,
        test_framework: TestFramework,
        language: Language,
    ) -> (r: PackageManager)
        ensures
            r@.variant == variant,
            r@.directory == directory@,
            r@.test_framework == test_framework@,
            r@.language == language,
    {
        PackageManager { variant, directory, test_framework, language }
    }

    /// The package manager that was chosen.
    pub fn variant(&self) -> (r: PackageManagers)
        ensures
            r == self@.variant,
    {
        self.variant
    }

    /// The directory of the project.
    pub fn directory(&self) -> (r: &str)
        ensures
            r@ == self@.directory,
    {
        self.directory.as_str()
    }

    /// The test framework of the project.
    pub fn test_framework(&self) -> (r: &TestFramework)
        ensures
            r@ == self@.test_framework,
    {
        &self.test_framework
    }

    /// The language of the project.
    pub fn language(&self) -> (r: Language)
        ensures
            r == self@.language,
    {
        self.language
    }

    /// The steps that set the project up as an application of the package manager.
    pub fn init(&self) -> (r: Vec<Step>)
        ensures
            r.deep_view() == self@.init_plan(),
    {
        match self.variant {
            PackageManagers::Vcpkg => VcpkgManager::init(self.directory.as_str()),
            PackageManagers::Conan => ConanManager::init(self.directory.as_str()),
        }
    }

    /// The steps that provide the project's test framework.
    pub fn config(&self) -> (r: Vec<Step>)
        ensures
            r.deep_view() == self@.config_plan(),
    {
        match self.variant {
            PackageManagers::Vcpkg => VcpkgManager::config(
                self.directory.as_str(),
                &self.test_framework,
            ),
            PackageManagers::Conan => ConanManager::config(
                self.directory.as_str(),
                &self.test_framework,
            ),
        }
    }
}

/// The action that asks vcpkg to add `port` to the manifest of the project in `dir`.
pub open spec fn add_port_action(dir: Seq<char>, port: Seq<char>) -> ActionView {
    ActionView::Run { program: "vcpkg"@, args: seq!["add"@, "port"@, port], dir }
}

/// Whatever test framework is chosen, the steps by which vcpkg provides it
/// ask for the port of that framework to be added to the manifest of the
/// framework's directory, and the manifest is installed after that.
pub proof fn lemma_port_is_added(dir: Seq<char>, framework: TestFrameworkView)
    ensures
        vcpkg_config_plan(dir, framework).len() == 3,
        vcpkg_config_plan(dir, framework)[1].action == add_port_action(
            framework.dir,
            framework.variant.port(),
        ),
        vcpkg_config_plan(dir, framework)[2] == install_step("vcpkg"@, dir),
{
}

/// Where vcpkg reports no success on adding the port, providing the
/// framework fails at that step with a custom error, and nothing is
/// installed: an operation that went through has had the port added.
pub proof fn lemma_port_must_be_added(
    dir: Seq<char>,
    framework: TestFrameworkView,
    status: Seq<char>,
    later: Seq<OutcomeView>,
)
    ensures
        run(
            vcpkg_config_plan(dir, framework),
            0,
            seq![OutcomeView::Done, OutcomeView::Exit(status)] + later,
        ).failure == Some(
            ErrorView::CustomError("Custom Error: "@ + framework.variant.port_failure()),
        ),
        run(
            vcpkg_config_plan(dir, framework),
            0,
            seq![OutcomeView::Done, OutcomeView::Exit(status)] + later,
        ).performed.len() == 2,
{
    let plan = vcpkg_config_plan(dir, framework);
    let outcomes = seq![OutcomeView::Done, OutcomeView::Exit(status)] + later;
    assert(outcomes.drop_first() =~= seq![OutcomeView::Exit(status)] + later);
    assert(outcomes.drop_first().drop_first() =~= later);
    assert(run(plan, 3, later).performed.len() == 0);
    assert(run(plan, 1, outcomes.drop_first()).performed.len() == 1);
}

} // verus!
