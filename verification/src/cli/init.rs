//! The command that makes the working directory a project.
use crate::build_system::BuildSystems;
use crate::cli::prompter::{ask, can_answer, can_refuse, Answers, Prompter};
use crate::config::{assembled, sets_up, ForgeConfig, ForgeConfigView};
use crate::error::{Error, ErrorView};
use crate::language::Language;
use crate::package_manager::PackageManagers;
use crate::plan::{planned, Step, StepView};
use crate::test_framework::TestFrameworks;
use vstd::prelude::*;

verus! {

/// What `init` was given: nothing.
#[derive(Debug)]
pub struct InitArgs {}

/// The name of a project in a directory whose last part is `found`: that
/// part, and `default` where the directory has none.
pub open spec fn project_name(found: Option<Seq<char>>) -> Seq<char> {
    match found {
        Some(name) => name,
        None => "default"@,
    }
}

/// The project in the working directory `cwd` with the choices given.
pub open spec fn init_project(
    found: Option<Seq<char>>,
    cwd: Seq<char>,
    language: Language,
    compiler: Seq<char>,
    test_framework: TestFrameworks,
    build_system: BuildSystems,
    package_manager: PackageManagers,
) -> ForgeConfigView {
    assembled(
        project_name(found),
        cwd,
        language,
        compiler,
        build_system,
        package_manager,
        test_framework,
        "intellisenseMode "@,
    )
}

/// Whether `outcome` is what setting up the project of the working
/// directory `cwd`, whose last part is `found`, comes to, with choices that
/// `prompter` can make: a language, a compiler, a test framework, a build
/// system and a package manager, each an answer that the prompter can give.
pub open spec fn started<P: Prompter>(
    outcome: Result<Seq<StepView>, ErrorView>,
    found: Option<Seq<char>>,
    cwd: Seq<char>,
    prompter: &P,
) -> bool {
    exists|answers: Answers| #[trigger]
        can_answer(prompter, answers) && sets_up(
            outcome,
            init_project(
                found,
                cwd,
                answers.language,
                answers.compiler@,
                answers.test_framework,
                answers.build_system,
                answers.package_manager,
            ),
        )
}

impl InitArgs {
    /// The project in `cwd` with the choices given, called after the last
    /// part of `cwd`, or `default` without one.
    pub fn project(
        &self,
        cwd: String,
        name: Option<String>,
        language: Language,
        compiler: String,
        test_framework: TestFrameworks,
        build_system: BuildSystems,
        package_manager: PackageManagers,
    ) -> (r: ForgeConfig)
        ensures
            r@ == init_project(
                name.deep_view(),
                cwd@,
                language,
                compiler@,
                test_framework,
                build_system,
                package_manager,
            ),
    {
        let name = match name {
            Some(found) => found,
            None => "default".to_string(),
        };
        ForgeConfig::new(
            name,
            cwd,
            language,
            compiler,
            build_system,
            package_manager,
            test_framework,
            "intellisenseMode ".to_string(),
        )
    }

    /// The steps that set the project up in the working directory `cwd`,
    /// whose last part is `name`, with the choices of `answers`; an error,
    /// with the writer's words, where the editor's settings or the
    /// descriptor cannot be rendered.
    pub fn answered(&self, cwd: String, name: Option<String>, answers: Answers) -> (r: Result<
        Vec<Step>,
        Error,
    >)
        ensures
            sets_up(
                planned(r),
                init_project(
                    name.deep_view(),
                    cwd@,
                    answers.language,
                    answers.compiler@,
                    answers.test_framework,
                    answers.build_system,
                    answers.package_manager,
                ),
            ),
    {
        let config = self.project(
            cwd,
            name,
            answers.language,
            answers.compiler,
            answers.test_framework,
            answers.build_system,
            answers.package_manager,
        );
        config.init()
    }

    /// The steps that set the project up in the working directory `cwd`,
    /// whose last part is `name`. The language, the compiler, the test
    /// framework, the build system and the package manager are asked of
    /// `prompter`, in this order. The first answer that fails ends the
    /// command with its error. Else the result is what
    /// [`answered`](InitArgs::answered) gives for the five answers.
    pub fn process_command<P: Prompter>(
        &self,
        cwd: String,
        name: Option<String>,
        prompter: &P,
    ) -> (r: Result<Vec<Step>, Error>)
        ensures
            (r matches Err(e) && can_refuse(prompter, e)) || started(
                planned(r),
                name.deep_view(),
                cwd@,
                prompter,
            ),
    {
        match ask(prompter) {
            Ok(answers) => {
                assert(can_answer(prompter, answers));
                self.answered(cwd, name, answers)
            },
            Err(e) => Err(e),
        }
    }
}

} // verus!
