//! The command that creates a project in a directory of its own.
use crate::build_system::BuildSystems;
use crate::cli::prompter::{ask, can_answer, can_refuse, Answers, Prompter};
use crate::config::{assembled, sets_up, ForgeConfig, ForgeConfigView};
use crate::error::{Error, ErrorView};
use crate::language::Language;
use crate::package_manager::PackageManagers;
use crate::plan::{planned, Step, StepView};
use crate::test_framework::TestFrameworks;
use vstd::prelude::*;

verus! {

/// What `new` was given.
#[derive(Debug)]
pub struct NewArgs {
    /// Name of the new project and of its directory.
    pub name: String,
}

/// The project called `name` in `directory` with the choices given.
pub open spec fn new_project(
    name: Seq<char>,
    directory: Seq<char>,
    language: Language,
    compiler: Seq<char>,
    test_framework: TestFrameworks,
    build_system: BuildSystems,
    package_manager: PackageManagers,
) -> ForgeConfigView {
    assembled(
        name,
        directory,
        language,
        compiler,
        build_system,
        package_manager,
        test_framework,
        "intellisenseMode "@,
    )
}

/// Whether `outcome` is what setting up a project called `name` in
/// `directory` comes to, with choices that `prompter` can make: a language,
/// a compiler, a test framework, a build system and a package manager, each
/// an answer that the prompter can give.
pub open spec fn created<P: Prompter>(
    outcome: Result<Seq<StepView>, ErrorView>,
    name: Seq<char>,
    directory: Seq<char>,
    prompter: &P,
) -> bool {
    exists|answers: Answers| #[trigger]
        can_answer(prompter, answers) && sets_up(
            outcome,
            new_project(
                name,
                directory,
                answers.language,
                answers.compiler@,
                answers.test_framework,
                answers.build_system,
                answers.package_manager,
            ),
        )
}

impl NewArgs {
    /// The project of this name in `directory` with the choices given.
    pub fn project(
        &self,
        directory: String,
        language: Language,
        compiler: String,
        test_framework: TestFrameworks,
        build_system: BuildSystems,
        package_manager: PackageManagers,
    ) -> (r: ForgeConfig)
        ensures
            r@ == new_project(
                self.name@,
                directory@,
                language,
                compiler@,
                test_framework,
                build_system,
                package_manager,
            ),
    {
        ForgeConfig::new(
            self.name.clone(),
            directory,
            language,
            compiler,
            build_system,
            package_manager,
            test_framework,
            "intellisenseMode ".to_string(),
        )
    }

    /// The steps that set up the project of this name in `directory` with
    /// the choices of `answers`; an error, with the writer's words, where
    /// the editor's settings or the descriptor cannot be rendered.
    pub fn answered(&self, directory: String, answers: Answers) -> (r: Result<Vec<Step>, Error>)
        ensures
            sets_up(
                planned(r),
                new_project(
                    self.name@,
                    directory@,
                    answers.language,
                    answers.compiler@,
                    answers.test_framework,
                    answers.build_system,
                    answers.package_manager,
                ),
            ),
    {
        let config = self.project(
            directory,
            answers.language,
            answers.compiler,
            answers.test_framework,
            answers.build_system,
            answers.package_manager,
        );
        config.init()
    }

    /// The steps that set up the new project in `directory`. The language,
    /// the compiler, the test framework, the build system and the package
    /// manager are asked of `prompter`, in this order. The first answer that
    /// fails ends the command with its error. Else the result is what
    /// [`answered`](NewArgs::answered) gives for the five answers.
    pub fn process_command<P: Prompter>(&self, directory: String, prompter: &P) -> (r: Result<
        Vec<Step>,
        Error,
    >)
        ensures
            (r matches Err(e) && can_refuse(prompter, e)) || created(
                planned(r),
                self.name@,
                directory@,
                prompter,
            ),
    {
        match ask(prompter) {
            Ok(answers) => {
                assert(can_answer(prompter, answers));
                self.answered(directory, answers)
            },
            Err(e) => Err(e),
        }
    }
}

} // verus!
