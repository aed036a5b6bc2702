//! Who makes the choices of a new project.
use crate::build_system::BuildSystems;
use crate::error::Error;
use crate::language::{CStandard, Language};
use crate::package_manager::PackageManagers;
use crate::test_framework::TestFrameworks;
use vstd::prelude::*;

verus! {

/// Someone who can be asked for each choice of a new project. An answer
/// may fail, which is an error.
pub trait Prompter {
    fn select_language(&self) -> Result<Language, Error>;

    fn select_compiler(&self) -> Result<String, Error>;

    fn select_test_framework(&self) -> Result<TestFrameworks, Error>;

    fn select_build_system(&self) -> Result<BuildSystems, Error>;

    fn select_package_manager(&self) -> Result<PackageManagers, Error>;
}

/// Whether `r` is an answer that `prompter` can give when asked for the language.
pub open spec fn language_answer<P: Prompter>(prompter: &P, r: Result<Language, Error>) -> bool {
    call_ensures(P::select_language, (prompter,), r)
}

/// Whether `r` is an answer that `prompter` can give when asked for the compiler.
pub open spec fn compiler_answer<P: Prompter>(prompter: &P, r: Result<String, Error>) -> bool {
    call_ensures(P::select_compiler, (prompter,), r)
}

/// Whether `r` is an answer that `prompter` can give when asked for the test framework.
pub open spec fn test_framework_answer<P: Prompter>(
    prompter: &P,
    r: Result<TestFrameworks, Error>,
) -> bool {
    call_ensures(P::select_test_framework, (prompter,), r)
}

/// Whether `r` is an answer that `prompter` can give when asked for the build system.
pub open spec fn build_system_answer<P: Prompter>(
    prompter: &P,
    r: Result<BuildSystems, Error>,
) -> bool {
    call_ensures(P::select_build_system, (prompter,), r)
}

/// Whether `r` is an answer that `prompter` can give when asked for the package manager.
pub open spec fn package_manager_answer<P: Prompter>(
    prompter: &P,
    r: Result<PackageManagers, Error>,
) -> bool {
    call_ensures(P::select_package_manager, (prompter,), r)
}

/// The five choices of a new project.
#[derive(Debug, PartialEq, Eq)]
pub struct Answers {
    pub language: Language,
    pub compiler: String,
    pub test_framework: TestFrameworks,
    pub build_system: BuildSystems,
    pub package_manager: PackageManagers,
}

/// Whether `prompter` can make the choices of `answers`: each of them is
/// an answer that it can give to the question for it.
pub open spec fn can_answer<P: Prompter>(prompter: &P, answers: Answers) -> bool {
    &&& language_answer(prompter, Ok(answers.language))
    &&& compiler_answer(prompter, Ok(answers.compiler))
    &&& test_framework_answer(prompter, Ok(answers.test_framework))
    &&& build_system_answer(prompter, Ok(answers.build_system))
    &&& package_manager_answer(prompter, Ok(answers.package_manager))
}

/// Whether asking `prompter` can end with the error `e`: `e` is what it can
/// fail with on one of the questions, and it can answer every question
/// that is asked before that one. The questions are asked in this order:
/// language, compiler, test framework, build system, package manager.
pub open spec fn can_refuse<P: Prompter>(prompter: &P, e: Error) -> bool {
    ||| language_answer(prompter, Err(e))
    ||| {
        &&& exists|l: Language| #[trigger] language_answer(prompter, Ok(l))
        &&& compiler_answer(prompter, Err(e))
    }
    ||| {
        &&& exists|l: Language| #[trigger] language_answer(prompter, Ok(l))
        &&& exists|c: String| #[trigger] compiler_answer(prompter, Ok(c))
        &&& test_framework_answer(prompter, Err(e))
    }
    ||| {
        &&& exists|l: Language| #[trigger] language_answer(prompter, Ok(l))
        &&& exists|c: String| #[trigger] compiler_answer(prompter, Ok(c))
        &&& exists|t: TestFrameworks| #[trigger] test_framework_answer(prompter, Ok(t))
        &&& build_system_answer(prompter, Err(e))
    }
    ||| {
        &&& exists|l: Language| #[trigger] language_answer(prompter, Ok(l))
        &&& exists|c: String| #[trigger] compiler_answer(prompter, Ok(c))
        &&& exists|t: TestFrameworks| #[trigger] test_framework_answer(prompter, Ok(t))
        &&& exists|b: BuildSystems| #[trigger] build_system_answer(prompter, Ok(b))
        &&& package_manager_answer(prompter, Err(e))
    }
}

/// Asks `prompter` for the five choices, in the order language, compiler,
/// test framework, build system, package manager. The first answer that
/// fails ends the asking: its error is returned, and nothing more is asked.
/// Else the result holds the five answers.
pub fn ask<P: Prompter>(prompter: &P) -> (r: Result<Answers, Error>)
    ensures
        r matches Ok(answers) ==> can_answer(prompter, answers),
        r matches Err(e) ==> can_refuse(prompter, e),
{
    let language = match prompter.select_language() {
        Ok(language) => language,
        Err(e) => {
            return Err(e);
        },
    };
    assert(language_answer(prompter, Ok(language)));
    let compiler = match prompter.select_compiler() {
        Ok(compiler) => compiler,
        Err(e) => {
            return Err(e);
        },
    };
    assert(compiler_answer(prompter, Ok(compiler)));
    let test_framework = match prompter.select_test_framework() {
        Ok(test_framework) => test_framework,
        Err(e) => {
            return Err(e);
        },
    };
    assert(test_framework_answer(prompter, Ok(test_framework)));
    let build_system = match prompter.select_build_system() {
        Ok(build_system) => build_system,
        Err(e) => {
            return Err(e);
        },
    };
    assert(build_system_answer(prompter, Ok(build_system)));
    let package_manager = match prompter.select_package_manager() {
        Ok(package_manager) => package_manager,
        Err(e) => {
            return Err(e);
        },
    };
    Ok(Answers { language, compiler, test_framework, build_system, package_manager })
}

/// A prompter that asks nobody: C99 with clang, CMocka, CMake and vcpkg.
pub struct MockPrompter {}

impl Prompter for MockPrompter {
    fn select_language(&self) -> (r: Result<Language, Error>)
        ensures
            r matches Ok(language) && language == Language::C(CStandard::C99),
    {
        Ok(Language::C(CStandard::C99))
    }

    fn select_compiler(&self) -> (r: Result<String, Error>)
        ensures
            r matches Ok(compiler) && compiler@ == "clang"@,
    {
        Ok("clang".to_string())
    }

    fn select_test_framework(&self) -> (r: Result<TestFrameworks, Error>)
        ensures
            r matches Ok(framework) && framework == TestFrameworks::CMocka,
    {
        Ok(TestFrameworks::CMocka)
    }

    fn select_build_system(&self) -> (r: Result<BuildSystems, Error>)
        ensures
            r matches Ok(system) && system == BuildSystems::CMake,
    {
        Ok(BuildSystems::CMake)
    }

    fn select_package_manager(&self) -> (r: Result<PackageManagers, Error>)
        ensures
            r matches Ok(manager) && manager == PackageManagers::Vcpkg,
    {
        Ok(PackageManagers::Vcpkg)
    }
}

} // verus!
