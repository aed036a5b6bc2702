//! The build systems a project can use. CMake is the one that does
//! something: it gets a `CMakeLists.txt`, is configured and builds.
use crate::error::{not_named, refuse_name, Error};
use crate::language::Language;
use crate::plan::{
    below, launch, launched, no_steps, push_step, run, write_file, written, Action, ActionView,
    OnExit, OnExitView, OnFault, OnFaultView, OutcomeView, Step, StepView,
};
use crate::test_framework::{TestFramework, TestFrameworkView, TestFrameworks};
use crate::text::{
    glue3, glue5, glue7, join, joined, no_texts, push_all, push_owned, push_text, same_text,
};
use vstd::prelude::*;

verus! {

/// The build systems to choose from.
#[derive(Debug, Clone, Copy, PartialEq, Eq, Structural)]
pub enum BuildSystems {
    CMake,
    Meson,
    Make,
}

impl BuildSystems {
    /// The names of the build systems, in the order in which they are offered.
    pub open spec fn names() -> Seq<Seq<char>> {
        seq!["CMake"@, "Meson"@, "Make"@]
    }

    /// The name under which a build system is offered and stored.
    pub open spec fn name(self) -> Seq<char> {
        match self {
            BuildSystems::CMake => "CMake"@,
            BuildSystems::Meson => "Meson"@,
            BuildSystems::Make => "Make"@,
        }
    }

    /// The build system called `s`, if there is one.
    pub open spec fn parsed(s: Seq<char>) -> Option<BuildSystems> {
        if s == "CMake"@ {
            Some(BuildSystems::CMake)
        } else if s == "Meson"@ {
            Some(BuildSystems::Meson)
        } else if s == "Make"@ {
            Some(BuildSystems::Make)
        } else {
            None
        }
    }

    /// The names of the build systems, in the order in which they are offered.
    pub fn variants() -> (r: Vec<&'static str>)
        ensures
            r.deep_view() == Self::names(),
    {
        let r = vec!["CMake", "Meson", "Make"];
        r
    }

    /// The name of the build system.
    pub fn as_str(&self) -> (r: &'static str)
        ensures
            r@ == self.name(),
    {
        match self {
            BuildSystems::CMake => "CMake",
            BuildSystems::Meson => "Meson",
            BuildSystems::Make => "Make",
        }
    }

    /// The build system called `s`, or `None` where `s` names none.
    pub fn parse(s: &str) -> (r: Option<BuildSystems>)
        ensures
            r == Self::parsed(s@),
    {
        if same_text(s, "CMake") {
            Some(BuildSystems::CMake)
        } else if same_text(s, "Meson") {
            Some(BuildSystems::Meson)
        } else if same_text(s, "Make") {
            Some(BuildSystems::Make)
        } else {
            None
        }
    }

    /// The build system called `s`; a parse error where `s` names none.
    pub fn from_str(s: &str) -> (r: Result<BuildSystems, Error>)
        ensures
            match Self::parsed(s@) {
                Some(system) => r matches Ok(x) && x == system,
                None => r matches Err(e) && e@ == not_named(),
            },
    {
        match Self::parse(s) {
            Some(system) => Ok(system),
            None => Err(refuse_name()),
        }
    }

    /// Every build system is found again under its name, and its
    /// name is among those offered.
    pub proof fn lemma_name_round_trip(self)
        ensures
            Self::parsed(self.name()) == Some(self),
            Self::names().contains(self.name()),
    {
        reveal_strlit("CMake");
        reveal_strlit("Meson");
        reveal_strlit("Make");
        assert("CMake"@.len() == 5 && "Meson"@.len() == 5 && "Make"@.len() == 4);
        assert("CMake"@[0] != "Meson"@[0]);
    }
}

/// The lines of the `CMakeLists.txt` of the project `name`: the project and
/// its language standard, the library, the program, the tests with the
/// framework's link target, and where the program is put.
pub open spec fn cmake_lines(name: Seq<char>, language: Language, framework: TestFrameworks) -> Seq<
    Seq<char>,
> {
    let word = language.cmake_word();
    let ending = language.source_ending();
    seq![
        "# General"@,
        "cmake_minimum_required(VERSION 3.14)"@,
        "project("@ + name + " VERSION 1.0 LANGUAGES "@ + word + ")\n"@,
        "set(CMAKE_"@ + word + "_STANDARD "@ + language.number() + ")"@,
        "set(CMAKE_"@ + word + "_STANDARD_REQUIRED ON)\n"@,
        "# Library"@,
        "add_library("@ + name + "Lib src/lib."@ + ending + ")"@,
        "target_include_directories("@ + name + "Lib PUBLIC include/ libs/)\n"@,
        "# Binary"@,
        "add_executable("@ + name + " src/main."@ + ending + ")"@,
        "target_link_libraries("@ + name + " PRIVATE "@ + name + "Lib)\n"@,
        "# Testing"@,
        "enable_testing()"@,
        "find_package("@ + framework.name() + " REQUIRED)\n"@,
        "add_executable("@ + name + "Tests test/test_lib."@ + ending + " test/test_main."@ + ending
            + " )"@,
        "target_link_libraries("@ + name + "Tests PRIVATE\n                "@
            + framework.link_target() + "\n                "@ + name + "Lib\n            )"@,
        "target_include_directories("@ + name
            + "Tests PRIVATE \n                include/ \n                src/\n            )"@,
        "add_test(NAME "@ + name + "Tests COMMAND "@ + name + "Tests)\n"@,
        "# Compiled output file"@,
        "set_target_properties("@ + name + " PROPERTIES"@,
        "    RUNTIME_OUTPUT_DIRECTORY \"${CMAKE_BINARY_DIR}/bin\""@,
        ")"@,
    ]
}

/// The text of the `CMakeLists.txt`: its lines, each on a line of its own.
pub open spec fn cmake_lists(name: Seq<char>, language: Language, framework: TestFrameworks) -> Seq<
    char,
> {
    joined(cmake_lines(name, language, framework), "\n"@)
}

/// What CMake is given to configure a project: the source and build
/// directories, the request for a compile database if there is one, then
/// the caller's flags.
pub open spec fn configure_args(compile_commands: bool, flags: Seq<Seq<char>>) -> Seq<Seq<char>> {
    if compile_commands {
        seq!["-S"@, "."@, "-B"@, "build"@, "-DCMAKE_EXPORT_COMPILE_COMMANDS=ON"@] + flags
    } else {
        seq!["-S"@, "."@, "-B"@, "build"@] + flags
    }
}

/// The step that links the compile database of the build directory into the
/// root of the project in `dir`. The link is made if it can be: where `ln`
/// cannot be started or reports no success, the user is told so, and the
/// operation goes on.
pub open spec fn link_step(dir: Seq<char>) -> StepView {
    StepView {
        action: ActionView::Run {
            program: "ln"@,
            args: seq!["-sf"@, "build/compile_commands.json"@, "compile_commands.json"@],
            dir,
        },
        on_fault: OnFaultView::Warn("Failed to create symlink for the compile_commands.json"@),
        on_exit: OnExitView::Warn("Failed to create symlink for the compile_commands.json"@),
    }
}

/// The steps that configure the project in `dir` with CMake. With a compile
/// database, a configuration that reports no success ends the operation
/// quietly, and the link is made only after one that succeeded.
pub open spec fn cmake_configure_plan(
    dir: Seq<char>,
    compile_commands: bool,
    flags: Seq<Seq<char>>,
) -> Seq<StepView> {
    if compile_commands {
        seq![
            launched("cmake"@, configure_args(true, flags), dir, OnExitView::Finish),
            link_step(dir),
        ]
    } else {
        seq![launched("cmake"@, configure_args(false, flags), dir, OnExitView::Ignore)]
    }
}

/// The steps that build the project in `dir` with CMake. A build that
/// reports no success is told to the user and is no error.
pub open spec fn cmake_build_plan(dir: Seq<char>, flags: Option<Seq<Seq<char>>>) -> Seq<StepView> {
    seq![
        launched(
            "cmake"@,
            match flags {
                Some(given) => seq!["--build"@, "build"@] + given,
                None => seq!["--build"@, "build"@],
            },
            dir,
            OnExitView::Warn("Compilation failed."@),
        ),
    ]
}

/// The steps that write the `CMakeLists.txt` of a project into `dir`.
pub open spec fn cmake_init_plan(
    name: Seq<char>,
    dir: Seq<char>,
    language: Language,
    framework: TestFrameworks,
) -> Seq<StepView> {
    seq![written(seq![dir, "CMakeLists.txt"@], cmake_lists(name, language, framework))]
}

/// The views of the flags behind an optional reference.
pub open spec fn flags_view(flags: Option<&Vec<String>>) -> Option<Seq<Seq<char>>> {
    match flags {
        Some(given) => Some(given.deep_view()),
        None => None,
    }
}

/// CMake.
pub struct CMakeBuilder {}

impl CMakeBuilder {
    /// The text of the `CMakeLists.txt` of the project `name`.
    pub fn contents(name: &str, language: &Language, test_framework: &TestFramework) -> (r: String)
        ensures
            r@ == cmake_lists(name@, *language, test_framework@.variant),
    {
        let lang = language.cmake_identifier();
        let standard = language.version();
        let src_suffix = language.src_suffix();
        let test_pkg = test_framework.as_str();
        let test_targets = test_framework.cmake_target();

        let mut contents = no_texts();
        push_text(&mut contents, "# General");
        push_text(&mut contents, "cmake_minimum_required(VERSION 3.14)");
        push_owned(&mut contents, glue5("project(", name, " VERSION 1.0 LANGUAGES ", lang, ")\n"));
        push_owned(&mut contents, glue5("set(CMAKE_", lang, "_STANDARD ", standard, ")"));
        push_owned(&mut contents, glue3("set(CMAKE_", lang, "_STANDARD_REQUIRED ON)\n"));

        push_text(&mut contents, "# Library");
        push_owned(&mut contents, glue5("add_library(", name, "Lib src/lib.", src_suffix, ")"));
        push_owned(
            &mut contents,
            glue3("target_include_directories(", name, "Lib PUBLIC include/ libs/)\n"),
        );

        push_text(&mut contents, "# Binary");
        push_owned(&mut contents, glue5("add_executable(", name, " src/main.", src_suffix, ")"));
        push_owned(
            &mut contents,
            glue5("target_link_libraries(", name, " PRIVATE ", name, "Lib)\n"),
        );

        push_text(&mut contents, "# Testing");
        push_text(&mut contents, "enable_testing()");
        push_owned(&mut contents, glue3("find_package(", test_pkg, " REQUIRED)\n"));
        push_owned(
            &mut contents,
            glue7(
                "add_executable(",
                name,
                "Tests test/test_lib.",
                src_suffix,
                " test/test_main.",
                src_suffix,
                " )",
            ),
        );
        push_owned(
            &mut contents,
            glue7(
                "target_link_libraries(",
                name,
                "Tests PRIVATE\n                ",
                test_targets,
                "\n                ",
                name,
                "Lib\n            )",
            ),
        );
        push_owned(
            &mut contents,
            glue3(
                "target_include_directories(",
                name,
                "Tests PRIVATE \n                include/ \n                src/\n            )",
            ),
        );
        push_owned(
            &mut contents,
            glue5("add_test(NAME ", name, "Tests COMMAND ", name, "Tests)\n"),
        );

        push_text(&mut contents, "# Compiled output file");
        push_owned(&mut contents, glue3("set_target_properties(", name, " PROPERTIES"));
        push_text(&mut contents, "    RUNTIME_OUTPUT_DIRECTORY \"${CMAKE_BINARY_DIR}/bin\"");
        push_text(&mut contents, ")");

        assert(contents.deep_view() =~= cmake_lines(name@, *language, test_framework@.variant));
        join(&contents, "\n")
    }

    /// The steps that write the `CMakeLists.txt` into the directory `path`.
    pub fn init(name: &str, path: &str, language: &Language, test_framework: &TestFramework) -> (r:
        Vec<Step>)
        ensures
            r.deep_view() == cmake_init_plan(name@, path@, *language, test_framework@.variant),
    {
        let contents = Self::contents(name, language, test_framework);
        let mut plan = no_steps();
        push_step(&mut plan, write_file(below(path, "CMakeLists.txt"), contents));
        plan
    }

    /// The steps that configure the project in `path`.
    pub fn configure(path: &str, compile_cmds: bool, flags: &Vec<String>) -> (r: Vec<Step>)
        ensures
            r.deep_view() == cmake_configure_plan(path@, compile_cmds, flags.deep_view()),
    {
        let mut args = no_texts();
        push_text(&mut args, "-S");
        push_text(&mut args, ".");
        push_text(&mut args, "-B");
        push_text(&mut args, "build");
        if compile_cmds {
            push_text(&mut args, "-DCMAKE_EXPORT_COMPILE_COMMANDS=ON");
        }
        push_all(&mut args, flags);
        assert(args.deep_view() =~= configure_args(compile_cmds, flags.deep_view()));

        let mut plan = no_steps();
        if compile_cmds {
            push_step(&mut plan, launch("cmake", args, path, OnExit::Finish));
            let mut link = Self::link_command_compiler(path);
            let ghost first = plan.deep_view();
            let ghost second = link.deep_view();
            plan.append(&mut link);
            assert(plan.deep_view() =~= first + second);
        } else {
            push_step(&mut plan, launch("cmake", args, path, OnExit::Ignore));
        }
        plan
    }

    /// The step that links the compile database into the root of the project in `path`.
    pub fn link_command_compiler(path: &str) -> (r: Vec<Step>)
        ensures
            r.deep_view() == seq![link_step(path@)],
    {
        let mut args = no_texts();
        push_text(&mut args, "-sf");
        push_text(&mut args, "build/compile_commands.json");
        push_text(&mut args, "compile_commands.json");
        assert(args.deep_view() =~= seq![
            "-sf"@,
            "build/compile_commands.json"@,
            "compile_commands.json"@,
        ]);
        let mut plan = no_steps();
        push_step(
            &mut plan,
            Step {
                action: Action::Run { program: "ln".to_string(), args, dir: path.to_string() },
                on_fault: OnFault::Warn(
                    "Failed to create symlink for the compile_commands.json".to_string(),
                ),
                on_exit: OnExit::Warn(
                    "Failed to create symlink for the compile_commands.json".to_string(),
                ),
            },
        );
        plan
    }

    /// The steps that build the project in `path`.
    pub fn build(path: &str, flags: Option<&Vec<String>>) -> (r: Vec<Step>)
        ensures
            r.deep_view() == cmake_build_plan(path@, flags_view(flags)),
    {
        let mut args = no_texts();
        push_text(&mut args, "--build");
        push_text(&mut args, "build");
        if let Some(f) = flags {
            push_all(&mut args, f);
        }
        assert(args.deep_view() =~= match flags_view(flags) {
            Some(given) => seq!["--build"@, "build"@] + given,
            None => seq!["--build"@, "build"@],
        });
        let mut plan = no_steps();
        push_step(
            &mut plan,
            launch("cmake", args, path, OnExit::Warn("Compilation failed.".to_string())),
        );
        plan
    }
}

/// Meson: accepted as a choice, and nothing is done for it.
pub struct MesonBuilder {}

impl MesonBuilder {
    /// No steps: nothing is written for Meson.
    pub fn init() -> (r: Vec<Step>)
        ensures
            r.deep_view() == Seq::<StepView>::empty(),
    {
        no_steps()
    }

    /// No steps: nothing is configured for Meson.
    pub fn configure() -> (r: Vec<Step>)
        ensures
            r.deep_view() == Seq::<StepView>::empty(),
    {
        no_steps()
    }

    /// No steps: nothing is built for Meson.
    pub fn build() -> (r: Vec<Step>)
        ensures
            r.deep_view() == Seq::<StepView>::empty(),
    {
        no_steps()
    }
}

/// Make: accepted as a choice, and nothing is done for it.
pub struct MakeBuilder {}

impl MakeBuilder {
    /// No steps: nothing is written for Make.
    pub fn init() -> (r: Vec<Step>)
        ensures
            r.deep_view() == Seq::<StepView>::empty(),
    {
        no_steps()
    }

    /// No steps: nothing is configured for Make.
    pub fn configure() -> (r: Vec<Step>)
        ensures
            r.deep_view() == Seq::<StepView>::empty(),
    {
        no_steps()
    }

    /// No steps: nothing is built for Make.
    pub fn build() -> (r: Vec<Step>)
        ensures
            r.deep_view() == Seq::<StepView>::empty(),
    {
        no_steps()
    }
}

/// The build system of one project.
#[derive(Debug, PartialEq, Eq)]
pub struct BuildSystem {
    name: String,
    variant: BuildSystems,
    directory: String,
    test_framework: TestFramework,
    language: Language,
}

/// A [`BuildSystem`] over sequences of characters.
pub struct BuildSystemView {
    pub name: Seq<char>,
    pub variant: BuildSystems,
    pub directory: Seq<char>,
    pub test_framework: TestFrameworkView,
    pub language: Language,
}

impl BuildSystemView {
    /// The steps that write the build system's description of the project.
    pub open spec fn init_plan(self) -> Seq<StepView> {
        match self.variant {
            BuildSystems::CMake => cmake_init_plan(
                self.name,
                self.directory,
                self.language,
                self.test_framework.variant,
            ),
            _ => Seq::empty(),
        }
    }

    /// The steps that configure the project.
    pub open spec fn configure_plan(self, compile_commands: bool, flags: Seq<Seq<char>>) -> Seq<
        StepView,
    > {
        match self.variant {
            BuildSystems::CMake => cmake_configure_plan(self.directory, compile_commands, flags),
            _ => Seq::empty(),
        }
    }

    /// The steps that build the project.
    pub open spec fn build_plan(self, flags: Option<Seq<Seq<char>>>) -> Seq<StepView> {
        match self.variant {
            BuildSystems::CMake => cmake_build_plan(self.directory, flags),
            _ => Seq::empty(),
        }
    }
}

impl View for BuildSystem {
    type V = BuildSystemView;

    closed spec fn view(&self) -> BuildSystemView {
        BuildSystemView {
            name: self.name@,
            variant: self.variant,
            directory: self.directory@,
            test_framework: self.test_framework@,
            language: self.language,
        }
    }
}

impl BuildSystem {
    /// The build system `variant` of the project `name` in `directory`.
    pub fn new(
        name: String,
        variant: BuildSystems,
        directory: String,
        test_framework: TestFramework,
        language: Language,
    ) -> (r: BuildSystem)
        ensures
            r@.name == name@,
            r@.variant == variant,
            r@.directory == directory@,
            r@.test_framework == test_framework@,
            r@.language == language,
    {
        BuildSystem { name, variant, directory, test_framework, language }
    }

    /// The name of the project.
    pub fn name(&self) -> (r: &str)
        ensures
            r@ == self@.name,
    {
        self.name.as_str()
    }

    /// The build system that was chosen.
    pub fn variant(&self) -> (r: BuildSystems)
        ensures
            r == self@.variant,
    {
        self.variant
    }

    /// The directory of the project.
    pub fn directory(&self) -> (r: &str)
        ensures
            r@ == self@.directory,
    {
        self.directory.as_str()
    }

    /// The test framework of the project.
    pub fn test_framework(&self) -> (r: &TestFramework)
        ensures
            r@ == self@.test_framework,
    {
        &self.test_framework
    }

    /// The language of the project.
    pub fn language(&self) -> (r: Language)
        ensures
            r == self@.language,
    {
        self.language
    }

    /// The steps that write the build system's description of the project.
    pub fn init(&self) -> (r: Vec<Step>)
        ensures
            r.deep_view() == self@.init_plan(),
    {
        match self.variant {
            BuildSystems::CMake => CMakeBuilder::init(
                self.name.as_str(),
                self.directory.as_str(),
                &self.language,
                &self.test_framework,
            ),
            BuildSystems::Meson => MesonBuilder::init(),
            BuildSystems::Make => MakeBuilder::init(),
        }
    }

    /// The steps that configure the project, with a compile database if
    /// `compile_commands` says so, and with `flags`.
    pub fn configure(&self, compile_commands: bool, flags: &Vec<String>) -> (r: Vec<Step>)
        ensures
            r.deep_view() == self@.configure_plan(compile_commands, flags.deep_view()),
    {
        match self.variant {
            BuildSystems::CMake => CMakeBuilder::configure(
                self.directory.as_str(),
                compile_commands,
                flags,
            ),
            BuildSystems::Meson => MesonBuilder::configure(),
            BuildSystems::Make => MakeBuilder::configure(),
        }
    }

    /// The steps that build the project, with `flags` if there are any.
    pub fn build(&self, flags: Option<&Vec<String>>) -> (r: Vec<Step>)
        ensures
            r.deep_view() == self@.build_plan(flags_view(flags)),
    {
        match self.variant {
            BuildSystems::CMake => CMakeBuilder::build(self.directory.as_str(), flags),
            BuildSystems::Meson => MesonBuilder::build(),
            BuildSystems::Make => MakeBuilder::build(),
        }
    }
}

/// Whether some step of `plan` links the compile database into the root of
/// the project in `dir`.
pub open spec fn links_database(plan: Seq<StepView>, dir: Seq<char>) -> bool {
    exists|i: int| 0 <= i < plan.len() && (#[trigger] plan[i]).action == link_step(dir).action
}

/// Configuring with CMake plans the link of the compile database into the
/// project's root exactly when a compile database is asked for.
pub proof fn lemma_link_iff_asked(dir: Seq<char>, compile_commands: bool, flags: Seq<Seq<char>>)
    ensures
        links_database(cmake_configure_plan(dir, compile_commands, flags), dir)
            <==> compile_commands,
{
    if compile_commands {
        assert(cmake_configure_plan(dir, true, flags)[1].action == link_step(dir).action);
    } else {
        reveal_strlit("cmake");
        reveal_strlit("ln");
        assert("cmake"@.len() != "ln"@.len());
    }
}

/// In a project that uses CMake, configuring plans the link of the compile
/// database into the project's root exactly when a compile database is
/// asked for.
pub proof fn lemma_configure_links_iff_asked(
    system: BuildSystemView,
    compile_commands: bool,
    flags: Seq<Seq<char>>,
)
    requires
        system.variant == BuildSystems::CMake,
    ensures
        links_database(system.configure_plan(compile_commands, flags), system.directory)
            <==> compile_commands,
{
    lemma_link_iff_asked(system.directory, compile_commands, flags);
}

/// With a compile database asked for, the link is made after a configuration
/// that succeeded, and however the link ends, the operation ends without an
/// error. The link is not made after a configuration that did not succeed:
/// the operation then ends without an error and without a word.
pub proof fn lemma_link_follows_success(
    dir: Seq<char>,
    flags: Seq<Seq<char>>,
    status: Seq<char>,
    link: OutcomeView,
)
    ensures
        run(
            cmake_configure_plan(dir, true, flags),
            0,
            seq![OutcomeView::Done, link],
        ).performed == seq![
            cmake_configure_plan(dir, true, flags)[0].action,
            link_step(dir).action,
        ],
        run(
            cmake_configure_plan(dir, true, flags),
            0,
            seq![OutcomeView::Done, link],
        ).failure is None,
        run(
            cmake_configure_plan(dir, true, flags),
            0,
            seq![OutcomeView::Exit(status), link],
        ) == (crate::plan::Trace {
            performed: seq![cmake_configure_plan(dir, true, flags)[0].action],
            warnings: Seq::empty(),
            failure: None,
            place: 2,
        }),
{
    let plan = cmake_configure_plan(dir, true, flags);
    let smooth = seq![OutcomeView::Done, link];
    assert(smooth.drop_first() =~= seq![link]);
    assert(seq![link].drop_first() =~= Seq::<OutcomeView>::empty());
    assert(run(plan, 2, Seq::<OutcomeView>::empty()).performed.len() == 0);
    assert(run(plan, 1, seq![link]).performed =~= seq![link_step(dir).action]);
    let rough = seq![OutcomeView::Exit(status), link];
    assert(rough.drop_first() =~= seq![link]);
    assert(run(plan, 2, seq![link]).performed.len() == 0);
}

} // verus!
