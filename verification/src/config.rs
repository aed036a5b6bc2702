//! A project as a whole: what it is, which tools it uses, and the steps of
//! each thing that can be done with it.
use crate::build_system::{
    cmake_lines, flags_view, BuildSystem, BuildSystemView, BuildSystems,
};
use crate::descriptor::{from_table, holds_config, to_table, decoded_config};
use crate::error::{Error, ErrorView};
use crate::json::json_pretty;
use crate::language::Language;
use crate::package_manager::{
    add_port_action, lemma_port_is_added, PackageManager, PackageManagerView, PackageManagers,
};
use crate::plan::{
    below, launch, launched, lemma_first_search, lemma_smooth_run, lemma_split_sorts,
    lemma_work_keeps, no_steps, planned, push_step,
    push_steps, run, searches_of, split, work_of,
    write_file, written, Action, ActionView, OnExit, OnExitView, OnFault, OnFaultView,
    OutcomeView, Step, StepView,
};
use crate::scaffolder::{
    lemma_layout_searches_nothing, sources_plan, vscode_settings, Scaffolder, ScaffolderView,
};
use crate::table::{read_table, toml_result, toml_table, write_table};
use crate::test_framework::{TestFramework, TestFrameworkView, TestFrameworks};
use crate::text::{glue2, no_texts, push_all, push_text, rendered};
use vstd::prelude::*;

verus! {

/// What a project is: its name and its language.
#[derive(Debug, PartialEq, Eq)]
pub struct ProjectConfig {
    name: String,
    language: Language,
}

/// A [`ProjectConfig`] over sequences of characters.
pub struct ProjectConfigView {
    pub name: Seq<char>,
    pub language: Language,
}

impl View for ProjectConfig {
    type V = ProjectConfigView;

    closed spec fn view(&self) -> ProjectConfigView {
        ProjectConfigView { name: self.name@, language: self.language }
    }
}

impl ProjectConfig {
    /// What a project is: `name` in `language`.
    pub fn new(name: String, language: Language) -> (r: ProjectConfig)
        ensures
            r@.name == name@,
            r@.language == language,
    {
        ProjectConfig { name, language }
    }

    /// The name of the project.
    pub fn name(&self) -> (r: &str)
        ensures
            r@ == self@.name,
    {
        self.name.as_str()
    }

    /// The language of the project.
    pub fn language(&self) -> (r: Language)
        ensures
            r == self@.language,
    {
        self.language
    }
}

/// The tools of a project.
#[derive(Debug, PartialEq, Eq)]
pub struct ToolsConfig {
    compiler_path: String,
    package_manager: PackageManager,
    build_system: BuildSystem,
    test_framework: TestFramework,
    intellisense_mode: String,
}

/// A [`ToolsConfig`] over sequences of characters.
pub struct ToolsConfigView {
    pub compiler_path: Seq<char>,
    pub package_manager: PackageManagerView,
    pub build_system: BuildSystemView,
    pub test_framework: TestFrameworkView,
    pub intellisense_mode: Seq<char>,
}

impl View for ToolsConfig {
    type V = ToolsConfigView;

    closed spec fn view(&self) -> ToolsConfigView {
        ToolsConfigView {
            compiler_path: self.compiler_path@,
            package_manager: self.package_manager@,
            build_system: self.build_system@,
            test_framework: self.test_framework@,
            intellisense_mode: self.intellisense_mode@,
        }
    }
}

impl ToolsConfig {
    /// The tools of a project.
    pub fn new(
        compiler_path: String,
        package_manager: PackageManager,
        build_system: BuildSystem,
        test_framework: TestFramework,
        intellisense_mode: String,
    ) -> (r: ToolsConfig)
        ensures
            r@.compiler_path == compiler_path@,
            r@.package_manager == package_manager@,
            r@.build_system == build_system@,
            r@.test_framework == test_framework@,
            r@.intellisense_mode == intellisense_mode@,
    {
        ToolsConfig { compiler_path, package_manager, build_system, test_framework, intellisense_mode }
    }

    /// The path of the compiler.
    pub fn compiler_path(&self) -> (r: &str)
        ensures
            r@ == self@.compiler_path,
    {
        self.compiler_path.as_str()
    }

    /// The package manager.
    pub fn package_manager(&self) -> (r: &PackageManager)
        ensures
            r@ == self@.package_manager,
    {
        &self.package_manager
    }

    /// The build system.
    pub fn build_system(&self) -> (r: &BuildSystem)
        ensures
            r@ == self@.build_system,
    {
        &self.build_system
    }

    /// The test framework.
    pub fn test_framework(&self) -> (r: &TestFramework)
        ensures
            r@ == self@.test_framework,
    {
        &self.test_framework
    }

    /// The mode in which the editor reads the sources.
    pub fn intellisense_mode(&self) -> (r: &str)
        ensures
            r@ == self@.intellisense_mode,
    {
        self.intellisense_mode.as_str()
    }
}

/// A project: its directory, what it is, and its tools.
#[derive(Debug, PartialEq, Eq)]
pub struct ForgeConfig {
    directory: String,
    project: ProjectConfig,
    tools: ToolsConfig,
}

/// A [`ForgeConfig`] over sequences of characters.
pub struct ForgeConfigView {
    pub directory: Seq<char>,
    pub project: ProjectConfigView,
    pub tools: ToolsConfigView,
}

/// The project that [`ForgeConfig::new`] makes of its arguments: each tool
/// gets the project's directory, language and test framework.
pub open spec fn assembled(
    name: Seq<char>,
    directory: Seq<char>,
    language: Language,
    compiler_path: Seq<char>,
    build_system: BuildSystems,
    package_manager: PackageManagers,
    test_framework: TestFrameworks,
    intellisense_mode: Seq<char>,
) -> ForgeConfigView {
    let framework = TestFrameworkView { variant: test_framework, dir: directory };
    ForgeConfigView {
        directory,
        project: ProjectConfigView { name, language },
        tools: ToolsConfigView {
            compiler_path,
            package_manager: PackageManagerView {
                variant: package_manager,
                directory,
                test_framework: framework,
                language,
            },
            build_system: BuildSystemView {
                name,
                variant: build_system,
                directory,
                test_framework: framework,
                language,
            },
            test_framework: framework,
            intellisense_mode,
        },
    }
}

/// The step that writes the descriptor, given as text, into `dir`.
pub open spec fn descriptor_plan(dir: Seq<char>, descriptor: Seq<char>) -> Seq<StepView> {
    seq![written(seq![dir, "Forge.toml"@], descriptor)]
}

/// The step that looks whether `name` exists in the directory `dir`, and
/// leaves out the next `skip` steps where it does not.
pub open spec fn probe_step(dir: Seq<char>, name: Seq<char>, skip: nat) -> StepView {
    StepView {
        action: ActionView::Probe { path: seq![dir, name] },
        on_fault: OnFaultView::Io,
        on_exit: OnExitView::Skip(skip),
    }
}

/// The step that removes the directory `name` of the directory `dir`.
pub open spec fn remove_step(dir: Seq<char>, name: Seq<char>) -> StepView {
    StepView {
        action: ActionView::RemoveTree { path: seq![dir, name] },
        on_fault: OnFaultView::Io,
        on_exit: OnExitView::Ignore,
    }
}

/// The step that creates the directory `name` in the directory `dir`.
pub open spec fn create_step(dir: Seq<char>, name: Seq<char>) -> StepView {
    StepView {
        action: ActionView::MakeDir { path: seq![dir, name] },
        on_fault: OnFaultView::Io,
        on_exit: OnExitView::Ignore,
    }
}

/// The steps that clean the project in `dir`: its cache directory is
/// removed if it exists, and its build directory, if it exists, is removed
/// and created anew.
pub open spec fn clean_plan(dir: Seq<char>) -> Seq<StepView> {
    seq![
        probe_step(dir, ".cache"@, 1),
        remove_step(dir, ".cache"@),
        probe_step(dir, "build"@, 2),
        remove_step(dir, "build"@),
        create_step(dir, "build"@),
    ]
}

impl ForgeConfigView {
    /// What the scaffolder knows of the project.
    pub open spec fn scaffolder(self) -> ScaffolderView {
        ScaffolderView {
            name: self.project.name,
            project_dir: self.directory,
            language: self.project.language,
        }
    }

    /// What the package manager does for a new project: it sets the
    /// project up as its application, then provides the test framework.
    pub open spec fn tool_plan(self) -> Seq<StepView> {
        self.tools.package_manager.init_plan() + self.tools.package_manager.config_plan()
    }

    /// The steps that set a project up, where `settings` is the text of the
    /// editor's settings and `descriptor` that of the descriptor. First
    /// every tool that the package manager needs is looked for, so that a
    /// missing tool is found out before anything is changed. Then follow the
    /// layout, the package manager's setup and its installation of the test
    /// framework, the build system's description, and last the descriptor.
    pub open spec fn init_plan(self, settings: Seq<char>, descriptor: Seq<char>) -> Seq<StepView> {
        searches_of(self.tool_plan()) + self.scaffolder().build_plan(settings) + work_of(
            self.tool_plan(),
        ) + self.tools.build_system.init_plan() + descriptor_plan(self.directory, descriptor)
    }

    /// What setting a project up comes to, given what the writers made of
    /// the editor's settings and of the descriptor: the steps of
    /// [`init_plan`](ForgeConfigView::init_plan) where both were rendered; a
    /// serde error where the settings were not; else an error of writing
    /// TOML. Each error holds the words of its writer.
    pub open spec fn init_outcome(
        self,
        settings: Result<Seq<char>, Seq<char>>,
        descriptor: Result<Seq<char>, Seq<char>>,
    ) -> Result<Seq<StepView>, ErrorView> {
        match settings {
            Err(words) => Err(ErrorView::SerdeError(words)),
            Ok(laid_out) => match descriptor {
                Err(words) => Err(ErrorView::TomlSerError(words)),
                Ok(text) => Ok(self.init_plan(laid_out, text)),
            },
        }
    }

    /// What writing the descriptor comes to, given what the writer made of
    /// it: the step that writes the text, or an error of writing TOML that
    /// holds the writer's words.
    pub open spec fn descriptor_outcome(self, descriptor: Result<Seq<char>, Seq<char>>) -> Result<
        Seq<StepView>,
        ErrorView,
    > {
        match descriptor {
            Ok(text) => Ok(descriptor_plan(self.directory, text)),
            Err(words) => Err(ErrorView::TomlSerError(words)),
        }
    }

    /// The step that runs the program of the project in the project's
    /// directory, from where the build puts it. A program that reports no
    /// success is told to the user.
    pub open spec fn run_plan(self) -> Seq<StepView> {
        seq![
            launched(
                "./build/bin/"@ + self.project.name,
                Seq::empty(),
                self.directory,
                OnExitView::WarnStatus("Failed: "@),
            ),
        ]
    }

    /// The step that runs the tests of the project's build directory with
    /// `flags`, in the project's directory. Tests that report no success are
    /// told to the user.
    pub open spec fn test_plan(self, flags: Option<Seq<Seq<char>>>) -> Seq<StepView> {
        seq![
            launched(
                "ctest"@,
                match flags {
                    Some(given) => seq!["--test-dir"@, "build"@] + given,
                    None => seq!["--test-dir"@, "build"@],
                },
                self.directory,
                OnExitView::WarnStatus("Failed: "@),
            ),
        ]
    }
}

/// Whether `outcome` is what setting the project `config` up comes to: for
/// a table `t` that is a descriptor of `config`, it is
/// [`ForgeConfigView::init_outcome`] of what `serde_json` makes of the
/// editor's settings and of what `toml` makes of `t`.
pub open spec fn sets_up(outcome: Result<Seq<StepView>, ErrorView>, config: ForgeConfigView) -> bool {
    exists|t: toml::map::Map<String, toml::Value>|
        holds_config(t, config) && outcome == config.init_outcome(
            config.scaffolder().settings(),
            #[trigger] toml_result(t),
        )
}

/// Whether `outcome` is what writing the descriptor of `config` comes to:
/// for a table `t` that is a descriptor of `config`, it is
/// [`ForgeConfigView::descriptor_outcome`] of what `toml` makes of `t`.
pub open spec fn writes_descriptor(
    outcome: Result<Seq<StepView>, ErrorView>,
    config: ForgeConfigView,
) -> bool {
    exists|t: toml::map::Map<String, toml::Value>|
        holds_config(t, config) && outcome == config.descriptor_outcome(#[trigger] toml_result(t))
}

impl View for ForgeConfig {
    type V = ForgeConfigView;

    closed spec fn view(&self) -> ForgeConfigView {
        ForgeConfigView { directory: self.directory@, project: self.project@, tools: self.tools@ }
    }
}

impl ForgeConfig {
    /// The project `name` in `directory` with the choices given. Each tool
    /// gets the directory, the language and the test framework of the project.
    pub fn new(
        name: String,
        directory: String,
        language: Language,
        compiler_path: String,
        build_system: BuildSystems,
        package_manager: PackageManagers,
        test_framework: TestFrameworks,
        intellisense_mode: String,
    ) -> (r: ForgeConfig)
        ensures
            r@ == assembled(
                name@,
                directory@,
                language,
                compiler_path@,
                build_system,
                package_manager,
                test_framework,
                intellisense_mode@,
            ),
    {
        let test_framework = TestFramework::new(test_framework, directory.clone());

        ForgeConfig {
            directory: directory.clone(),
            project: ProjectConfig { name: name.clone(), language },
            tools: ToolsConfig {
                compiler_path,
                test_framework: test_framework.clone(),
                package_manager: PackageManager::new(
                    package_manager,
                    directory.clone(),
                    test_framework.clone(),
                    language,
                ),
                build_system: BuildSystem::new(
                    name.clone(),
                    build_system,
                    directory,
                    test_framework,
                    language,
                ),
                intellisense_mode,
            },
        }
    }

    /// A project made of parts that are there already.
    pub fn from_parts(directory: String, project: ProjectConfig, tools: ToolsConfig) -> (r:
        ForgeConfig)
        ensures
            r@.directory == directory@,
            r@.project == project@,
            r@.tools == tools@,
    {
        ForgeConfig { directory, project, tools }
    }

    /// The directory of the project.
    pub fn directory(&self) -> (r: &str)
        ensures
            r@ == self@.directory,
    {
        self.directory.as_str()
    }

    /// What the project is.
    pub fn project(&self) -> (r: &ProjectConfig)
        ensures
            r@ == self@.project,
    {
        &self.project
    }

    /// The tools of the project.
    pub fn tools(&self) -> (r: &ToolsConfig)
        ensures
            r@ == self@.tools,
    {
        &self.tools
    }

    /// The project that the text of a descriptor describes. The text has to
    /// be a TOML document that holds every field of a project; else the
    /// result is an error of reading TOML.
    pub fn from_file(contents: &str) -> (r: Result<ForgeConfig, Error>)
        ensures
            match toml_table(contents@) {
                Some(t) => match decoded_config(t) {
                    Some(config) => r matches Ok(c) && c@ == config,
                    None => r matches Err(e) && e@ is TomlDeError,
                },
                None => r matches Err(e) && e@ is TomlDeError,
            },
    {
        match read_table(contents) {
            Ok(t) => from_table(&t),
            Err(words) => Err(Error::TomlDeError(words)),
        }
    }

    /// The step that writes the descriptor, or an error of writing TOML
    /// where `rendered` holds the words of a writer that gave up.
    pub fn descriptor_written(&self, rendered: Result<String, String>) -> (r: Result<
        Vec<Step>,
        Error,
    >)
        ensures
            planned(r) == self@.descriptor_outcome(crate::text::rendered(rendered)),
    {
        match rendered {
            Ok(text) => {
                let mut plan = no_steps();
                push_step(
                    &mut plan,
                    write_file(below(self.directory.as_str(), "Forge.toml"), text),
                );
                Ok(plan)
            },
            Err(words) => Err(Error::TomlSerError(words)),
        }
    }

    /// The step that writes the descriptor of this project into its
    /// directory: the text that `toml` writes for a table that holds the
    /// project. An error of writing TOML, with the writer's words, where
    /// `toml` gives up on that table.
    pub fn to_file(&self) -> (r: Result<Vec<Step>, Error>)
        ensures
            writes_descriptor(planned(r), self@),
    {
        let t = to_table(self);
        self.descriptor_written(write_table(&t))
    }

    /// The steps that set the project up, where the editor's settings and
    /// the descriptor were rendered already. Where the first could not be
    /// rendered the result is a serde error, else where the second could not,
    /// an error of writing TOML.
    pub fn init_from(
        &self,
        settings: Result<String, String>,
        descriptor: Result<String, String>,
    ) -> (r: Result<Vec<Step>, Error>)
        ensures
            planned(r) == self@.init_outcome(rendered(settings), rendered(descriptor)),
    {
        let scaffolder = Scaffolder::new(
            self.project.name.clone(),
            self.directory.clone(),
            self.project.language,
        );
        let mut tools = self.tools.package_manager.init();
        push_steps(&mut tools, self.tools.package_manager.config());
        let (searches, work) = split(tools);
        let mut plan = searches;
        match scaffolder.build_from(settings) {
            Ok(steps) => push_steps(&mut plan, steps),
            Err(e) => {
                return Err(e);
            },
        }
        push_steps(&mut plan, work);
        push_steps(&mut plan, self.tools.build_system.init());
        match self.descriptor_written(descriptor) {
            Ok(steps) => push_steps(&mut plan, steps),
            Err(e) => {
                return Err(e);
            },
        }
        Ok(plan)
    }

    /// The steps that set the project up, in this order: the searches for
    /// the tools of the package manager, the layout, the package manager's
    /// setup and its installation of the test framework, the build system's
    /// description, and last the descriptor. An error, with the writer's
    /// words, where the editor's settings or the descriptor cannot be
    /// rendered.
    pub fn init(&self) -> (r: Result<Vec<Step>, Error>)
        ensures
            sets_up(planned(r), self@),
    {
        let settings = json_pretty(&vscode_settings(self.project.name.as_str()));
        let t = to_table(self);
        self.init_from(settings, write_table(&t))
    }

    /// The steps that clean the project's directory of build results. The
    /// descriptor and the sources are not touched.
    pub fn clean(&self) -> (r: Vec<Step>)
        ensures
            r.deep_view() == clean_plan(self@.directory),
    {
        let dir = self.directory.as_str();
        let mut plan = no_steps();
        push_step(&mut plan, Self::probe(dir, ".cache", 1));
        push_step(
            &mut plan,
            Step {
                action: Action::RemoveTree { path: below(dir, ".cache") },
                on_fault: OnFault::Io,
                on_exit: OnExit::Ignore,
            },
        );
        push_step(&mut plan, Self::probe(dir, "build", 2));
        push_step(
            &mut plan,
            Step {
                action: Action::RemoveTree { path: below(dir, "build") },
                on_fault: OnFault::Io,
                on_exit: OnExit::Ignore,
            },
        );
        push_step(
            &mut plan,
            Step {
                action: Action::MakeDir { path: below(dir, "build") },
                on_fault: OnFault::Io,
                on_exit: OnExit::Ignore,
            },
        );
        plan
    }

    fn probe(dir: &str, name: &str, skip: usize) -> (r: Step)
        ensures
            r@ == probe_step(dir@, name@, skip as nat),
    {
        Step {
            action: Action::Probe { path: below(dir, name) },
            on_fault: OnFault::Io,
            on_exit: OnExit::Skip(skip),
        }
    }

    /// The steps that configure the build of the project.
    pub fn configure_builder(&self, compile_commands: bool, flags: &Vec<String>) -> (r: Vec<Step>)
        ensures
            r.deep_view() == self@.tools.build_system.configure_plan(
                compile_commands,
                flags.deep_view(),
            ),
    {
        self.tools.build_system.configure(compile_commands, flags)
    }

    /// The steps that build the project.
    pub fn build(&self, flags: Option<&Vec<String>>) -> (r: Vec<Step>)
        ensures
            r.deep_view() == self@.tools.build_system.build_plan(flags_view(flags)),
    {
        self.tools.build_system.build(flags)
    }

    /// The step that runs the program of the project.
    pub fn run(&self) -> (r: Vec<Step>)
        ensures
            r.deep_view() == self@.run_plan(),
    {
        let bin = glue2("./build/bin/", self.project.name.as_str());
        let mut plan = no_steps();
        push_step(
            &mut plan,
            launch(
                bin.as_str(),
                no_texts(),
                self.directory.as_str(),
                OnExit::WarnStatus("Failed: ".to_string()),
            ),
        );
        plan
    }

    /// The step that runs the tests of the project, with `flags` if there are any.
    pub fn test(&self, flags: Option<&Vec<String>>) -> (r: Vec<Step>)
        ensures
            r.deep_view() == self@.test_plan(flags_view(flags)),
    {
        let mut args = no_texts();
        push_text(&mut args, "--test-dir");
        push_text(&mut args, "build");
        if let Some(f) = flags {
            push_all(&mut args, f);
        }
        assert(args.deep_view() =~= match flags_view(flags) {
            Some(given) => seq!["--test-dir"@, "build"@] + given,
            None => seq!["--test-dir"@, "build"@],
        });
        let mut plan = no_steps();
        push_step(
            &mut plan,
            launch(
                "ctest",
                args,
                self.directory.as_str(),
                OnExit::WarnStatus("Failed: ".to_string()),
            ),
        );
        plan
    }
}

/// Setting a project up looks for every tool before it changes anything:
/// the plan begins with all its searches, and no step after them is one.
pub proof fn lemma_init_searches_first(
    config: ForgeConfigView,
    settings: Seq<char>,
    descriptor: Seq<char>,
)
    ensures
        forall|i: int|
            0 <= i < config.init_plan(settings, descriptor).len() ==> ((
            #[trigger] config.init_plan(settings, descriptor)[i]).action is Require <==> i
                < searches_of(config.tool_plan()).len()),
{
    let first = searches_of(config.tool_plan());
    let layout = config.scaffolder().build_plan(settings);
    let rest = work_of(config.tool_plan());
    let described = config.tools.build_system.init_plan();
    let plan = config.init_plan(settings, descriptor);
    lemma_split_sorts(config.tool_plan());
    lemma_layout_searches_nothing(config.scaffolder(), settings);
    assert forall|i: int| 0 <= i < plan.len() implies ((#[trigger] plan[i]).action is Require
        <==> i < first.len()) by {
        if i < first.len() {
            assert(plan[i] == first[i]);
        } else if i < first.len() + layout.len() {
            assert(plan[i] == layout[i - first.len()]);
        } else if i < first.len() + layout.len() + rest.len() {
            assert(plan[i] == rest[i - first.len() - layout.len()]);
        } else if i < first.len() + layout.len() + rest.len() + described.len() {
            assert(plan[i] == described[i - first.len() - layout.len() - rest.len()]);
        } else {
            assert(plan[i] == descriptor_plan(config.directory, descriptor)[0]);
        }
    }
}

/// In a project that uses vcpkg, the first step of setting it up is the
/// search for vcpkg: where vcpkg is missing, nothing was changed before
/// that is found out.
pub proof fn lemma_init_begins_with_vcpkg(
    config: ForgeConfigView,
    settings: Seq<char>,
    descriptor: Seq<char>,
)
    requires
        config.tools.package_manager.variant == PackageManagers::Vcpkg,
    ensures
        config.init_plan(settings, descriptor)[0].action == (ActionView::Require {
            tool: "vcpkg"@,
        }),
{
    let tools = config.tool_plan();
    assert(tools.len() == 5);
    assert(tools[0].action == (ActionView::Require { tool: "vcpkg"@ }));
    lemma_first_search(tools);
}

/// In a project that uses vcpkg, whatever its test framework is, setting the
/// project up asks for the port of that framework to be added to the
/// manifest in the framework's directory.
pub proof fn lemma_init_adds_port(config: ForgeConfigView, settings: Seq<char>, descriptor: Seq<char>)
    requires
        config.tools.package_manager.variant == PackageManagers::Vcpkg,
    ensures
        exists|i: int|
            0 <= i < config.init_plan(settings, descriptor).len() && (
            #[trigger] config.init_plan(settings, descriptor)[i]).action == add_port_action(
                config.tools.package_manager.test_framework.dir,
                config.tools.package_manager.test_framework.variant.port(),
            ),
{
    let manager = config.tools.package_manager;
    lemma_port_is_added(manager.directory, manager.test_framework);
    let tools = config.tool_plan();
    assert(tools[3] == manager.config_plan()[1]);
    lemma_work_keeps(tools, 3);
    let j = choose|j: int| 0 <= j < work_of(tools).len() && #[trigger] work_of(tools)[j] == tools[3];
    let before = searches_of(tools).len() + config.scaffolder().build_plan(settings).len();
    let plan = config.init_plan(settings, descriptor);
    assert(plan[before + j] == work_of(tools)[j]);
}

/// Whatever the language of a project is, what is set up fits together:
/// the scaffolder writes the program's source to `src/main` with the
/// language's ending; the `CMakeLists.txt` builds the program of the
/// project's name from that very file and puts it into `bin` below the
/// build directory; and `run` starts the program of that name from there,
/// in the project's directory.
pub proof fn lemma_program_is_built_from_its_source(config: ForgeConfigView)
    ensures
        sources_plan(config.directory, config.project.language)[2].action is WriteFile,
        sources_plan(config.directory, config.project.language)[2].action->WriteFile_path == seq![
            config.directory,
            "src"@,
            "main."@ + config.project.language.source_ending(),
        ],
        cmake_lines(
            config.project.name,
            config.project.language,
            config.tools.test_framework.variant,
        )[9] == "add_executable("@ + config.project.name + " src/main."@
            + config.project.language.source_ending() + ")"@,
        cmake_lines(
            config.project.name,
            config.project.language,
            config.tools.test_framework.variant,
        )[20] == "    RUNTIME_OUTPUT_DIRECTORY \"${CMAKE_BINARY_DIR}/bin\""@,
        config.run_plan()[0].action == (ActionView::Run {
            program: "./build/bin/"@ + config.project.name,
            args: Seq::empty(),
            dir: config.directory,
        }),
{
    reveal_strlit("main.");
    reveal_strlit("c");
    reveal_strlit("cpp");
    reveal_strlit("main.c");
    reveal_strlit("main.cpp");
    assert("main.c"@ =~= "main."@ + "c"@);
    assert("main.cpp"@ =~= "main."@ + "cpp"@);
}

/// Cleaning touches the cache directory and the build directory of the
/// project and nothing else: neither the descriptor nor the
/// `CMakeLists.txt` nor a source. A build directory that was there is there
/// again afterwards, empty: where every step succeeds it is removed and
/// then created.
pub proof fn lemma_clean_touches_build_results_only(dir: Seq<char>)
    ensures
        forall|i: int|
            0 <= i < clean_plan(dir).len() ==> match (#[trigger] clean_plan(dir)[i]).action {
                ActionView::Probe { path } => path == seq![dir, ".cache"@] || path == seq![
                    dir,
                    "build"@,
                ],
                ActionView::RemoveTree { path } => path == seq![dir, ".cache"@] || path == seq![
                    dir,
                    "build"@,
                ],
                ActionView::MakeDir { path } => path == seq![dir, "build"@],
                _ => false,
            },
        run(
            clean_plan(dir),
            2,
            seq![OutcomeView::Done, OutcomeView::Done, OutcomeView::Done],
        ).performed == seq![
            clean_plan(dir)[2].action,
            remove_step(dir, "build"@).action,
            create_step(dir, "build"@).action,
        ],
{
    let plan = clean_plan(dir);
    let all = seq![OutcomeView::Done, OutcomeView::Done, OutcomeView::Done];
    lemma_smooth_run(plan, 2, all);
}

} // verus!
