use forge_lib::build_system::BuildSystems;
use forge_lib::cli::building::BuildArgs;
use forge_lib::cli::clean::CleanArgs;
use forge_lib::cli::config::ConfigArgs;
use forge_lib::cli::init::InitArgs;
use forge_lib::cli::new::NewArgs;
use forge_lib::cli::prompter::{ask, Answers, MockPrompter, Prompter};
use forge_lib::cli::run::RunArgs;
use forge_lib::cli::testing::{ctest_help, help_entries, TestArgs};
use forge_lib::cli::{load, Cli, Commands, Place};
use forge_lib::config::ForgeConfig;
use forge_lib::language::{CStandard, CppStandard, Language};
use forge_lib::package_manager::PackageManagers;
use forge_lib::plan::{Action, OnExit, OnFault, Step};
use forge_lib::test_framework::TestFrameworks;
use forge_lib::Error;

fn texts(items: &[&str]) -> Vec<String> {
    items.iter().map(|s| s.to_string()).collect()
}

fn written<'a>(plan: &'a [Step], path: &[&str]) -> Option<&'a str> {
    plan.iter().find_map(|s| match &s.action {
        Action::WriteFile { path: p, content } if p == &texts(path) => Some(content.as_str()),
        _ => None,
    })
}

fn runs(plan: &[Step], program: &str, args: &[&str], dir: &str) -> bool {
    plan.iter().any(|s| {
        s.action
            == Action::Run {
                program: program.to_string(),
                args: texts(args),
                dir: dir.to_string(),
            }
    })
}

fn dummy() -> ForgeConfig {
    ForgeConfig::new(
        "dummy".to_string(),
        "/work/dummy".to_string(),
        Language::C(CStandard::C99),
        "clang".to_string(),
        BuildSystems::CMake,
        PackageManagers::Vcpkg,
        TestFrameworks::CMocka,
        "intellisenseMode ".to_string(),
    )
}

fn descriptor_of(config: &ForgeConfig) -> String {
    match &config.to_file().unwrap()[0].action {
        Action::WriteFile { content, .. } => content.clone(),
        other => panic!("unexpected action {:?}", other),
    }
}

fn in_project() -> Place {
    Place {
        directory: "/work/dummy".to_string(),
        name: Some("dummy".to_string()),
        descriptor: Ok(descriptor_of(&dummy())),
    }
}

fn outside_a_project() -> Place {
    Place {
        directory: "/work".to_string(),
        name: Some("work".to_string()),
        descriptor: Err(Error::IoError("No such file or directory (os error 2)".to_string())),
    }
}

struct Stuck {}

impl Prompter for Stuck {
    fn select_language(&self) -> Result<Language, Error> {
        Ok(Language::Cpp(CppStandard::Cpp20))
    }
    fn select_compiler(&self) -> Result<String, Error> {
        Ok("g++".to_string())
    }
    fn select_test_framework(&self) -> Result<TestFrameworks, Error> {
        Err(Error::InguireError("Operation was interrupted by the user".to_string()))
    }
    fn select_build_system(&self) -> Result<BuildSystems, Error> {
        panic!("asked after an answer failed")
    }
    fn select_package_manager(&self) -> Result<PackageManagers, Error> {
        panic!("asked after an answer failed")
    }
}

#[test]
fn new_test_process_command() {
    let name = "dummy";
    let path = "/work/dummy";

    let args = NewArgs { name: name.to_string() };
    let plan = args.process_command(path.to_string(), &MockPrompter {}).unwrap();

    assert!(written(&plan, &[path, "CMakeLists.txt"]).is_some());
    assert!(written(&plan, &[path, ".gitignore"]).is_some());
    assert!(runs(&plan, "git", &["init"], path));
    assert!(written(&plan, &[path, "include", "lib.h"]).is_some());
    assert!(written(&plan, &[path, "src", "lib.c"]).is_some());
    assert!(written(&plan, &[path, "src", "main.c"]).is_some());
    assert!(written(&plan, &[path, "test", "test_lib.c"]).is_some());
    assert!(written(&plan, &[path, "test", "test_main.c"]).is_some());
    assert!(written(&plan, &[path, ".vscode", "c_cpp_properties.json"]).is_some());
    assert!(runs(&plan, "vcpkg", &["add", "port", "cmocka"], path));
    assert!(runs(&plan, "vcpkg", &["install"], path));

    assert_eq!(plan, dummy().init().unwrap());
    assert_eq!(
        ForgeConfig::from_file(written(&plan, &[path, "Forge.toml"]).unwrap()),
        Ok(dummy())
    );
}

#[test]
fn init_test_process_command() {
    let args = InitArgs {};
    let plan = args
        .process_command("/work/dummy".to_string(), Some("dummy".to_string()), &MockPrompter {})
        .unwrap();
    let config =
        ForgeConfig::from_file(written(&plan, &["/work/dummy", "Forge.toml"]).unwrap()).unwrap();
    assert_eq!(config.project().name(), "dummy");
    assert_eq!(config.directory(), "/work/dummy");
    assert_eq!(config.project().language(), Language::C(CStandard::C99));
    assert_eq!(config.tools().compiler_path(), "clang");
    assert_eq!(config.tools().intellisense_mode(), "intellisenseMode ");
    assert_eq!(config.tools().test_framework().variant(), TestFrameworks::CMocka);

    let plan = args.process_command("/".to_string(), None, &MockPrompter {}).unwrap();
    let config = ForgeConfig::from_file(written(&plan, &["/", "Forge.toml"]).unwrap()).unwrap();
    assert_eq!(config.project().name(), "default");
    assert!(written(&plan, &["/", "CMakeLists.txt"])
        .unwrap()
        .contains("project(default VERSION 1.0 LANGUAGES C)"));
}

#[test]
fn the_first_answer_that_fails_ends_the_command() {
    let failed = Err(Error::InguireError("Operation was interrupted by the user".to_string()));
    assert_eq!(NewArgs { name: "p".to_string() }.process_command("d".to_string(), &Stuck {}), failed);
    assert_eq!(InitArgs {}.process_command("d".to_string(), None, &Stuck {}), failed);
    let cli = Cli { command: Commands::New(NewArgs { name: "p".to_string() }) };
    assert_eq!(cli.command.process_command(&outside_a_project(), &Stuck {}), failed);
}

#[test]
fn asking_gives_the_five_answers_or_the_first_error() {
    assert_eq!(
        ask(&MockPrompter {}),
        Ok(Answers {
            language: Language::C(CStandard::C99),
            compiler: "clang".to_string(),
            test_framework: TestFrameworks::CMocka,
            build_system: BuildSystems::CMake,
            package_manager: PackageManagers::Vcpkg,
        })
    );
    assert_eq!(
        ask(&Stuck {}),
        Err(Error::InguireError("Operation was interrupted by the user".to_string()))
    );
}

#[test]
fn answers_decide_the_project_that_is_set_up() {
    let answers = || Answers {
        language: Language::Cpp(CppStandard::Cpp20),
        compiler: "g++".to_string(),
        test_framework: TestFrameworks::GTest,
        build_system: BuildSystems::CMake,
        package_manager: PackageManagers::Conan,
    };
    let plan = NewArgs { name: "app".to_string() }.answered("/w/app".to_string(), answers()).unwrap();
    let config = ForgeConfig::from_file(written(&plan, &["/w/app", "Forge.toml"]).unwrap()).unwrap();
    assert_eq!(
        config,
        ForgeConfig::new(
            "app".to_string(),
            "/w/app".to_string(),
            Language::Cpp(CppStandard::Cpp20),
            "g++".to_string(),
            BuildSystems::CMake,
            PackageManagers::Conan,
            TestFrameworks::GTest,
            "intellisenseMode ".to_string(),
        )
    );
    assert_eq!(plan, config.init().unwrap());

    let plan = InitArgs {}.answered("/w/app".to_string(), Some("app".to_string()), answers()).unwrap();
    assert_eq!(plan, config.init().unwrap());
    let plan = InitArgs {}.answered("/w".to_string(), None, answers()).unwrap();
    assert!(written(&plan, &["/w", "CMakeLists.txt"])
        .unwrap()
        .contains("project(default VERSION 1.0 LANGUAGES CXX)"));
}

#[test]
fn white_space_is_what_the_standard_library_takes_for_it() {
    for n in 0..=0x10FFFFu32 {
        if let Some(c) = char::from_u32(n) {
            assert_eq!(forge_lib::blank::blank(c), c.is_whitespace(), "U+{:04X}", n);
        }
    }
}

#[test]
fn the_mock_prompter_answers() {
    let prompter = MockPrompter {};
    assert_eq!(prompter.select_language(), Ok(Language::C(CStandard::C99)));
    assert_eq!(prompter.select_compiler(), Ok("clang".to_string()));
    assert_eq!(prompter.select_test_framework(), Ok(TestFrameworks::CMocka));
    assert_eq!(prompter.select_build_system(), Ok(BuildSystems::CMake));
    assert_eq!(prompter.select_package_manager(), Ok(PackageManagers::Vcpkg));
}

#[test]
fn config_test_process_command() {
    let config_args = ConfigArgs { compile_commands: None, extra: vec!["".to_string()] };
    let plan = config_args.process_command(&dummy());

    assert!(runs(
        &plan,
        "cmake",
        &["-S", ".", "-B", "build", "-DCMAKE_EXPORT_COMPILE_COMMANDS=ON", ""],
        "/work/dummy"
    ));
    assert!(runs(
        &plan,
        "ln",
        &["-sf", "build/compile_commands.json", "compile_commands.json"],
        "/work/dummy"
    ));

    let yes = ConfigArgs { compile_commands: Some(true), extra: vec!["".to_string()] };
    assert_eq!(yes.process_command(&dummy()), plan);
    let no = ConfigArgs { compile_commands: Some(false), extra: vec![] };
    assert_eq!(no.process_command(&dummy()), dummy().configure_builder(false, &vec![]));
    assert_eq!(no.process_command(&dummy()).len(), 1);
}

#[test]
fn build_test_process_command() {
    let build_args = BuildArgs { options: None };
    let plan = build_args.process_command(&dummy());
    assert_eq!(plan, dummy().build(None));
    assert!(runs(&plan, "cmake", &["--build", "build"], "/work/dummy"));

    let flags = texts(&["-j", "4"]);
    let build_args = BuildArgs { options: Some(flags.clone()) };
    assert!(runs(
        &build_args.process_command(&dummy()),
        "cmake",
        &["--build", "build", "-j", "4"],
        "/work/dummy"
    ));
}

#[test]
fn clean_test_process_command() {
    let clean_args = CleanArgs {};
    let plan = clean_args.process_command(&dummy());
    assert_eq!(plan, dummy().clean());
    assert_eq!(plan.len(), 5);
}

#[test]
fn test_build_debug() {
    let run_args = RunArgs { release: false, verbose: false };
    let plan = run_args.process_command(&dummy());
    assert_eq!(plan.len(), 2);
    assert!(runs(&plan[..1], "cmake", &["--build", "build"], "/work/dummy"));
    assert!(runs(&plan[1..], "./build/bin/dummy", &[], "/work/dummy"));
}

#[test]
fn testing_test_process_command() {
    let test_args = TestArgs { help: false, options: None };
    let plan = test_args.process_command(&dummy());
    assert_eq!(plan, dummy().test(None));
    assert!(runs(&plan, "ctest", &["--test-dir", "build"], "/work/dummy"));

    let test_args = TestArgs { help: false, options: Some(texts(&["--verbose"])) };
    assert!(runs(
        &test_args.process_command(&dummy()),
        "ctest",
        &["--test-dir", "build", "--verbose"],
        "/work/dummy"
    ));

    let test_args = TestArgs { help: true, options: Some(texts(&["--verbose"])) };
    let usage = vec![Step {
        action: Action::Usage { program: "ctest".to_string(), args: texts(&["--help"]) },
        on_fault: OnFault::Io,
        on_exit: OnExit::Ignore,
    }];
    assert_eq!(test_args.process_command(&dummy()), usage);
    assert_eq!(TestArgs::usage(), usage);
}

#[test]
fn commands_work_on_the_project_of_the_descriptor() {
    let prompter = MockPrompter {};
    let place = in_project();
    assert_eq!(load(&place), Ok(dummy()));

    let command = Commands::Config(ConfigArgs { compile_commands: Some(false), extra: vec![] });
    assert_eq!(
        command.process_command(&place, &prompter),
        Ok(dummy().configure_builder(false, &vec![]))
    );
    let command = Commands::Build(BuildArgs { options: None });
    assert_eq!(command.process_command(&place, &prompter), Ok(dummy().build(None)));
    let command = Commands::Clean(CleanArgs {});
    assert_eq!(command.process_command(&place, &prompter), Ok(dummy().clean()));
    let command = Commands::Test(TestArgs { help: false, options: None });
    assert_eq!(command.process_command(&place, &prompter), Ok(dummy().test(None)));
    let command = Commands::Run(RunArgs { release: true, verbose: true });
    assert_eq!(
        command.process_command(&place, &prompter).map(|p| p.len()),
        Ok(2)
    );
}

#[test]
fn commands_fail_without_a_descriptor() {
    let prompter = MockPrompter {};
    let place = outside_a_project();
    let missing = Err(Error::IoError("No such file or directory (os error 2)".to_string()));
    assert_eq!(load(&place).map(|_| ()), missing.clone().map(|_: Vec<Step>| ()));

    let commands = [
        Commands::Config(ConfigArgs { compile_commands: None, extra: vec![] }),
        Commands::Build(BuildArgs { options: None }),
        Commands::Clean(CleanArgs {}),
        Commands::Test(TestArgs { help: false, options: None }),
        Commands::Run(RunArgs { release: false, verbose: false }),
    ];
    for command in commands {
        assert_eq!(command.process_command(&place, &prompter), missing);
    }

    let broken = Place {
        directory: "/work".to_string(),
        name: None,
        descriptor: Ok("directory = \"/work\"".to_string()),
    };
    let command = Commands::Build(BuildArgs { options: None });
    assert!(matches!(
        command.process_command(&broken, &prompter),
        Err(Error::TomlDeError(_))
    ));
}

#[test]
fn help_and_new_projects_need_no_descriptor() {
    let prompter = MockPrompter {};
    let place = outside_a_project();

    let command = Commands::Test(TestArgs { help: true, options: None });
    assert_eq!(command.process_command(&place, &prompter), Ok(TestArgs::usage()));

    let command = Commands::Init(InitArgs {});
    let plan = command.process_command(&place, &prompter).unwrap();
    assert!(written(&plan, &["/work", "Forge.toml"]).is_some());
    assert!(written(&plan, &["/work", "CMakeLists.txt"])
        .unwrap()
        .contains("project(work VERSION 1.0 LANGUAGES C)"));

    let place = Place {
        directory: "/work/fresh".to_string(),
        name: Some("work".to_string()),
        descriptor: Err(Error::IoError("No such file or directory (os error 2)".to_string())),
    };
    let command = Commands::New(NewArgs { name: "fresh".to_string() });
    let plan = command.process_command(&place, &prompter).unwrap();
    assert!(written(&plan, &["/work/fresh", "CMakeLists.txt"])
        .unwrap()
        .contains("project(fresh VERSION 1.0 LANGUAGES C)"));
}

const CTEST_HELP: &str = "Usage

  ctest [options]

Options
  --preset <preset>, --preset=<preset>
                               = Read arguments from a test preset.
  --list-presets               = List available test presets.\r
  -C <cfg>, --build-config <cfg>
                               = Choose configuration to test.
  -V,--verbose                 = Enable verbose output from tests.
  --output-on-failure          = Output anything outputted by the test program
                                 if the test should fail.

  --a-very-long-option-name-that-leaves-no-room = Described.
  -j [<level>], --parallel [<level>]= Run tests in parallel.
\t
Generators
  not an option
  --\u{fc}\u{a0}= Options
  Options
  = =  = more
  -last";

fn pair(option: &str, description: &str) -> (String, String) {
    (option.to_string(), description.to_string())
}

#[test]
fn the_options_of_the_help_are_listed() {
    assert_eq!(
        help_entries(CTEST_HELP),
        vec![
            pair("--preset <preset>, --preset=<preset>", ""),
            pair("", "Read arguments from a test preset."),
            pair("--list-presets", "List available test presets."),
            pair("-C <cfg>, --build-config <cfg>", ""),
            pair("", "Choose configuration to test."),
            pair("-V,--verbose", "Enable verbose output from tests."),
            pair("--output-on-failure", "Output anything outputted by the test program"),
            pair("", "if the test should fail."),
            pair("--a-very-long-option-name-that-leaves-no-room", "Described."),
            pair("-j [<level>], --parallel [<level>]", "Run tests in parallel."),
            pair("--\u{fc}", "Options"),
            pair("", "Options"),
            pair("", "=  = more"),
            pair("-last", ""),
        ]
    );
}

#[test]
fn nothing_is_listed_before_the_heading() {
    assert_eq!(help_entries(""), vec![]);
    assert_eq!(help_entries("\n\n"), vec![]);
    assert_eq!(help_entries("  -a = b\n--c\n"), vec![]);
    assert_eq!(help_entries("Options:\n -a = b"), vec![]);
    assert_eq!(help_entries("  Options \n -a = b"), vec![pair("-a", "b")]);
    assert_eq!(help_entries("Options\ntext\n-a = b = c\nOptions"), vec![
        pair("-a = b", "c"),
        pair("", "Options"),
    ]);
    assert_eq!(help_entries("Options\n-a=\n-b= \n-c ="), vec![
        pair("-a=", ""),
        pair("-b=", ""),
        pair("-c =", ""),
    ]);
    assert_eq!(help_entries("Options\n-a =  b  \n\nmore\n- = = x"), vec![
        pair("-a", "b"),
        pair("- =", "x"),
    ]);
}

fn row(option: &str, gap: usize, description: &str) -> String {
    format!("  \x1b[36m{}\x1b[0m{}{}\n", option, " ".repeat(gap), description)
}

#[test]
fn test_ctest_display() {
    let expected = [
        "\x1b[32mUsage:\x1b[0m \x1b[36mforge test -- [OPTIONS]\x1b[0m\n\n".to_string(),
        "\x1b[1;32mOptions:\x1b[0m\n".to_string(),
        row("--preset <preset>, --preset=<preset>", 1, ""),
        row("", 32, "Read arguments from a test preset."),
        row("--list-presets", 18, "List available test presets."),
        row("-C <cfg>, --build-config <cfg>", 2, ""),
        row("", 32, "Choose configuration to test."),
        row("-V,--verbose", 20, "Enable verbose output from tests."),
        row("--output-on-failure", 13, "Output anything outputted by the test program"),
        row("", 32, "if the test should fail."),
        row("--a-very-long-option-name-that-leaves-no-room", 1, "Described."),
        row("-j [<level>], --parallel [<level>]", 1, "Run tests in parallel."),
        row("--\u{fc}", 28, "Options"),
        row("", 32, "Options"),
        row("", 32, "=  = more"),
        row("-last", 27, ""),
    ]
    .concat();
    assert_eq!(ctest_help(CTEST_HELP), expected);
}

#[test]
fn the_gap_fills_up_to_thirty_two_bytes() {
    let head = "\x1b[32mUsage:\x1b[0m \x1b[36mforge test -- [OPTIONS]\x1b[0m\n\n\x1b[1;32mOptions:\x1b[0m\n";
    assert_eq!(ctest_help("no options here"), head);
    let exact = "--exactly-thirty-two-bytes-long-";
    assert_eq!(exact.len(), 32);
    assert_eq!(
        ctest_help(&format!("Options\n{} = d", exact)),
        format!("{}{}", head, row(exact, 0, "d"))
    );
    let longer = "--exactly-thirty-two-bytes-long-x";
    assert_eq!(
        ctest_help(&format!("Options\n{} = d", longer)),
        format!("{}{}", head, row(longer, 1, "d"))
    );
    assert_eq!(
        ctest_help("Options\n-x = d"),
        format!("{}{}", head, "  \x1b[36m-x\x1b[0m                              d\n")
    );
}
