use forge_lib::build_system::{BuildSystem, BuildSystems, CMakeBuilder, MakeBuilder, MesonBuilder};
use forge_lib::language::{CStandard, CppStandard, Language};
use forge_lib::plan::{Action, OnExit, OnFault, Outcome, Runner, Step};
use forge_lib::test_framework::{TestFramework, TestFrameworks};

fn texts(items: &[&str]) -> Vec<String> {
    items.iter().map(|s| s.to_string()).collect()
}

fn dummy(variant: BuildSystems) -> BuildSystem {
    let path = "/work/dummy".to_string();
    let test_framework = TestFramework::new(TestFrameworks::CMocka, path.clone());
    BuildSystem::new(
        "dummy".to_string(),
        variant,
        path,
        test_framework,
        Language::C(CStandard::C89),
    )
}

fn cmake_lists_of_dummy() -> String {
    [
        "# General\n",
        "cmake_minimum_required(VERSION 3.14)\n",
        "project(dummy VERSION 1.0 LANGUAGES C)\n",
        "\n",
        "set(CMAKE_C_STANDARD 89)\n",
        "set(CMAKE_C_STANDARD_REQUIRED ON)\n",
        "\n",
        "# Library\n",
        "add_library(dummyLib src/lib.c)\n",
        "target_include_directories(dummyLib PUBLIC include/ libs/)\n",
        "\n",
        "# Binary\n",
        "add_executable(dummy src/main.c)\n",
        "target_link_libraries(dummy PRIVATE dummyLib)\n",
        "\n",
        "# Testing\n",
        "enable_testing()\n",
        "find_package(CMocka REQUIRED)\n",
        "\n",
        "add_executable(dummyTests test/test_lib.c test/test_main.c )\n",
        "target_link_libraries(dummyTests PRIVATE\n",
        "                cmocka::cmocka\n",
        "                dummyLib\n",
        "            )\n",
        "target_include_directories(dummyTests PRIVATE \n",
        "                include/ \n",
        "                src/\n",
        "            )\n",
        "add_test(NAME dummyTests COMMAND dummyTests)\n",
        "\n",
        "# Compiled output file\n",
        "set_target_properties(dummy PROPERTIES\n",
        "    RUNTIME_OUTPUT_DIRECTORY \"${CMAKE_BINARY_DIR}/bin\"\n",
        ")",
    ]
    .concat()
}

#[test]
fn test_cmake_builder_init() {
    let build_system = dummy(BuildSystems::CMake);
    let plan = build_system.init();

    assert_eq!(
        plan,
        vec![Step {
            action: Action::WriteFile {
                path: texts(&["/work/dummy", "CMakeLists.txt"]),
                content: cmake_lists_of_dummy(),
            },
            on_fault: OnFault::Io,
            on_exit: OnExit::Ignore,
        }]
    );
}

#[test]
fn cmake_lists_of_a_cpp_project() {
    let framework = TestFramework::new(TestFrameworks::GTest, "app".to_string());
    let content = CMakeBuilder::contents("app", &Language::Cpp(CppStandard::Cpp20), &framework);
    assert!(content.starts_with(
        "# General\ncmake_minimum_required(VERSION 3.14)\nproject(app VERSION 1.0 LANGUAGES CXX)\n\nset(CMAKE_CXX_STANDARD 20)\nset(CMAKE_CXX_STANDARD_REQUIRED ON)\n\n"
    ));
    assert!(content.contains("add_library(appLib src/lib.cpp)\n"));
    assert!(content.contains("add_executable(app src/main.cpp)\n"));
    assert!(content.contains("find_package(GTest REQUIRED)\n\n"));
    assert!(content.contains("add_executable(appTests test/test_lib.cpp test/test_main.cpp )\n"));
    assert!(content.contains(
        "target_link_libraries(appTests PRIVATE\n                GTest::gtest GTest::gtest_main\n                appLib\n            )\n"
    ));
    assert!(content.ends_with(
        "set_target_properties(app PROPERTIES\n    RUNTIME_OUTPUT_DIRECTORY \"${CMAKE_BINARY_DIR}/bin\"\n)"
    ));
}

#[test]
fn test_cmake_builder_configure_default() {
    let build_system = dummy(BuildSystems::CMake);
    let flags = vec!["".to_string()];
    let plan = build_system.configure(true, &flags);

    assert_eq!(
        plan,
        vec![
            Step {
                action: Action::Run {
                    program: "cmake".to_string(),
                    args: texts(&[
                        "-S",
                        ".",
                        "-B",
                        "build",
                        "-DCMAKE_EXPORT_COMPILE_COMMANDS=ON",
                        ""
                    ]),
                    dir: "/work/dummy".to_string(),
                },
                on_fault: OnFault::Io,
                on_exit: OnExit::Finish,
            },
            Step {
                action: Action::Run {
                    program: "ln".to_string(),
                    args: texts(&["-sf", "build/compile_commands.json", "compile_commands.json"]),
                    dir: "/work/dummy".to_string(),
                },
                on_fault: OnFault::Warn(
                    "Failed to create symlink for the compile_commands.json".to_string()
                ),
                on_exit: OnExit::Warn(
                    "Failed to create symlink for the compile_commands.json".to_string()
                ),
            },
        ]
    );
}

#[test]
fn test_cmake_builder_configure_no_compile_cmds() {
    let build_system = dummy(BuildSystems::CMake);
    let flags = vec!["".to_string()];
    let plan = build_system.configure(false, &flags);

    assert_eq!(
        plan,
        vec![Step {
            action: Action::Run {
                program: "cmake".to_string(),
                args: texts(&["-S", ".", "-B", "build", ""]),
                dir: "/work/dummy".to_string(),
            },
            on_fault: OnFault::Io,
            on_exit: OnExit::Ignore,
        }]
    );
    assert!(plan
        .iter()
        .all(|s| !matches!(&s.action, Action::Run { program, .. } if program == "ln")));
}

#[test]
fn the_database_is_linked_only_after_a_configuration_that_succeeded() {
    let flags = texts(&["-Wall", "-DDEBUG"]);

    let mut runner = Runner::new(CMakeBuilder::configure("p", true, &flags));
    assert!(matches!(runner.pending(), Some(Action::Run { program, .. }) if program == "cmake"));
    assert_eq!(runner.report(Outcome::Done), Ok(None));
    assert!(matches!(runner.pending(), Some(Action::Run { program, .. }) if program == "ln"));
    assert_eq!(
        runner.report(Outcome::Exit("exit status: 1".into())),
        Ok(Some("Failed to create symlink for the compile_commands.json".to_string()))
    );
    assert!(runner.pending().is_none());

    let mut runner = Runner::new(CMakeBuilder::configure("p", true, &flags));
    assert_eq!(runner.report(Outcome::Exit("exit status: 1".into())), Ok(None));
    assert!(runner.pending().is_none());
}

#[test]
fn a_link_that_cannot_be_made_is_only_a_warning() {
    let warning = Ok(Some("Failed to create symlink for the compile_commands.json".to_string()));

    let mut runner = Runner::new(CMakeBuilder::configure("p", true, &vec![]));
    assert_eq!(runner.report(Outcome::Done), Ok(None));
    assert_eq!(runner.report(Outcome::Fault("No such file or directory".into())), warning);
    assert!(runner.pending().is_none());

    let mut runner = Runner::new(CMakeBuilder::link_command_compiler("p"));
    assert_eq!(runner.report(Outcome::Exit("exit status: 1".into())), warning);
    assert!(runner.pending().is_none());

    let mut runner = Runner::new(CMakeBuilder::configure("p", true, &vec![]));
    assert_eq!(
        runner.report(Outcome::Fault("No such file or directory".into())),
        Err(forge_lib::Error::IoError("No such file or directory".into()))
    );
}

#[test]
fn test_cmake_builder_build() {
    let build_system = dummy(BuildSystems::CMake);
    let plan = build_system.build(None);

    assert_eq!(
        plan,
        vec![Step {
            action: Action::Run {
                program: "cmake".to_string(),
                args: texts(&["--build", "build"]),
                dir: "/work/dummy".to_string(),
            },
            on_fault: OnFault::Io,
            on_exit: OnExit::Warn("Compilation failed.".to_string()),
        }]
    );

    let flags = texts(&["--config", "Release"]);
    let plan = build_system.build(Some(&flags));
    match &plan[0].action {
        Action::Run { args, .. } => {
            assert_eq!(args, &texts(&["--build", "build", "--config", "Release"]))
        }
        other => panic!("unexpected action {:?}", other),
    }
}

#[test]
fn a_failed_build_is_a_warning_and_no_error() {
    let mut runner = Runner::new(CMakeBuilder::build("p", None));
    assert_eq!(
        runner.report(Outcome::Exit("exit status: 2".into())),
        Ok(Some("Compilation failed.".to_string()))
    );
    assert!(runner.pending().is_none());
}

#[test]
fn meson_and_make_do_nothing() {
    for variant in [BuildSystems::Meson, BuildSystems::Make] {
        let build_system = dummy(variant);
        assert!(build_system.init().is_empty());
        assert!(build_system.configure(true, &vec![]).is_empty());
        assert!(build_system.build(None).is_empty());
    }
    assert!(MesonBuilder::init().is_empty());
    assert!(MesonBuilder::configure().is_empty());
    assert!(MesonBuilder::build().is_empty());
    assert!(MakeBuilder::init().is_empty());
    assert!(MakeBuilder::configure().is_empty());
    assert!(MakeBuilder::build().is_empty());
}

#[test]
fn link_command_compiler_is_one_step() {
    let plan = CMakeBuilder::link_command_compiler("root");
    assert_eq!(plan.len(), 1);
    assert_eq!(
        plan[0].action,
        Action::Run {
            program: "ln".to_string(),
            args: texts(&["-sf", "build/compile_commands.json", "compile_commands.json"]),
            dir: "root".to_string(),
        }
    );
}

#[test]
fn the_parts_of_a_build_system_can_be_read() {
    let build_system = dummy(BuildSystems::CMake);
    assert_eq!(build_system.name(), "dummy");
    assert_eq!(build_system.variant(), BuildSystems::CMake);
    assert_eq!(build_system.directory(), "/work/dummy");
    assert_eq!(build_system.language(), Language::C(CStandard::C89));
    assert_eq!(build_system.test_framework().variant(), TestFrameworks::CMocka);
    assert_eq!(build_system.test_framework().dir(), "/work/dummy");
}
