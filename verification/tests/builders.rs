use forge_lib::builder::cmake::CMakeBuilder;
use forge_lib::builder::{BuildSystem, BuildSystemEnum, TestFrameworkEnum};
use forge_lib::package::{ConanManager, PackageManager, PackageManagerEnum, VcpkgManager};
use forge_lib::plan::{Action, OnExit, OnFault, Outcome, Runner, Step};
use forge_lib::{execute_cmd, Error};

fn shell(command: &str) -> Step {
    Step {
        action: Action::Shell { command: command.to_string() },
        on_fault: OnFault::Io,
        on_exit: OnExit::Abort(Error::CustomError(format!("Command failed: {}", command))),
    }
}

#[test]
fn execute_cmd_fails_where_the_command_does() {
    let plan = execute_cmd("cd x && make");
    assert_eq!(plan, vec![shell("cd x && make")]);

    let mut runner = Runner::new(execute_cmd("false"));
    assert_eq!(
        runner.report(Outcome::Exit("exit status: 1".into())),
        Err(Error::CustomError("Command failed: false".into()))
    );
    let mut runner = Runner::new(execute_cmd("false"));
    assert_eq!(
        runner.report(Outcome::Fault("No such file".into())),
        Err(Error::IoError("No such file".into()))
    );
    let mut runner = Runner::new(execute_cmd("true"));
    assert_eq!(runner.report(Outcome::Done), Ok(None));
    assert!(runner.pending().is_none());
}

#[test]
fn names_of_the_enums_are_read_strictly() {
    let not_found = Error::ParseError("Matching variant not found".to_string());

    assert_eq!(TestFrameworkEnum::from_str("GTest"), Ok(TestFrameworkEnum::GTest));
    assert_eq!(TestFrameworkEnum::from_str("Boost"), Ok(TestFrameworkEnum::Boost));
    assert_eq!(TestFrameworkEnum::from_str("Unit"), Ok(TestFrameworkEnum::Unit));
    assert_eq!(TestFrameworkEnum::from_str("None"), Ok(TestFrameworkEnum::Nothing));
    assert_eq!(TestFrameworkEnum::from_str("CMocka"), Err(not_found.clone()));
    assert_eq!(TestFrameworkEnum::from_str("gtest"), Err(not_found.clone()));
    assert_eq!(TestFrameworkEnum::variants(), vec!["GTest", "Boost", "Unit", "None"]);

    assert_eq!(BuildSystemEnum::from_str("CMake"), Ok(BuildSystemEnum::CMake));
    assert_eq!(BuildSystemEnum::from_str("Meson"), Ok(BuildSystemEnum::Meson));
    assert_eq!(BuildSystemEnum::from_str("Make"), Ok(BuildSystemEnum::Make));
    assert_eq!(BuildSystemEnum::from_str(""), Err(not_found.clone()));
    assert_eq!(BuildSystemEnum::variants(), vec!["CMake", "Meson", "Make"]);

    assert_eq!(PackageManagerEnum::from_str("Vcpkg"), Ok(PackageManagerEnum::Vcpkg));
    assert_eq!(PackageManagerEnum::from_str("Conan"), Ok(PackageManagerEnum::Conan));
    assert_eq!(PackageManagerEnum::from_str("Nix"), Err(not_found.clone()));
    assert_eq!(PackageManagerEnum::variants(), vec!["Vcpkg", "Conan"]);

    assert_eq!(not_found.message(), "Parse Error: Matching variant not found");
    assert_eq!(
        not_found.detail(),
        strum::ParseError::VariantNotFound.to_string()
    );
}

#[test]
fn a_builder_starts_with_cpp20_and_no_tests() {
    let builder = CMakeBuilder::new("app");
    assert_eq!(builder.name, "app");
    assert_eq!(builder.path, "app/CMakeLists.txt");
    assert_eq!(builder.version, "1.0");
    assert_eq!(builder.language, "CXX");
    assert_eq!(builder.standard, "20");
    assert_eq!(builder.test_framework, TestFrameworkEnum::Nothing);

    let builder = builder.language("C").standard("11").framework(&TestFrameworkEnum::GTest);
    assert_eq!(builder.name, "app");
    assert_eq!(builder.path, "app/CMakeLists.txt");
    assert_eq!(builder.version, "1.0");
    assert_eq!(builder.language, "C");
    assert_eq!(builder.standard, "11");
    assert_eq!(builder.test_framework, TestFrameworkEnum::GTest);
}

const GOOGLE_TEST: &str = "enable_testing()
find_package(GTest REQUIRED)

add_executable(appTests tests/test_lib.cpp)
target_link_libraries(appTests PRIVATE
                GTest::gtest
                GTest::gtest_main
                appLib
            )
target_include_directories(appTests PRIVATE 
                include/ 
                src/
            )
add_test(NAME appTests COMMAND appTests)";

#[test]
fn test_setups_of_the_builder() {
    let builder = CMakeBuilder::new("app");
    assert_eq!(builder.google_test(), GOOGLE_TEST);
    assert_eq!(builder.boost_test(), "enable_testing()\nfind_package(GTest REQUIRED)\n");
    assert_eq!(builder.unit_test(), "enable_testing()\nfind_package(GTest REQUIRED)\n");
    assert_eq!(builder.test_init(&TestFrameworkEnum::GTest), GOOGLE_TEST);
    assert_eq!(builder.test_init(&TestFrameworkEnum::Boost), builder.boost_test());
    assert_eq!(builder.test_init(&TestFrameworkEnum::Unit), builder.unit_test());
    assert_eq!(builder.test_init(&TestFrameworkEnum::Nothing), "");
}

#[test]
fn the_builder_writes_its_description() {
    let builder = CMakeBuilder::new("app");
    let head = "# General\ncmake_minimum_required(VERSION 3.14)\nproject(app VERSION 1.0 LANGUAGES CXX)\nset(CMAKE_CXX_STANDARD 20)\nset(CMAKE_CXX_STANDARD_REQUIRED ON)\n\n# Library\nadd_library(appLib src/lib.cpp)\ntarget_include_directories(appLib PUBLIC include/ lib/)\n\n# Binary\nadd_executable(app src/main.cpp)\ntarget_link_libraries(app PRIVATE appLib)\n\n# Testing\n";
    assert_eq!(
        builder.init(),
        vec![Step {
            action: Action::WriteFile {
                path: vec!["app/CMakeLists.txt".to_string()],
                content: head.to_string(),
            },
            on_fault: OnFault::Io,
            on_exit: OnExit::Ignore,
        }]
    );

    let builder = builder.language("C").standard("99").framework(&TestFrameworkEnum::GTest);
    match &builder.init()[0].action {
        Action::WriteFile { content, .. } => {
            let head = head
                .replace("LANGUAGES CXX", "LANGUAGES C")
                .replace("CMAKE_CXX_STANDARD 20", "CMAKE_C_STANDARD 99")
                .replace("CMAKE_CXX_STANDARD_REQUIRED", "CMAKE_C_STANDARD_REQUIRED");
            assert_eq!(content, &format!("{}{}", head, GOOGLE_TEST));
        }
        other => panic!("unexpected action {:?}", other),
    }
}

#[test]
fn the_builder_builds_with_two_commands() {
    let builder = CMakeBuilder::new("app");
    assert_eq!(
        builder.build(),
        vec![
            shell("cd app && cmake -B build -DCMAKE_EXPORT_COMPILE_COMMANDS=ON"),
            shell("cd app && ln -sf build/compile_commands.json compile_commands.json"),
        ]
    );
    let mut runner = Runner::new(builder.build());
    assert_eq!(
        runner.report(Outcome::Exit("exit status: 1".into())),
        Err(Error::CustomError(
            "Command failed: cd app && cmake -B build -DCMAKE_EXPORT_COMPILE_COMMANDS=ON".into()
        ))
    );
    assert!(runner.pending().is_none());
}

#[test]
fn a_manager_exists_only_where_its_tool_is_found() {
    let manager = VcpkgManager::found("app", Ok("/usr/bin/vcpkg".to_string())).ok().unwrap();
    assert_eq!(
        manager.init(),
        vec![shell(
            "cd app && vcpkg new --application && vcpkg add port gtest && vcpkg install"
        )]
    );
    let missing = || Err(Error::CustomError("cannot find binary path".to_string()));
    assert_eq!(
        VcpkgManager::found("app", missing()).err(),
        Some(Error::CustomError("cannot find binary path".to_string()))
    );

    let manager = ConanManager::found("app", Ok("/usr/bin/conan".to_string())).ok().unwrap();
    assert_eq!(
        manager.init(),
        vec![shell(
            "cd app && vcpkg new --application && vcpkg add port gtest && vcpkg install"
        )]
    );
    assert_eq!(
        ConanManager::found("app", missing()).err(),
        Some(Error::CustomError("cannot find binary path".to_string()))
    );
}

#[test]
fn new_managers_look_for_their_tools() {
    match (which::which("vcpkg"), VcpkgManager::new("app")) {
        (Ok(_), Ok(manager)) => assert_eq!(manager.init().len(), 1),
        (Err(e), Err(Error::CustomError(words))) => assert_eq!(words, e.to_string()),
        _ => panic!("the manager and the search disagree"),
    }
    match (which::which("conan"), ConanManager::new("app")) {
        (Ok(_), Ok(manager)) => assert_eq!(manager.init().len(), 1),
        (Err(e), Err(Error::CustomError(words))) => assert_eq!(words, e.to_string()),
        _ => panic!("the manager and the search disagree"),
    }
}
