use forge_lib::language::{CStandard, CppStandard, Language};
use forge_lib::plan::{Action, OnExit, OnFault, Outcome, Runner, Step};
use forge_lib::scaffolder::{vscode_settings, CHelloWorld, CppHelloWorld, Scaffolder};
use forge_lib::Error;

fn texts(items: &[&str]) -> Vec<String> {
    items.iter().map(|s| s.to_string()).collect()
}

fn written<'a>(plan: &'a [Step], path: &[&str]) -> Option<&'a str> {
    plan.iter().find_map(|s| match &s.action {
        Action::WriteFile { path: p, content } if p == &texts(path) => Some(content.as_str()),
        _ => None,
    })
}

fn made(plan: &[Step], path: &[&str]) -> bool {
    plan.iter()
        .any(|s| matches!(&s.action, Action::MakeDirs { path: p } if p == &texts(path)))
}

const SETTINGS_OF_DUMMY: &str = "{
  \"configurations\": [
    {
      \"cStandard\": \"c11\",
      \"cppStandard\": \"c++20\",
      \"defines\": [],
      \"includePath\": [
        \"${workspaceFolder}/lib\",
        \"${workspace}/vcpkg_installed/x64-osx/include\"
      ],
      \"macFrameworkPath\": [],
      \"name\": \"dummy\"
    }
  ],
  \"version\": 4
}";

#[test]
fn test_scaffold_c() {
    let name = "dummy";
    let path = "/work/dummy";
    let language = Language::C(CStandard::C89);

    let scaffolder = Scaffolder::new(name.to_string(), path.to_string(), language);
    let plan = scaffolder.build().unwrap();

    assert!(written(&plan, &[path, ".gitignore"]).is_some());
    assert!(plan.iter().any(|s| s.action
        == Action::Run {
            program: "git".to_string(),
            args: texts(&["init"]),
            dir: path.to_string()
        }));
    assert!(written(&plan, &[path, "include", "lib.h"]).is_some());
    assert!(written(&plan, &[path, "src", "lib.c"]).is_some());
    assert!(written(&plan, &[path, "src", "main.c"]).is_some());
    assert!(written(&plan, &[path, "test", "test_lib.c"]).is_some());
    assert!(written(&plan, &[path, "test", "test_main.c"]).is_some());
    assert!(written(&plan, &[path, ".vscode", "c_cpp_properties.json"]).is_some());
}

#[test]
fn test_scaffold_cpp() {
    let name = "dummy";
    let path = "/work/dummy";
    let language = Language::Cpp(CppStandard::Cpp14);

    let scaffolder = Scaffolder::new(name.to_string(), path.to_string(), language);
    let plan = scaffolder.build().unwrap();

    assert!(written(&plan, &[path, ".gitignore"]).is_some());
    assert!(written(&plan, &[path, "include", "lib.hpp"]).is_some());
    assert!(written(&plan, &[path, "src", "lib.cpp"]).is_some());
    assert!(written(&plan, &[path, "src", "main.cpp"]).is_some());
    assert!(written(&plan, &[path, "test", "test_lib.cpp"]).is_some());
    assert!(written(&plan, &[path, "test", "test_main.cpp"]).is_some());
    assert!(written(&plan, &[path, ".vscode", "c_cpp_properties.json"]).is_some());
    assert!(written(&plan, &[path, "src", "main.c"]).is_none());
}

#[test]
fn the_layout_comes_first_and_in_order() {
    let scaffolder =
        Scaffolder::new("p".to_string(), "root".to_string(), Language::C(CStandard::C11));
    let plan = scaffolder.build().unwrap();
    let dirs: Vec<Vec<String>> = plan
        .iter()
        .take(7)
        .map(|s| match &s.action {
            Action::MakeDirs { path } => path.clone(),
            other => panic!("unexpected action {:?}", other),
        })
        .collect();
    assert_eq!(
        dirs,
        vec![
            texts(&["root"]),
            texts(&["root", "include"]),
            texts(&["root", "src"]),
            texts(&["root", "build"]),
            texts(&["root", "test"]),
            texts(&["root", "libs"]),
            texts(&["root", ".vscode"]),
        ]
    );
    assert_eq!(plan.len(), 7 + 2 + 1 + 5);
    assert!(made(&scaffolder.create_dir(), &["root"]));
    assert_eq!(scaffolder.create_dir().len(), 1);
    assert_eq!(scaffolder.create_structure().len(), 6);
    assert!(plan.iter().all(|s| s.on_fault == OnFault::Io));
    assert_eq!(plan[7].on_exit, OnExit::Abort(Error::IoError("git init failed".to_string())));
    assert!(plan.iter().enumerate().all(|(i, s)| i == 7 || s.on_exit == OnExit::Ignore));
}

#[test]
fn the_gitignore_is_written_only_after_git_succeeded() {
    let scaffolder =
        Scaffolder::new("p".to_string(), "root".to_string(), Language::C(CStandard::C11));
    let mut runner = Runner::new(scaffolder.git_init());
    assert!(matches!(runner.pending(), Some(Action::Run { program, .. }) if program == "git"));
    assert_eq!(runner.report(Outcome::Done), Ok(None));
    match runner.pending() {
        Some(Action::WriteFile { path, content }) => {
            assert_eq!(path, &texts(&["root", ".gitignore"]));
            assert_eq!(content, &Scaffolder::gitignore());
        }
        other => panic!("unexpected action {:?}", other),
    }

    let mut runner = Runner::new(scaffolder.git_init());
    assert_eq!(
        runner.report(Outcome::Exit("exit status: 128".into())),
        Err(Error::IoError("git init failed".into()))
    );
    assert!(runner.pending().is_none());

    let mut runner = Runner::new(scaffolder.git_init());
    assert_eq!(
        runner.report(Outcome::Fault("not found".into())),
        Err(Error::IoError("not found".into()))
    );
    assert!(runner.pending().is_none());
}

#[test]
fn gitignore_text() {
    assert_eq!(
        Scaffolder::gitignore(),
        "# Ignore build output\n/build/\n/bin/\n\n# Ignore CMake files\n/CMakeFiles/\n/CMakeCache.txt\n/cmake_install.cmake\n\n# Ignore vcpkg installation files\n/vcpkg_installed/\n/vcpkg/\n\n# Ignore system files\n*.DS_Store\n*.swp\n.cache\n\n# Vcpkg Commands\ncompile_commands.json\nvcpkg-configuration.json\nvcpkg.json\n"
    );
}

#[test]
fn editor_settings_are_laid_out_by_serde_json() {
    let scaffolder =
        Scaffolder::new("dummy".to_string(), "root".to_string(), Language::C(CStandard::C89));
    let plan = scaffolder.vscode_init().unwrap();
    assert_eq!(plan.len(), 1);
    assert_eq!(
        written(&plan, &["root", ".vscode", "c_cpp_properties.json"]),
        Some(SETTINGS_OF_DUMMY)
    );
}

#[test]
fn editor_settings_hold_the_name_as_json() {
    let name = "a \"quoted\" name\\ with\ttab";
    let value = vscode_settings(name);

    let mut entry = serde_json::Map::new();
    entry.insert("name".to_string(), serde_json::Value::from(name));
    entry.insert(
        "includePath".to_string(),
        serde_json::Value::from(vec![
            "${workspaceFolder}/lib",
            "${workspace}/vcpkg_installed/x64-osx/include",
        ]),
    );
    entry.insert("defines".to_string(), serde_json::Value::Array(vec![]));
    entry.insert("macFrameworkPath".to_string(), serde_json::Value::Array(vec![]));
    entry.insert("cStandard".to_string(), serde_json::Value::from("c11"));
    entry.insert("cppStandard".to_string(), serde_json::Value::from("c++20"));
    let mut doc = serde_json::Map::new();
    doc.insert(
        "configurations".to_string(),
        serde_json::Value::Array(vec![serde_json::Value::Object(entry)]),
    );
    doc.insert("version".to_string(), serde_json::Value::from(4));
    assert_eq!(value, serde_json::Value::Object(doc));

    let scaffolder =
        Scaffolder::new(name.to_string(), "root".to_string(), Language::C(CStandard::C89));
    let plan = scaffolder.vscode_init().unwrap();
    let text = written(&plan, &["root", ".vscode", "c_cpp_properties.json"]).unwrap();
    assert_eq!(text, serde_json::to_string_pretty(&value).unwrap());
    assert!(text.contains("\"name\": \"a \\\"quoted\\\" name\\\\ with\\ttab\""));
    let back: serde_json::Value = serde_json::from_str(text).unwrap();
    assert_eq!(back["configurations"][0]["name"], serde_json::Value::from(name));
    assert_eq!(back["version"], serde_json::Value::from(4));
}

#[test]
fn settings_that_cannot_be_rendered_are_a_serde_error() {
    let scaffolder =
        Scaffolder::new("p".to_string(), "root".to_string(), Language::C(CStandard::C89));
    assert_eq!(
        scaffolder.vscode_written(Err("recursion limit exceeded".to_string())),
        Err(Error::SerdeError("recursion limit exceeded".to_string()))
    );
    assert_eq!(
        scaffolder.build_from(Err("recursion limit exceeded".to_string())),
        Err(Error::SerdeError("recursion limit exceeded".to_string()))
    );
    let plan = scaffolder.build_from(Ok("{}".to_string())).unwrap();
    assert_eq!(written(&plan, &["root", ".vscode", "c_cpp_properties.json"]), Some("{}"));
}

#[test]
fn first_sources_in_c() {
    let hello = CHelloWorld::new("root".to_string());
    let plan = hello.build();
    assert_eq!(
        written(&plan, &["root", "include", "lib.h"]),
        Some("#pragma once\n\n#include <stdio.h>\n\nvoid get_greeting(const char* name);\n\nint add(int a, int b);\n")
    );
    assert_eq!(
        written(&plan, &["root", "src", "lib.c"]),
        Some("#include \"lib.h\"\n\nvoid get_greeting(const char* name) {\n  while (*name != '\\0') {\n    printf(\"%c\", *name);\n    name++;\n  }\n}\n\nint add(int a, int b) { return a + b; }")
    );
    assert_eq!(
        written(&plan, &["root", "src", "main.c"]),
        Some("#include <stdio.h>\n#include \"lib.h\"\n\nint main() {\n  char str[11] = \"Hello World\";\n  get_greeting(str);\n\n  return 0;\n}")
    );
    assert_eq!(
        written(&plan, &["root", "test", "test_main.c"]),
        Some("#include <setjmp.h>\n#include <stdarg.h>\n#include <stddef.h>\n#include <stdint.h>\n// Third party\n#include <cmocka.h>\n#include \"lib.h\"\n\nextern const struct CMUnitTest libTests[];\nextern const size_t libTestsSize;\n\nint main(void) {\n  int failures = 0;\n  failures += _cmocka_run_group_tests(\"lib_tests\", libTests, libTestsSize, NULL, NULL);\n  return failures;\n}")
    );
    assert_eq!(
        written(&plan, &["root", "test", "test_lib.c"]),
        Some("#include <setjmp.h>\n#include <stdarg.h>\n#include <stddef.h>\n#include <stdint.h>\n// Third party\n#include <cmocka.h>\n#include \"lib.h\"\n\nstatic void test_add(void **state) {\n  (void)state;\n  assert_int_equal(add(2, 3), 5);\n  assert_int_equal(add(-1, 1), 0);\n}\n\nconst struct CMUnitTest libTests[] = {cmocka_unit_test(test_add)};\nconst size_t libTestsSize = sizeof(libTests) / sizeof(libTests[0]);")
    );
    let order: Vec<String> = plan
        .iter()
        .map(|s| match &s.action {
            Action::WriteFile { path, .. } => path.last().unwrap().clone(),
            other => panic!("unexpected action {:?}", other),
        })
        .collect();
    assert_eq!(order, vec!["lib.h", "lib.c", "main.c", "test_main.c", "test_lib.c"]);
    assert_eq!(hello.tests().len(), 2);
    assert_eq!(vec![hello.header(), hello.lib(), hello.bin()], plan[0..3].to_vec());
}

#[test]
fn first_sources_in_cpp() {
    let hello = CppHelloWorld::new("root".to_string());
    let plan = hello.build();
    assert_eq!(
        written(&plan, &["root", "include", "lib.hpp"]),
        Some("#pragma once\n\n#include <string>\n\nstd::string get_greeting(const std::string& name);")
    );
    assert_eq!(
        written(&plan, &["root", "src", "lib.cpp"]),
        Some("#include \"lib.hpp\"\n\nstd::string get_greeting(const std::string& name) {\n  return \"Hello, \" + name + \"!\";\n}")
    );
    assert_eq!(
        written(&plan, &["root", "src", "main.cpp"]),
        Some("#include <iostream>\n#include \"lib.hpp\"\n\nint main(){\n  std::string name = \"World\";\n  std::cout << get_greeting(name) << std::endl;\n\n  return 0;\n}")
    );
    assert_eq!(
        written(&plan, &["root", "test", "test_main.cpp"]),
        Some("#include <gtest/gtest.h>\n\nint main(int argc, char** argv) {\n  ::testing::InitGoogleTest(&argc, argv);\n\n  return RUN_ALL_TESTS();\n}")
    );
    assert_eq!(
        written(&plan, &["root", "test", "test_lib.cpp"]),
        Some("#include <gtest/gtest.h>\n\n#include \"lib.hpp\"\n\nTEST(GreetingTest, BasicTest) {\n  EXPECT_EQ(get_greeting(\"Test\"), \"Hello, Test!\");\n}\n")
    );
    assert_eq!(hello.tests().len(), 2);
    assert_eq!(vec![hello.header(), hello.lib(), hello.bin()], plan[0..3].to_vec());
}

#[test]
fn create_hello_world_follows_the_language() {
    let c = Scaffolder::new("p".to_string(), "root".to_string(), Language::C(CStandard::C99));
    assert_eq!(c.create_hello_world(), CHelloWorld::new("root".to_string()).build());
    let cpp =
        Scaffolder::new("p".to_string(), "root".to_string(), Language::Cpp(CppStandard::Cpp23));
    assert_eq!(cpp.create_hello_world(), CppHelloWorld::new("root".to_string()).build());
}
