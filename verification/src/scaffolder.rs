//! The files and directories of a new project.
use crate::error::{Error, ErrorView};
use crate::json::{
    count_value, json_count, json_list, json_object, json_pretty, json_text, list_value,
    new_record, no_entries, object_value, pretty_result, record_put, text_value,
};
use crate::language::Language;
use crate::plan::{
    below, below2, dirs_made, launch, launched, make_dirs, no_steps, planned, push_step, push_steps,
    write_file, written, OnExit, OnExitView, Step, StepView,
};
use crate::text::{join, joined, no_texts, push_text, texts_of};
use vstd::prelude::*;

verus! {

/// The lines of the `.gitignore` of a new project.
pub open spec fn gitignore_lines() -> Seq<Seq<char>> {
    seq![
        "# Ignore build output"@,
        "/build/"@,
        "/bin/\n"@,
        "# Ignore CMake files"@,
        "/CMakeFiles/"@,
        "/CMakeCache.txt"@,
        "/cmake_install.cmake\n"@,
        "# Ignore vcpkg installation files"@,
        "/vcpkg_installed/"@,
        "/vcpkg/\n"@,
        "# Ignore system files"@,
        "*.DS_Store"@,
        "*.swp"@,
        ".cache\n"@,
        "# Vcpkg Commands"@,
        "compile_commands.json"@,
        "vcpkg-configuration.json"@,
        "vcpkg.json\n"@,
    ]
}

/// The editor's settings for the project `name`, as a JSON document.
pub open spec fn vscode_doc(name: Seq<char>) -> serde_json::Value {
    object_value(
        no_entries().insert(
            "configurations"@,
            list_value(
                seq![
                    object_value(
                        no_entries().insert("name"@, text_value(name)).insert(
                            "includePath"@,
                            list_value(
                                seq![
                                    text_value("${workspaceFolder}/lib"@),
                                    text_value("${workspace}/vcpkg_installed/x64-osx/include"@),
                                ],
                            ),
                        ).insert("defines"@, list_value(Seq::empty())).insert(
                            "macFrameworkPath"@,
                            list_value(Seq::empty()),
                        ).insert("cStandard"@, text_value("c11"@)).insert(
                            "cppStandard"@,
                            text_value("c++20"@),
                        ),
                    ),
                ],
            ),
        ).insert("version"@, count_value(4)),
    )
}

/// The names of the directories of a new project, below its own.
pub open spec fn layout() -> Seq<Seq<char>> {
    seq!["include"@, "src"@, "build"@, "test"@, "libs"@, ".vscode"@]
}

/// The steps that create the directories of [`layout`] below `dir`.
pub open spec fn structure_plan(dir: Seq<char>) -> Seq<StepView> {
    Seq::new(layout().len(), |i: int| dirs_made(seq![dir, layout()[i]]))
}

/// The steps that make `dir` a repository and write its `.gitignore`. Where
/// git cannot be started or reports no success, the operation fails with
/// an I/O error, and the `.gitignore` is not written.
pub open spec fn git_plan(dir: Seq<char>) -> Seq<StepView> {
    seq![
        launched(
            "git"@,
            seq!["init"@],
            dir,
            OnExitView::Abort(ErrorView::IoError("git init failed"@)),
        ),
        written(seq![dir, ".gitignore"@], joined(gitignore_lines(), "\n"@)),
    ]
}

/// The step that writes the editor's settings, given as text, below `dir`.
pub open spec fn vscode_plan(dir: Seq<char>, settings: Seq<char>) -> Seq<StepView> {
    seq![written(seq![dir, ".vscode"@, "c_cpp_properties.json"@], settings)]
}

/// The lines of `include/lib.h`.
pub open spec fn c_header_lines() -> Seq<Seq<char>> {
    seq![
        "#pragma once\n"@,
        "#include <stdio.h>\n"@,
        "void get_greeting(const char* name);\n"@,
        "int add(int a, int b);\n"@,
    ]
}

/// The lines of `src/lib.c`.
pub open spec fn c_lib_lines() -> Seq<Seq<char>> {
    seq![
        "#include \"lib.h\"\n"@,
        "void get_greeting(const char* name) {"@,
        "  while (*name != '\\0') {"@,
        "    printf(\"%c\", *name);"@,
        "    name++;"@,
        "  }"@,
        "}\n"@,
        "int add(int a, int b) { return a + b; }"@,
    ]
}

/// The lines of `src/main.c`.
pub open spec fn c_bin_lines() -> Seq<Seq<char>> {
    seq![
        "#include <stdio.h>"@,
        "#include \"lib.h\"\n"@,
        "int main() {"@,
        "  char str[11] = \"Hello World\";"@,
        "  get_greeting(str);\n"@,
        "  return 0;"@,
        "}"@,
    ]
}

/// The lines of `test/test_main.c`.
pub open spec fn c_test_main_lines() -> Seq<Seq<char>> {
    seq![
        "#include <setjmp.h>"@,
        "#include <stdarg.h>"@,
        "#include <stddef.h>"@,
        "#include <stdint.h>"@,
        "// Third party"@,
        "#include <cmocka.h>"@,
        "#include \"lib.h\"\n"@,
        "extern const struct CMUnitTest libTests[];"@,
        "extern const size_t libTestsSize;\n"@,
        "int main(void) {"@,
        "  int failures = 0;"@,
        "  failures += _cmocka_run_group_tests(\"lib_tests\", libTests, libTestsSize, NULL, NULL);"@,
        "  return failures;"@,
        "}"@,
    ]
}

/// The lines of `test/test_lib.c`.
pub open spec fn c_test_lib_lines() -> Seq<Seq<char>> {
    seq![
        "#include <setjmp.h>"@,
        "#include <stdarg.h>"@,
        "#include <stddef.h>"@,
        "#include <stdint.h>"@,
        "// Third party"@,
        "#include <cmocka.h>"@,
        "#include \"lib.h\"\n"@,
        "static void test_add(void **state) {"@,
        "  (void)state;"@,
        "  assert_int_equal(add(2, 3), 5);"@,
        "  assert_int_equal(add(-1, 1), 0);"@,
        "}\n"@,
        "const struct CMUnitTest libTests[] = {cmocka_unit_test(test_add)};"@,
        "const size_t libTestsSize = sizeof(libTests) / sizeof(libTests[0]);"@,
    ]
}

/// The lines of `include/lib.hpp`.
pub open spec fn cpp_header_lines() -> Seq<Seq<char>> {
    seq![
        "#pragma once\n"@,
        "#include <string>\n"@,
        "std::string get_greeting(const std::string& name);"@,
    ]
}

/// The lines of `src/lib.cpp`.
pub open spec fn cpp_lib_lines() -> Seq<Seq<char>> {
    seq![
        "#include \"lib.hpp\"\n"@,
        "std::string get_greeting(const std::string& name) {"@,
        "  return \"Hello, \" + name + \"!\";"@,
        "}"@,
    ]
}

/// The lines of `src/main.cpp`.
pub open spec fn cpp_bin_lines() -> Seq<Seq<char>> {
    seq![
        "#include <iostream>"@,
        "#include \"lib.hpp\"\n"@,
        "int main(){"@,
        "  std::string name = \"World\";"@,
        "  std::cout << get_greeting(name) << std::endl;\n"@,
        "  return 0;"@,
        "}"@,
    ]
}

/// The lines of `test/test_main.cpp`.
pub open spec fn cpp_test_main_lines() -> Seq<Seq<char>> {
    seq![
        "#include <gtest/gtest.h>\n"@,
        "int main(int argc, char** argv) {"@,
        "  ::testing::InitGoogleTest(&argc, argv);\n"@,
        "  return RUN_ALL_TESTS();"@,
        "}"@,
    ]
}

/// The lines of `test/test_lib.cpp`.
pub open spec fn cpp_test_lib_lines() -> Seq<Seq<char>> {
    seq![
        "#include <gtest/gtest.h>\n"@,
        "#include \"lib.hpp\"\n"@,
        "TEST(GreetingTest, BasicTest) {"@,
        "  EXPECT_EQ(get_greeting(\"Test\"), \"Hello, Test!\");"@,
        "}\n"@,
    ]
}

/// The step that writes `lines`, each on a line of its own, to the file
/// `file` in the directory `sub` of `dir`.
pub open spec fn source_step(
    dir: Seq<char>,
    sub: Seq<char>,
    file: Seq<char>,
    lines: Seq<Seq<char>>,
) -> StepView {
    written(seq![dir, sub, file], joined(lines, "\n"@))
}

/// The steps that write the first sources of a project in C: the header, the
/// library, the program, then the tests' entry point and the tests.
pub open spec fn c_sources_plan(dir: Seq<char>) -> Seq<StepView> {
    seq![
        source_step(dir, "include"@, "lib.h"@, c_header_lines()),
        source_step(dir, "src"@, "lib.c"@, c_lib_lines()),
        source_step(dir, "src"@, "main.c"@, c_bin_lines()),
        source_step(dir, "test"@, "test_main.c"@, c_test_main_lines()),
        source_step(dir, "test"@, "test_lib.c"@, c_test_lib_lines()),
    ]
}

/// The steps that write the first sources of a project in C++, in the same order.
pub open spec fn cpp_sources_plan(dir: Seq<char>) -> Seq<StepView> {
    seq![
        source_step(dir, "include"@, "lib.hpp"@, cpp_header_lines()),
        source_step(dir, "src"@, "lib.cpp"@, cpp_lib_lines()),
        source_step(dir, "src"@, "main.cpp"@, cpp_bin_lines()),
        source_step(dir, "test"@, "test_main.cpp"@, cpp_test_main_lines()),
        source_step(dir, "test"@, "test_lib.cpp"@, cpp_test_lib_lines()),
    ]
}

/// The steps that write the first sources of a project in `language`.
pub open spec fn sources_plan(dir: Seq<char>, language: Language) -> Seq<StepView> {
    match language {
        Language::C(_) => c_sources_plan(dir),
        Language::Cpp(_) => cpp_sources_plan(dir),
    }
}

/// The step that writes `lines` to a file two names below `dir`.
fn source_file(dir: &str, sub: &str, file: &str, lines: &[&str]) -> (r: Step)
    ensures
        r@ == source_step(dir@, sub@, file@, lines.deep_view()),
{
    let content = join(&texts_of(lines), "\n");
    write_file(below2(dir, sub, file), content)
}

/// The editor's settings for the project `name`, as a value of `serde_json`.
pub fn vscode_settings(name: &str) -> (r: serde_json::Value)
    ensures
        r == vscode_doc(name@),
{
    let mut paths: Vec<serde_json::Value> = Vec::new();
    paths.push(json_text("${workspaceFolder}/lib"));
    paths.push(json_text("${workspace}/vcpkg_installed/x64-osx/include"));
    assert(paths@ =~= seq![
        text_value("${workspaceFolder}/lib"@),
        text_value("${workspace}/vcpkg_installed/x64-osx/include"@),
    ]);
    let defines: Vec<serde_json::Value> = Vec::new();
    let frameworks: Vec<serde_json::Value> = Vec::new();

    let mut entry = new_record();
    record_put(&mut entry, "name", json_text(name));
    record_put(&mut entry, "includePath", json_list(paths));
    record_put(&mut entry, "defines", json_list(defines));
    record_put(&mut entry, "macFrameworkPath", json_list(frameworks));
    record_put(&mut entry, "cStandard", json_text("c11"));
    record_put(&mut entry, "cppStandard", json_text("c++20"));

    let mut configurations: Vec<serde_json::Value> = Vec::new();
    configurations.push(json_object(entry));

    let mut doc = new_record();
    record_put(&mut doc, "configurations", json_list(configurations));
    record_put(&mut doc, "version", json_count(4));
    json_object(doc)
}

/// What is known of a new project before anything of it exists.
pub struct Scaffolder {
    name: String,
    project_dir: String,
    language: Language,
}

/// A [`Scaffolder`] over sequences of characters.
pub struct ScaffolderView {
    pub name: Seq<char>,
    pub project_dir: Seq<char>,
    pub language: Language,
}

impl ScaffolderView {
    /// All the steps that lay the project out, where `settings` is the text
    /// of the editor's settings: the project's directory, those below it,
    /// the repository, the editor's settings and the first sources.
    pub open spec fn build_plan(self, settings: Seq<char>) -> Seq<StepView> {
        seq![dirs_made(seq![self.project_dir])] + structure_plan(self.project_dir) + git_plan(
            self.project_dir,
        ) + vscode_plan(self.project_dir, settings) + sources_plan(
            self.project_dir,
            self.language,
        )
    }

    /// What `serde_json` makes of the editor's settings: their text as it
    /// lays it out, or the words with which it gives up.
    pub open spec fn settings(self) -> Result<Seq<char>, Seq<char>> {
        pretty_result(vscode_doc(self.name))
    }

    /// The step that writes the editor's settings where they were rendered,
    /// and a serde error with the writer's words where they were not.
    pub open spec fn vscode_outcome(self, settings: Result<Seq<char>, Seq<char>>) -> Result<
        Seq<StepView>,
        ErrorView,
    > {
        match settings {
            Ok(text) => Ok(vscode_plan(self.project_dir, text)),
            Err(words) => Err(ErrorView::SerdeError(words)),
        }
    }

    /// All the steps that lay the project out where the editor's settings
    /// were rendered, and a serde error with the writer's words where they
    /// were not.
    pub open spec fn build_outcome(self, settings: Result<Seq<char>, Seq<char>>) -> Result<
        Seq<StepView>,
        ErrorView,
    > {
        match settings {
            Ok(text) => Ok(self.build_plan(text)),
            Err(words) => Err(ErrorView::SerdeError(words)),
        }
    }
}

impl View for Scaffolder {
    type V = ScaffolderView;

    closed spec fn view(&self) -> ScaffolderView {
        ScaffolderView {
            name: self.name@,
            project_dir: self.project_dir@,
            language: self.language,
        }
    }
}

impl Scaffolder {
    /// The scaffolder of the project `name` in `project_dir`.
    pub fn new(name: String, project_dir: String, language: Language) -> (r: Scaffolder)
        ensures
            r@.name == name@,
            r@.project_dir == project_dir@,
            r@.language == language,
    {
        Scaffolder { name, project_dir, language }
    }

    /// The step that creates the project's directory.
    pub fn create_dir(&self) -> (r: Vec<Step>)
        ensures
            r.deep_view() == seq![dirs_made(seq![self@.project_dir])],
    {
        let mut path = no_texts();
        push_text(&mut path, self.project_dir.as_str());
        let mut plan = no_steps();
        push_step(&mut plan, make_dirs(path));
        plan
    }

    /// The steps that create the directories below the project's own.
    pub fn create_structure(&self) -> (r: Vec<Step>)
        ensures
            r.deep_view() == structure_plan(self@.project_dir),
    {
        let directories = ["include", "src", "build", "test", "libs", ".vscode"];
        let mut plan = no_steps();
        let mut i: usize = 0;
        while i < directories.len()
            invariant
                i <= directories.len(),
                directories.deep_view() == layout(),
                plan.deep_view() == structure_plan(self@.project_dir).take(i as int),
            decreases directories.len() - i,
        {
            let path = below(self.project_dir.as_str(), directories[i]);
            push_step(&mut plan, make_dirs(path));
            i = i + 1;
        }
        plan
    }

    /// The text of the `.gitignore`.
    pub fn gitignore() -> (r: String)
        ensures
            r@ == joined(gitignore_lines(), "\n"@),
    {
        let content = [
            "# Ignore build output",
            "/build/",
            "/bin/\n",
            "# Ignore CMake files",
            "/CMakeFiles/",
            "/CMakeCache.txt",
            "/cmake_install.cmake\n",
            "# Ignore vcpkg installation files",
            "/vcpkg_installed/",
            "/vcpkg/\n",
            "# Ignore system files",
            "*.DS_Store",
            "*.swp",
            ".cache\n",
            "# Vcpkg Commands",
            "compile_commands.json",
            "vcpkg-configuration.json",
            "vcpkg.json\n",
        ];
        assert(content.deep_view() =~= gitignore_lines());
        join(&texts_of(&content), "\n")
    }

    /// The steps that make the project a repository with a `.gitignore`.
    pub fn git_init(&self) -> (r: Vec<Step>)
        ensures
            r.deep_view() == git_plan(self@.project_dir),
    {
        let mut args = no_texts();
        push_text(&mut args, "init");
        let dir = self.project_dir.as_str();
        let mut plan = no_steps();
        push_step(
            &mut plan,
            launch(
                "git",
                args,
                dir,
                OnExit::Abort(Error::IoError("git init failed".to_string())),
            ),
        );
        push_step(&mut plan, write_file(below(dir, ".gitignore"), Self::gitignore()));
        plan
    }

    /// The step that writes the editor's settings, or a serde error where
    /// `rendered` holds the words of a writer that gave up.
    pub fn vscode_written(&self, rendered: Result<String, String>) -> (r: Result<Vec<Step>, Error>)
        ensures
            planned(r) == self@.vscode_outcome(crate::text::rendered(rendered)),
    {
        match rendered {
            Ok(text) => {
                let path = below2(self.project_dir.as_str(), ".vscode", "c_cpp_properties.json");
                let mut plan = no_steps();
                push_step(&mut plan, write_file(path, text));
                Ok(plan)
            },
            Err(words) => Err(Error::SerdeError(words)),
        }
    }

    /// The step that writes the editor's settings for this project, laid out
    /// by `serde_json`; a serde error with the writer's words where it gives up.
    pub fn vscode_init(&self) -> (r: Result<Vec<Step>, Error>)
        ensures
            planned(r) == self@.vscode_outcome(self@.settings()),
    {
        let content = vscode_settings(self.name.as_str());
        self.vscode_written(json_pretty(&content))
    }

    /// The steps that write the first sources, in the project's language.
    pub fn create_hello_world(&self) -> (r: Vec<Step>)
        ensures
            r.deep_view() == sources_plan(self@.project_dir, self@.language),
    {
        match self.language {
            Language::C(_) => {
                let x = CHelloWorld { path: self.project_dir.clone() };
                x.build()
            },
            Language::Cpp(_) => {
                let x = CppHelloWorld { path: self.project_dir.clone() };
                x.build()
            },
        }
    }

    /// All the steps that lay the project out, where the editor's settings
    /// were rendered already; a serde error where `rendered` holds the words
    /// of a writer that gave up.
    pub fn build_from(&self, rendered: Result<String, String>) -> (r: Result<Vec<Step>, Error>)
        ensures
            planned(r) == self@.build_outcome(crate::text::rendered(rendered)),
    {
        let mut plan = self.create_dir();
        push_steps(&mut plan, self.create_structure());
        push_steps(&mut plan, self.git_init());
        match self.vscode_written(rendered) {
            Ok(steps) => push_steps(&mut plan, steps),
            Err(e) => {
                return Err(e);
            },
        }
        push_steps(&mut plan, self.create_hello_world());
        Ok(plan)
    }

    /// All the steps that lay the project out; a serde error with the
    /// writer's words where the editor's settings cannot be written out.
    pub fn build(&self) -> (r: Result<Vec<Step>, Error>)
        ensures
            planned(r) == self@.build_outcome(self@.settings()),
    {
        let content = vscode_settings(self.name.as_str());
        self.build_from(json_pretty(&content))
    }
}

/// The first sources of a project in C.
pub struct CHelloWorld {
    path: String,
}

impl CHelloWorld {
    /// The directory of the project.
    pub closed spec fn dir(&self) -> Seq<char> {
        self.path@
    }

    /// The first sources of the project in `path`.
    pub fn new(path: String) -> (r: CHelloWorld)
        ensures
            r.dir() == path@,
    {
        CHelloWorld { path }
    }

    /// The steps that write all the first sources.
    pub fn build(&self) -> (r: Vec<Step>)
        ensures
            r.deep_view() == c_sources_plan(self.dir()),
    {
        let mut plan = no_steps();
        push_step(&mut plan, self.header());
        push_step(&mut plan, self.lib());
        push_step(&mut plan, self.bin());
        push_steps(&mut plan, self.tests());
        plan
    }

    /// The step that writes the program.
    pub fn bin(&self) -> (r: Step)
        ensures
            r@ == source_step(self.dir(), "src"@, "main.c"@, c_bin_lines()),
    {
        let content = [
            "#include <stdio.h>",
            "#include \"lib.h\"\n",
            "int main() {",
            "  char str[11] = \"Hello World\";",
            "  get_greeting(str);\n",
            "  return 0;",
            "}",
        ];
        assert(content.deep_view() =~= c_bin_lines());
        source_file(self.path.as_str(), "src", "main.c", &content)
    }

    /// The step that writes the library.
    pub fn lib(&self) -> (r: Step)
        ensures
            r@ == source_step(self.dir(), "src"@, "lib.c"@, c_lib_lines()),
    {
        let content = [
            "#include \"lib.h\"\n",
            "void get_greeting(const char* name) {",
            "  while (*name != '\\0') {",
            "    printf(\"%c\", *name);",
            "    name++;",
            "  }",
            "}\n",
            "int add(int a, int b) { return a + b; }",
        ];
        assert(content.deep_view() =~= c_lib_lines());
        source_file(self.path.as_str(), "src", "lib.c", &content)
    }

    /// The step that writes the library's header.
    pub fn header(&self) -> (r: Step)
        ensures
            r@ == source_step(self.dir(), "include"@, "lib.h"@, c_header_lines()),
    {
        let content = [
            "#pragma once\n",
            "#include <stdio.h>\n",
            "void get_greeting(const char* name);\n",
            "int add(int a, int b);\n",
        ];
        assert(content.deep_view() =~= c_header_lines());
        source_file(self.path.as_str(), "include", "lib.h", &content)
    }

    /// The steps that write the tests' entry point and the tests.
    pub fn tests(&self) -> (r: Vec<Step>)
        ensures
            r.deep_view() == seq![
                source_step(self.dir(), "test"@, "test_main.c"@, c_test_main_lines()),
                source_step(self.dir(), "test"@, "test_lib.c"@, c_test_lib_lines()),
            ],
    {
        let main_content = [
            "#include <setjmp.h>",
            "#include <stdarg.h>",
            "#include <stddef.h>",
            "#include <stdint.h>",
            "// Third party",
            "#include <cmocka.h>",
            "#include \"lib.h\"\n",
            "extern const struct CMUnitTest libTests[];",
            "extern const size_t libTestsSize;\n",
            "int main(void) {",
            "  int failures = 0;",
            "  failures += _cmocka_run_group_tests(\"lib_tests\", libTests, libTestsSize, NULL, NULL);",
            "  return failures;",
            "}",
        ];
        assert(main_content.deep_view() =~= c_test_main_lines());
        let content = [
            "#include <setjmp.h>",
            "#include <stdarg.h>",
            "#include <stddef.h>",
            "#include <stdint.h>",
            "// Third party",
            "#include <cmocka.h>",
            "#include \"lib.h\"\n",
            "static void test_add(void **state) {",
            "  (void)state;",
            "  assert_int_equal(add(2, 3), 5);",
            "  assert_int_equal(add(-1, 1), 0);",
            "}\n",
            "const struct CMUnitTest libTests[] = {cmocka_unit_test(test_add)};",
            "const size_t libTestsSize = sizeof(libTests) / sizeof(libTests[0]);",
        ];
        assert(content.deep_view() =~= c_test_lib_lines());
        let mut plan = no_steps();
        push_step(&mut plan, source_file(self.path.as_str(), "test", "test_main.c", &main_content));
        push_step(&mut plan, source_file(self.path.as_str(), "test", "test_lib.c", &content));
        plan
    }
}

/// The first sources of a project in C++.
pub struct CppHelloWorld {
    path: String,
}

impl CppHelloWorld {
    /// The directory of the project.
    pub closed spec fn dir(&self) -> Seq<char> {
        self.path@
    }

    /// The first sources of the project in `path`.
    pub fn new(path: String) -> (r: CppHelloWorld)
        ensures
            r.dir() == path@,
    {
        CppHelloWorld { path }
    }

    /// The steps that write all the first sources.
    pub fn build(&self) -> (r: Vec<Step>)
        ensures
            r.deep_view() == cpp_sources_plan(self.dir()),
    {
        let mut plan = no_steps();
        push_step(&mut plan, self.header());
        push_step(&mut plan, self.lib());
        push_step(&mut plan, self.bin());
        push_steps(&mut plan, self.tests());
        plan
    }

    /// The step that writes the program.
    pub fn bin(&self) -> (r: Step)
        ensures
            r@ == source_step(self.dir(), "src"@, "main.cpp"@, cpp_bin_lines()),
    {
        let content = [
            "#include <iostream>",
            "#include \"lib.hpp\"\n",
            "int main(){",
            "  std::string name = \"World\";",
            "  std::cout << get_greeting(name) << std::endl;\n",
            "  return 0;",
            "}",
        ];
        assert(content.deep_view() =~= cpp_bin_lines());
        source_file(self.path.as_str(), "src", "main.cpp", &content)
    }

    /// The step that writes the library.
    pub fn lib(&self) -> (r: Step)
        ensures
            r@ == source_step(self.dir(), "src"@, "lib.cpp"@, cpp_lib_lines()),
    {
        let content = [
            "#include \"lib.hpp\"\n",
            "std::string get_greeting(const std::string& name) {",
            "  return \"Hello, \" + name + \"!\";",
            "}",
        ];
        assert(content.deep_view() =~= cpp_lib_lines());
        source_file(self.path.as_str(), "src", "lib.cpp", &content)
    }

    /// The step that writes the library's header.
    pub fn header(&self) -> (r: Step)
        ensures
            r@ == source_step(self.dir(), "include"@, "lib.hpp"@, cpp_header_lines()),
    {
        let content = [
            "#pragma once\n",
            "#include <string>\n",
            "std::string get_greeting(const std::string& name);",
        ];
        assert(content.deep_view() =~= cpp_header_lines());
        source_file(self.path.as_str(), "include", "lib.hpp", &content)
    }

    /// The steps that write the tests' entry point and the tests.
    pub fn tests(&self) -> (r: Vec<Step>)
        ensures
            r.deep_view() == seq![
                source_step(self.dir(), "test"@, "test_main.cpp"@, cpp_test_main_lines()),
                source_step(self.dir(), "test"@, "test_lib.cpp"@, cpp_test_lib_lines()),
            ],
    {
        let main_content = [
            "#include <gtest/gtest.h>\n",
            "int main(int argc, char** argv) {",
            "  ::testing::InitGoogleTest(&argc, argv);\n",
            "  return RUN_ALL_TESTS();",
            "}",
        ];
        assert(main_content.deep_view() =~= cpp_test_main_lines());
        let content = [
            "#include <gtest/gtest.h>\n",
            "#include \"lib.hpp\"\n",
            "TEST(GreetingTest, BasicTest) {",
            "  EXPECT_EQ(get_greeting(\"Test\"), \"Hello, Test!\");",
            "}\n",
        ];
        assert(content.deep_view() =~= cpp_test_lib_lines());
        let mut plan = no_steps();
        push_step(
            &mut plan,
            source_file(self.path.as_str(), "test", "test_main.cpp", &main_content),
        );
        push_step(&mut plan, source_file(self.path.as_str(), "test", "test_lib.cpp", &content));
        plan
    }
}

/// No step that lays a project out looks for a tool.
pub proof fn lemma_layout_searches_nothing(scaffolder: ScaffolderView, settings: Seq<char>)
    ensures
        forall|i: int|
            0 <= i < scaffolder.build_plan(settings).len() ==> !((
            #[trigger] scaffolder.build_plan(settings)[i]).action is Require),
{
    let dir = scaffolder.project_dir;
    assert forall|i: int| 0 <= i < structure_plan(dir).len() implies !((
    #[trigger] structure_plan(dir)[i]).action is Require) by {}
    assert forall|i: int| 0 <= i < sources_plan(dir, scaffolder.language).len() implies !((
    #[trigger] sources_plan(dir, scaffolder.language)[i]).action is Require) by {}
}

} // verus!
