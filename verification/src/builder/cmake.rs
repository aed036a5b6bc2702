//! CMake as a build system that is set up piece by piece.
use crate::builder::{BuildSystem, TestFrameworkEnum};
use crate::plan::{no_steps, push_step, write_file, written, Step, StepView};
use crate::text::{
    glue2, glue3, glue5, glue7, join, joined, no_texts, push_owned, push_text, texts_of,
};
use crate::utils::{shell, shell_step};
use vstd::prelude::*;

verus! {

/// What CMake is told of a project.
pub struct CMakeBuilder {
    pub name: String,
    pub path: String,
    pub version: String,
    pub language: String,
    pub standard: String,
    pub test_framework: TestFrameworkEnum,
}

/// A [`CMakeBuilder`] over sequences of characters.
pub struct CMakeBuilderView {
    pub name: Seq<char>,
    pub path: Seq<char>,
    pub version: Seq<char>,
    pub language: Seq<char>,
    pub standard: Seq<char>,
    pub test_framework: TestFrameworkEnum,
}

impl View for CMakeBuilder {
    type V = CMakeBuilderView;

    open spec fn view(&self) -> CMakeBuilderView {
        CMakeBuilderView {
            name: self.name@,
            path: self.path@,
            version: self.version@,
            language: self.language@,
            standard: self.standard@,
            test_framework: self.test_framework,
        }
    }
}

/// The lines that set the tests of the project `name` up with Google Test.
pub open spec fn google_test_lines(name: Seq<char>) -> Seq<Seq<char>> {
    seq![
        "enable_testing()"@,
        "find_package(GTest REQUIRED)\n"@,
        "add_executable("@ + name + "Tests tests/test_lib.cpp)"@,
        "target_link_libraries("@ + name
            + "Tests PRIVATE\n                GTest::gtest\n                GTest::gtest_main\n                "@
            + name + "Lib\n            )"@,
        "target_include_directories("@ + name
            + "Tests PRIVATE \n                include/ \n                src/\n            )"@,
        "add_test(NAME "@ + name + "Tests COMMAND "@ + name + "Tests)"@,
    ]
}

/// The lines with which every other test setup starts, and ends.
pub open spec fn plain_test_lines() -> Seq<Seq<char>> {
    seq!["enable_testing()"@, "find_package(GTest REQUIRED)\n"@]
}

impl CMakeBuilderView {
    /// The test setup for the framework that was chosen.
    pub open spec fn test_text(self) -> Seq<char> {
        match self.test_framework {
            TestFrameworkEnum::GTest => joined(google_test_lines(self.name), "\n"@),
            TestFrameworkEnum::Boost => joined(plain_test_lines(), "\n"@),
            TestFrameworkEnum::Unit => joined(plain_test_lines(), "\n"@),
            TestFrameworkEnum::Nothing => Seq::empty(),
        }
    }

    /// The lines of the description: the project and its language
    /// standard, the library, the program, and the test setup.
    pub open spec fn lines(self) -> Seq<Seq<char>> {
        seq![
            "# General"@,
            "cmake_minimum_required(VERSION 3.14)"@,
            "project("@ + self.name + " VERSION "@ + self.version + " LANGUAGES "@ + self.language
                + ")"@,
            "set(CMAKE_"@ + self.language + "_STANDARD "@ + self.standard + ")"@,
            "set(CMAKE_"@ + self.language + "_STANDARD_REQUIRED ON)\n"@,
            "# Library"@,
            "add_library("@ + self.name + "Lib src/lib.cpp)"@,
            "target_include_directories("@ + self.name + "Lib PUBLIC include/ lib/)\n"@,
            "# Binary"@,
            "add_executable("@ + self.name + " src/main.cpp)"@,
            "target_link_libraries("@ + self.name + " PRIVATE "@ + self.name + "Lib)\n"@,
            "# Testing"@,
            self.test_text(),
        ]
    }

    /// The commands that configure the build with a compile database and
    /// link the database into the project's directory.
    pub open spec fn commands(self) -> Seq<Seq<char>> {
        seq![
            "cd "@ + self.name + " && cmake -B build -DCMAKE_EXPORT_COMPILE_COMMANDS=ON"@,
            "cd "@ + self.name + " && ln -sf build/compile_commands.json compile_commands.json"@,
        ]
    }
}

impl CMakeBuilder {
    /// CMake for the project `name`: version 1.0, C++20, no test framework,
    /// described in the `CMakeLists.txt` of the directory `name`.
    pub fn new(name: &str) -> (r: Self)
        ensures
            r@ == (CMakeBuilderView {
                name: name@,
                path: name@ + "/CMakeLists.txt"@,
                version: "1.0"@,
                language: "CXX"@,
                standard: "20"@,
                test_framework: TestFrameworkEnum::Nothing,
            }),
    {
        Self {
            name: name.to_string(),
            path: glue2(name, "/CMakeLists.txt"),
            version: "1.0".to_string(),
            language: "CXX".to_string(),
            standard: "20".to_string(),
            test_framework: TestFrameworkEnum::Nothing,
        }
    }

    /// The same with the language `lang`.
    pub fn language(self, lang: &str) -> (r: Self)
        ensures
            r@ == (CMakeBuilderView { language: lang@, ..self@ }),
    {
        let mut this = self;
        this.language = lang.to_string();
        this
    }

    /// The same with the standard `std`.
    pub fn standard(self, std: &str) -> (r: Self)
        ensures
            r@ == (CMakeBuilderView { standard: std@, ..self@ }),
    {
        let mut this = self;
        this.standard = std.to_string();
        this
    }

    /// The same with the test framework `framework`.
    pub fn framework(self, framework: &TestFrameworkEnum) -> (r: Self)
        ensures
            r@ == (CMakeBuilderView { test_framework: *framework, ..self@ }),
    {
        let mut this = self;
        this.test_framework = *framework;
        this
    }

    /// The two lines of a test setup that sets no test target up.
    fn plain_test() -> (r: String)
        ensures
            r@ == joined(plain_test_lines(), "\n"@),
    {
        let content = ["enable_testing()", "find_package(GTest REQUIRED)\n"];
        assert(content.deep_view() =~= plain_test_lines());
        join(&texts_of(&content), "\n")
    }
}

impl BuildSystem for CMakeBuilder {
    open spec fn init_plan(&self) -> Seq<StepView> {
        seq![written(seq![self@.path], joined(self@.lines(), "\n"@))]
    }

    open spec fn build_plan(&self) -> Seq<StepView> {
        seq![shell_step(self@.commands()[0]), shell_step(self@.commands()[1])]
    }

    open spec fn google_test_text(&self) -> Seq<char> {
        joined(google_test_lines(self@.name), "\n"@)
    }

    open spec fn boost_test_text(&self) -> Seq<char> {
        joined(plain_test_lines(), "\n"@)
    }

    open spec fn unit_test_text(&self) -> Seq<char> {
        joined(plain_test_lines(), "\n"@)
    }

    fn google_test(&self) -> (r: String) {
        let name = self.name.as_str();
        let mut content = no_texts();
        push_text(&mut content, "enable_testing()");
        push_text(&mut content, "find_package(GTest REQUIRED)\n");
        push_owned(&mut content, glue3("add_executable(", name, "Tests tests/test_lib.cpp)"));
        push_owned(
            &mut content,
            glue5(
                "target_link_libraries(",
                name,
                "Tests PRIVATE\n                GTest::gtest\n                GTest::gtest_main\n                ",
                name,
                "Lib\n            )",
            ),
        );
        push_owned(
            &mut content,
            glue3(
                "target_include_directories(",
                name,
                "Tests PRIVATE \n                include/ \n                src/\n            )",
            ),
        );
        push_owned(&mut content, glue5("add_test(NAME ", name, "Tests COMMAND ", name, "Tests)"));
        assert(content.deep_view() =~= google_test_lines(self@.name));
        join(&content, "\n")
    }

    fn boost_test(&self) -> (r: String) {
        Self::plain_test()
    }

    fn unit_test(&self) -> (r: String) {
        Self::plain_test()
    }

    fn init(&self) -> (r: Vec<Step>) {
        let name = self.name.as_str();
        let language = self.language.as_str();
        let mut cmake = no_texts();
        push_text(&mut cmake, "# General");
        push_text(&mut cmake, "cmake_minimum_required(VERSION 3.14)");
        push_owned(
            &mut cmake,
            glue7(
                "project(",
                name,
                " VERSION ",
                self.version.as_str(),
                " LANGUAGES ",
                language,
                ")",
            ),
        );
        push_owned(
            &mut cmake,
            glue5("set(CMAKE_", language, "_STANDARD ", self.standard.as_str(), ")"),
        );
        push_owned(&mut cmake, glue3("set(CMAKE_", language, "_STANDARD_REQUIRED ON)\n"));

        push_text(&mut cmake, "# Library");
        push_owned(&mut cmake, glue3("add_library(", name, "Lib src/lib.cpp)"));
        push_owned(
            &mut cmake,
            glue3("target_include_directories(", name, "Lib PUBLIC include/ lib/)\n"),
        );

        push_text(&mut cmake, "# Binary");
        push_owned(&mut cmake, glue3("add_executable(", name, " src/main.cpp)"));
        push_owned(&mut cmake, glue5("target_link_libraries(", name, " PRIVATE ", name, "Lib)\n"));

        push_text(&mut cmake, "# Testing");
        push_owned(&mut cmake, self.test_init(&self.test_framework));
        assert(cmake.deep_view() =~= self@.lines());

        let content = join(&cmake, "\n");
        let mut path = no_texts();
        push_text(&mut path, self.path.as_str());
        let mut plan = no_steps();
        push_step(&mut plan, write_file(path, content));
        plan
    }

    fn build(&self) -> (r: Vec<Step>) {
        let name = self.name.as_str();
        let configure = glue3("cd ", name, " && cmake -B build -DCMAKE_EXPORT_COMPILE_COMMANDS=ON");
        let link = glue3(
            "cd ",
            name,
            " && ln -sf build/compile_commands.json compile_commands.json",
        );
        let mut plan = no_steps();
        push_step(&mut plan, shell(configure.as_str()));
        push_step(&mut plan, shell(link.as_str()));
        plan
    }
}

} // verus!
