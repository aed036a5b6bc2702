//! The descriptor of a project: the table of keys under which a project is
//! stored, how a project is put into it, and how it is read back.
use crate::build_system::{BuildSystem, BuildSystemView, BuildSystems};
use crate::config::{
    ForgeConfig, ForgeConfigView, ProjectConfig, ProjectConfigView, ToolsConfig, ToolsConfigView,
};
use crate::error::Error;
use crate::language::{CStandard, CppStandard, Language};
use crate::package_manager::{PackageManager, PackageManagerView, PackageManagers};
use crate::table::{
    new_table, table_entries, table_get, table_len, table_put, table_size, table_value,
    text_value, value_as_table, value_as_text, value_table, value_text,
};
use crate::test_framework::{TestFramework, TestFrameworkView, TestFrameworks};
use crate::text::glue3;
use vstd::prelude::*;

verus! {

/// The text under `key` in `t`, if `t` has that key with a string.
pub open spec fn text_at(t: toml::map::Map<String, toml::Value>, key: Seq<char>) -> Option<
    Seq<char>,
> {
    if table_entries(t).dom().contains(key) {
        value_text(table_entries(t)[key])
    } else {
        None
    }
}

/// The table under `key` in `t`, if `t` has that key with a table.
pub open spec fn table_at(t: toml::map::Map<String, toml::Value>, key: Seq<char>) -> Option<
    toml::map::Map<String, toml::Value>,
> {
    if table_entries(t).dom().contains(key) {
        value_table(table_entries(t)[key])
    } else {
        None
    }
}

/// The language that `t` describes: a table of one key, `C` or `Cpp`, with
/// the name of a standard of that language.
pub open spec fn decoded_language(t: toml::map::Map<String, toml::Value>) -> Option<Language> {
    if table_size(t) != 1 {
        None
    } else if text_at(t, "C"@) is Some {
        match CStandard::parsed(text_at(t, "C"@).unwrap()) {
            Some(standard) => Some(Language::C(standard)),
            None => None,
        }
    } else if text_at(t, "Cpp"@) is Some {
        match CppStandard::parsed(text_at(t, "Cpp"@).unwrap()) {
            Some(standard) => Some(Language::Cpp(standard)),
            None => None,
        }
    } else {
        None
    }
}

/// The test framework that `t` describes.
pub open spec fn decoded_framework(t: toml::map::Map<String, toml::Value>) -> Option<
    TestFrameworkView,
> {
    if text_at(t, "variant"@) is Some && text_at(t, "dir"@) is Some {
        match TestFrameworks::parsed(text_at(t, "variant"@).unwrap()) {
            Some(variant) => Some(TestFrameworkView { variant, dir: text_at(t, "dir"@).unwrap() }),
            None => None,
        }
    } else {
        None
    }
}

/// The test framework in the table under `key`.
pub open spec fn framework_at(t: toml::map::Map<String, toml::Value>, key: Seq<char>) -> Option<
    TestFrameworkView,
> {
    match table_at(t, key) {
        Some(sub) => decoded_framework(sub),
        None => None,
    }
}

/// The language in the table under `key`.
pub open spec fn language_at(t: toml::map::Map<String, toml::Value>, key: Seq<char>) -> Option<
    Language,
> {
    match table_at(t, key) {
        Some(sub) => decoded_language(sub),
        None => None,
    }
}

/// The package manager that `t` describes.
pub open spec fn decoded_package_manager(t: toml::map::Map<String, toml::Value>) -> Option<
    PackageManagerView,
> {
    if text_at(t, "variant"@) is Some && text_at(t, "directory"@) is Some && framework_at(
        t,
        "test_framework"@,
    ) is Some && language_at(t, "language"@) is Some {
        match PackageManagers::parsed(text_at(t, "variant"@).unwrap()) {
            Some(variant) => Some(
                PackageManagerView {
                    variant,
                    directory: text_at(t, "directory"@).unwrap(),
                    test_framework: framework_at(t, "test_framework"@).unwrap(),
                    language: language_at(t, "language"@).unwrap(),
                },
            ),
            None => None,
        }
    } else {
        None
    }
}

/// The build system that `t` describes.
pub open spec fn decoded_build_system(t: toml::map::Map<String, toml::Value>) -> Option<
    BuildSystemView,
> {
    if text_at(t, "name"@) is Some && text_at(t, "variant"@) is Some && text_at(
        t,
        "directory"@,
    ) is Some && framework_at(t, "test_framework"@) is Some && language_at(t, "language"@)
        is Some {
        match BuildSystems::parsed(text_at(t, "variant"@).unwrap()) {
            Some(variant) => Some(
                BuildSystemView {
                    name: text_at(t, "name"@).unwrap(),
                    variant,
                    directory: text_at(t, "directory"@).unwrap(),
                    test_framework: framework_at(t, "test_framework"@).unwrap(),
                    language: language_at(t, "language"@).unwrap(),
                },
            ),
            None => None,
        }
    } else {
        None
    }
}

/// What the project is, as `t` describes it.
pub open spec fn decoded_project(t: toml::map::Map<String, toml::Value>) -> Option<
    ProjectConfigView,
> {
    if text_at(t, "name"@) is Some && language_at(t, "language"@) is Some {
        Some(
            ProjectConfigView {
                name: text_at(t, "name"@).unwrap(),
                language: language_at(t, "language"@).unwrap(),
            },
        )
    } else {
        None
    }
}

/// The package manager in the table under `key`.
pub open spec fn package_manager_at(
    t: toml::map::Map<String, toml::Value>,
    key: Seq<char>,
) -> Option<PackageManagerView> {
    match table_at(t, key) {
        Some(sub) => decoded_package_manager(sub),
        None => None,
    }
}

/// The build system in the table under `key`.
pub open spec fn build_system_at(t: toml::map::Map<String, toml::Value>, key: Seq<char>) -> Option<
    BuildSystemView,
> {
    match table_at(t, key) {
        Some(sub) => decoded_build_system(sub),
        None => None,
    }
}

/// The tools that `t` describes.
pub open spec fn decoded_tools(t: toml::map::Map<String, toml::Value>) -> Option<ToolsConfigView> {
    if text_at(t, "compiler_path"@) is Some && package_manager_at(t, "package_manager"@) is Some
        && build_system_at(t, "build_system"@) is Some && framework_at(t, "test_framework"@)
        is Some && text_at(t, "intellisense_mode"@) is Some {
        Some(
            ToolsConfigView {
                compiler_path: text_at(t, "compiler_path"@).unwrap(),
                package_manager: package_manager_at(t, "package_manager"@).unwrap(),
                build_system: build_system_at(t, "build_system"@).unwrap(),
                test_framework: framework_at(t, "test_framework"@).unwrap(),
                intellisense_mode: text_at(t, "intellisense_mode"@).unwrap(),
            },
        )
    } else {
        None
    }
}

/// What the project is, in the table under `key`.
pub open spec fn project_at(t: toml::map::Map<String, toml::Value>, key: Seq<char>) -> Option<
    ProjectConfigView,
> {
    match table_at(t, key) {
        Some(sub) => decoded_project(sub),
        None => None,
    }
}

/// The tools in the table under `key`.
pub open spec fn tools_at(t: toml::map::Map<String, toml::Value>, key: Seq<char>) -> Option<
    ToolsConfigView,
> {
    match table_at(t, key) {
        Some(sub) => decoded_tools(sub),
        None => None,
    }
}

/// The project that `t` describes, or `None` where a field is missing, is
/// of another kind than it should be, or names no choice. Keys that a
/// project does not have are passed over, but in the table of a language.
pub open spec fn decoded_config(t: toml::map::Map<String, toml::Value>) -> Option<ForgeConfigView> {
    if text_at(t, "directory"@) is Some && project_at(t, "project"@) is Some && tools_at(
        t,
        "tools"@,
    ) is Some {
        Some(
            ForgeConfigView {
                directory: text_at(t, "directory"@).unwrap(),
                project: project_at(t, "project"@).unwrap(),
                tools: tools_at(t, "tools"@).unwrap(),
            },
        )
    } else {
        None
    }
}

/// The key under which a language is stored.
pub open spec fn language_key(language: Language) -> Seq<char> {
    match language {
        Language::C(_) => "C"@,
        Language::Cpp(_) => "Cpp"@,
    }
}

/// Whether `t` holds exactly `language`: one key, with the standard's name.
pub open spec fn holds_language(t: toml::map::Map<String, toml::Value>, language: Language) -> bool {
    &&& table_size(t) == 1
    &&& table_entries(t).dom() =~= set![language_key(language)]
    &&& text_at(t, language_key(language)) == Some(language.name())
}

/// Whether `t` holds exactly the test framework `f`.
pub open spec fn holds_framework(
    t: toml::map::Map<String, toml::Value>,
    f: TestFrameworkView,
) -> bool {
    &&& table_entries(t).dom() =~= set!["variant"@, "dir"@]
    &&& text_at(t, "variant"@) == Some(f.variant.name())
    &&& text_at(t, "dir"@) == Some(f.dir)
}

/// Whether `t` holds exactly the package manager `p`.
pub open spec fn holds_package_manager(
    t: toml::map::Map<String, toml::Value>,
    p: PackageManagerView,
) -> bool {
    &&& table_entries(t).dom() =~= set![
        "variant"@,
        "directory"@,
        "test_framework"@,
        "language"@,
    ]
    &&& text_at(t, "variant"@) == Some(p.variant.name())
    &&& text_at(t, "directory"@) == Some(p.directory)
    &&& table_at(t, "test_framework"@) matches Some(sub) && holds_framework(sub, p.test_framework)
    &&& table_at(t, "language"@) matches Some(sub) && holds_language(sub, p.language)
}

/// Whether `t` holds exactly the build system `b`.
pub open spec fn holds_build_system(
    t: toml::map::Map<String, toml::Value>,
    b: BuildSystemView,
) -> bool {
    &&& table_entries(t).dom() =~= set![
        "name"@,
        "variant"@,
        "directory"@,
        "test_framework"@,
        "language"@,
    ]
    &&& text_at(t, "name"@) == Some(b.name)
    &&& text_at(t, "variant"@) == Some(b.variant.name())
    &&& text_at(t, "directory"@) == Some(b.directory)
    &&& table_at(t, "test_framework"@) matches Some(sub) && holds_framework(sub, b.test_framework)
    &&& table_at(t, "language"@) matches Some(sub) && holds_language(sub, b.language)
}

/// Whether `t` holds exactly what the project `p` is.
pub open spec fn holds_project(
    t: toml::map::Map<String, toml::Value>,
    p: ProjectConfigView,
) -> bool {
    &&& table_entries(t).dom() =~= set!["name"@, "language"@]
    &&& text_at(t, "name"@) == Some(p.name)
    &&& table_at(t, "language"@) matches Some(sub) && holds_language(sub, p.language)
}

/// Whether `t` holds exactly the tools `tools`.
pub open spec fn holds_tools(t: toml::map::Map<String, toml::Value>, tools: ToolsConfigView) -> bool {
    &&& table_entries(t).dom() =~= set![
        "compiler_path"@,
        "package_manager"@,
        "build_system"@,
        "test_framework"@,
        "intellisense_mode"@,
    ]
    &&& text_at(t, "compiler_path"@) == Some(tools.compiler_path)
    &&& table_at(t, "package_manager"@) matches Some(sub) && holds_package_manager(
        sub,
        tools.package_manager,
    )
    &&& table_at(t, "build_system"@) matches Some(sub) && holds_build_system(
        sub,
        tools.build_system,
    )
    &&& table_at(t, "test_framework"@) matches Some(sub) && holds_framework(
        sub,
        tools.test_framework,
    )
    &&& text_at(t, "intellisense_mode"@) == Some(tools.intellisense_mode)
}

/// Whether `t` is a descriptor of `config`: it has the keys of a project
/// and no other, and under each what `config` has in that field.
pub open spec fn holds_config(t: toml::map::Map<String, toml::Value>, config: ForgeConfigView) -> bool {
    &&& table_entries(t).dom() =~= set!["directory"@, "project"@, "tools"@]
    &&& text_at(t, "directory"@) == Some(config.directory)
    &&& table_at(t, "project"@) matches Some(sub) && holds_project(sub, config.project)
    &&& table_at(t, "tools"@) matches Some(sub) && holds_tools(sub, config.tools)
}

/// A table that holds a language reads back as that language.
pub proof fn lemma_language_round_trip(t: toml::map::Map<String, toml::Value>, language: Language)
    requires
        holds_language(t, language),
    ensures
        decoded_language(t) == Some(language),
{
    reveal_strlit("C");
    reveal_strlit("Cpp");
    assert("C"@.len() != "Cpp"@.len());
    match language {
        Language::C(standard) => {
            standard.lemma_name_round_trip();
        },
        Language::Cpp(standard) => {
            standard.lemma_name_round_trip();
        },
    }
}

/// A table that holds a test framework reads back as that framework.
pub proof fn lemma_framework_round_trip(
    t: toml::map::Map<String, toml::Value>,
    f: TestFrameworkView,
)
    requires
        holds_framework(t, f),
    ensures
        decoded_framework(t) == Some(f),
{
    f.variant.lemma_name_round_trip();
}

/// A table that holds a package manager reads back as that package manager.
pub proof fn lemma_package_manager_round_trip(
    t: toml::map::Map<String, toml::Value>,
    p: PackageManagerView,
)
    requires
        holds_package_manager(t, p),
    ensures
        decoded_package_manager(t) == Some(p),
{
    p.variant.lemma_name_round_trip();
    lemma_framework_round_trip(table_at(t, "test_framework"@).unwrap(), p.test_framework);
    lemma_language_round_trip(table_at(t, "language"@).unwrap(), p.language);
}

/// A table that holds a build system reads back as that build system.
pub proof fn lemma_build_system_round_trip(
    t: toml::map::Map<String, toml::Value>,
    b: BuildSystemView,
)
    requires
        holds_build_system(t, b),
    ensures
        decoded_build_system(t) == Some(b),
{
    b.variant.lemma_name_round_trip();
    lemma_framework_round_trip(table_at(t, "test_framework"@).unwrap(), b.test_framework);
    lemma_language_round_trip(table_at(t, "language"@).unwrap(), b.language);
}

/// Every descriptor of a project reads back as that project, equal in every
/// field: the directory, the name and the language, the compiler's path, the
/// package manager, the build system and the test framework with all that
/// they hold, and the editor's mode.
pub proof fn lemma_descriptor_round_trip(
    t: toml::map::Map<String, toml::Value>,
    config: ForgeConfigView,
)
    requires
        holds_config(t, config),
    ensures
        decoded_config(t) == Some(config),
{
    let project = table_at(t, "project"@).unwrap();
    lemma_language_round_trip(table_at(project, "language"@).unwrap(), config.project.language);
    let tools = table_at(t, "tools"@).unwrap();
    lemma_package_manager_round_trip(
        table_at(tools, "package_manager"@).unwrap(),
        config.tools.package_manager,
    );
    lemma_build_system_round_trip(
        table_at(tools, "build_system"@).unwrap(),
        config.tools.build_system,
    );
    lemma_framework_round_trip(
        table_at(tools, "test_framework"@).unwrap(),
        config.tools.test_framework,
    );
}

/// The lengths of the keys of a descriptor: keys of one table differ in length.
proof fn lemma_key_lengths()
    ensures
        "directory"@.len() == 9,
        "project"@.len() == 7,
        "tools"@.len() == 5,
        "name"@.len() == 4,
        "language"@.len() == 8,
        "compiler_path"@.len() == 13,
        "package_manager"@.len() == 15,
        "build_system"@.len() == 12,
        "test_framework"@.len() == 14,
        "intellisense_mode"@.len() == 17,
        "variant"@.len() == 7,
        "dir"@.len() == 3,
        "C"@.len() == 1,
        "Cpp"@.len() == 3,
{
    reveal_strlit("directory");
    reveal_strlit("project");
    reveal_strlit("tools");
    reveal_strlit("name");
    reveal_strlit("language");
    reveal_strlit("compiler_path");
    reveal_strlit("package_manager");
    reveal_strlit("build_system");
    reveal_strlit("test_framework");
    reveal_strlit("intellisense_mode");
    reveal_strlit("variant");
    reveal_strlit("dir");
    reveal_strlit("C");
    reveal_strlit("Cpp");
}

/// The table of a language.
fn language_table(language: Language) -> (r: toml::map::Map<String, toml::Value>)
    ensures
        holds_language(r, language),
{
    let mut t = new_table();
    match language {
        Language::C(standard) => table_put(&mut t, "C", text_value(standard.as_str())),
        Language::Cpp(standard) => table_put(&mut t, "Cpp", text_value(standard.as_str())),
    }
    t
}

/// The table of a test framework.
fn framework_table(f: &TestFramework) -> (r: toml::map::Map<String, toml::Value>)
    ensures
        holds_framework(r, f@),
{
    proof {
        lemma_key_lengths();
    }
    let mut t = new_table();
    table_put(&mut t, "variant", text_value(f.as_str()));
    table_put(&mut t, "dir", text_value(f.dir()));
    t
}

/// The table of a package manager.
fn package_manager_table(p: &PackageManager) -> (r: toml::map::Map<String, toml::Value>)
    ensures
        holds_package_manager(r, p@),
{
    proof {
        lemma_key_lengths();
    }
    let mut t = new_table();
    table_put(&mut t, "variant", text_value(p.variant().as_str()));
    table_put(&mut t, "directory", text_value(p.directory()));
    table_put(&mut t, "test_framework", table_value(framework_table(p.test_framework())));
    table_put(&mut t, "language", table_value(language_table(p.language())));
    t
}

/// The table of a build system.
fn build_system_table(b: &BuildSystem) -> (r: toml::map::Map<String, toml::Value>)
    ensures
        holds_build_system(r, b@),
{
    proof {
        lemma_key_lengths();
    }
    let mut t = new_table();
    table_put(&mut t, "name", text_value(b.name()));
    table_put(&mut t, "variant", text_value(b.variant().as_str()));
    table_put(&mut t, "directory", text_value(b.directory()));
    table_put(&mut t, "test_framework", table_value(framework_table(b.test_framework())));
    table_put(&mut t, "language", table_value(language_table(b.language())));
    t
}

/// The table of what a project is.
fn project_table(p: &ProjectConfig) -> (r: toml::map::Map<String, toml::Value>)
    ensures
        holds_project(r, p@),
{
    proof {
        lemma_key_lengths();
    }
    let mut t = new_table();
    table_put(&mut t, "name", text_value(p.name()));
    table_put(&mut t, "language", table_value(language_table(p.language())));
    t
}

/// The table of a project's tools.
fn tools_table(tools: &ToolsConfig) -> (r: toml::map::Map<String, toml::Value>)
    ensures
        holds_tools(r, tools@),
{
    proof {
        lemma_key_lengths();
    }
    let mut t = new_table();
    table_put(&mut t, "compiler_path", text_value(tools.compiler_path()));
    table_put(
        &mut t,
        "package_manager",
        table_value(package_manager_table(tools.package_manager())),
    );
    table_put(&mut t, "build_system", table_value(build_system_table(tools.build_system())));
    table_put(&mut t, "test_framework", table_value(framework_table(tools.test_framework())));
    table_put(&mut t, "intellisense_mode", text_value(tools.intellisense_mode()));
    t
}

/// The descriptor of `config`: a table with the keys of a project and what
/// `config` has in each field.
pub fn to_table(config: &ForgeConfig) -> (r: toml::map::Map<String, toml::Value>)
    ensures
        holds_config(r, config@),
{
    proof {
        lemma_key_lengths();
    }
    let mut t = new_table();
    table_put(&mut t, "directory", text_value(config.directory()));
    table_put(&mut t, "project", table_value(project_table(config.project())));
    table_put(&mut t, "tools", table_value(tools_table(config.tools())));
    t
}

/// The error of a descriptor that lacks `key` or has something else than
/// it should under it.
fn missing(key: &str) -> (r: Error)
    ensures
        r@ is TomlDeError,
{
    Error::TomlDeError(glue3("missing field `", key, "`"))
}

/// The text under `key`.
fn text_field(t: &toml::map::Map<String, toml::Value>, key: &str) -> (r: Result<String, Error>)
    ensures
        match text_at(*t, key@) {
            Some(s) => r matches Ok(x) && x@ == s,
            None => r matches Err(e) && e@ is TomlDeError,
        },
{
    match table_get(t, key) {
        Some(v) => match value_as_text(v) {
            Some(s) => Ok(s.to_string()),
            None => Err(missing(key)),
        },
        None => Err(missing(key)),
    }
}

/// The table under `key`.
fn table_field<'a>(t: &'a toml::map::Map<String, toml::Value>, key: &str) -> (r: Result<
    &'a toml::map::Map<String, toml::Value>,
    Error,
>)
    ensures
        match table_at(*t, key@) {
            Some(sub) => r matches Ok(x) && *x == sub,
            None => r matches Err(e) && e@ is TomlDeError,
        },
{
    match table_get(t, key) {
        Some(v) => match value_as_table(v) {
            Some(sub) => Ok(sub),
            None => Err(missing(key)),
        },
        None => Err(missing(key)),
    }
}

/// The error of a descriptor in which `found` stands where the name of a
/// choice should.
fn unknown(found: &str) -> (r: Error)
    ensures
        r@ is TomlDeError,
{
    Error::TomlDeError(glue3("unknown variant `", found, "`"))
}

/// The language that `t` describes.
fn language_from(t: &toml::map::Map<String, toml::Value>) -> (r: Result<Language, Error>)
    ensures
        match decoded_language(*t) {
            Some(language) => r matches Ok(x) && x == language,
            None => r matches Err(e) && e@ is TomlDeError,
        },
{
    if table_len(t) != 1 {
        return Err(Error::TomlDeError("wanted exactly 1 element".to_string()));
    }
    match text_field(t, "C") {
        Ok(found) => match CStandard::parse(found.as_str()) {
            Some(standard) => Ok(Language::C(standard)),
            None => Err(unknown(found.as_str())),
        },
        Err(_) => match text_field(t, "Cpp") {
            Ok(found) => match CppStandard::parse(found.as_str()) {
                Some(standard) => Ok(Language::Cpp(standard)),
                None => Err(unknown(found.as_str())),
            },
            Err(e) => Err(e),
        },
    }
}

/// The test framework that `t` describes.
fn framework_from(t: &toml::map::Map<String, toml::Value>) -> (r: Result<TestFramework, Error>)
    ensures
        match decoded_framework(*t) {
            Some(f) => r matches Ok(x) && x@ == f,
            None => r matches Err(e) && e@ is TomlDeError,
        },
{
    let variant = text_field(t, "variant")?;
    let dir = text_field(t, "dir")?;
    match TestFrameworks::parse(variant.as_str()) {
        Some(variant) => Ok(TestFramework::new(variant, dir)),
        None => Err(unknown(variant.as_str())),
    }
}

/// The package manager that `t` describes.
fn package_manager_from(t: &toml::map::Map<String, toml::Value>) -> (r: Result<
    PackageManager,
    Error,
>)
    ensures
        match decoded_package_manager(*t) {
            Some(p) => r matches Ok(x) && x@ == p,
            None => r matches Err(e) && e@ is TomlDeError,
        },
{
    let variant = text_field(t, "variant")?;
    let directory = text_field(t, "directory")?;
    let test_framework = framework_from(table_field(t, "test_framework")?)?;
    let language = language_from(table_field(t, "language")?)?;
    match PackageManagers::parse(variant.as_str()) {
        Some(variant) => Ok(PackageManager::new(variant, directory, test_framework, language)),
        None => Err(unknown(variant.as_str())),
    }
}

/// The build system that `t` describes.
fn build_system_from(t: &toml::map::Map<String, toml::Value>) -> (r: Result<BuildSystem, Error>)
    ensures
        match decoded_build_system(*t) {
            Some(b) => r matches Ok(x) && x@ == b,
            None => r matches Err(e) && e@ is TomlDeError,
        },
{
    let name = text_field(t, "name")?;
    let variant = text_field(t, "variant")?;
    let directory = text_field(t, "directory")?;
    let test_framework = framework_from(table_field(t, "test_framework")?)?;
    let language = language_from(table_field(t, "language")?)?;
    match BuildSystems::parse(variant.as_str()) {
        Some(variant) => Ok(BuildSystem::new(name, variant, directory, test_framework, language)),
        None => Err(unknown(variant.as_str())),
    }
}

/// What the project is, as `t` describes it.
fn project_from(t: &toml::map::Map<String, toml::Value>) -> (r: Result<ProjectConfig, Error>)
    ensures
        match decoded_project(*t) {
            Some(p) => r matches Ok(x) && x@ == p,
            None => r matches Err(e) && e@ is TomlDeError,
        },
{
    let name = text_field(t, "name")?;
    let language = language_from(table_field(t, "language")?)?;
    Ok(ProjectConfig::new(name, language))
}

/// The tools that `t` describes.
fn tools_from(t: &toml::map::Map<String, toml::Value>) -> (r: Result<ToolsConfig, Error>)
    ensures
        match decoded_tools(*t) {
            Some(tools) => r matches Ok(x) && x@ == tools,
            None => r matches Err(e) && e@ is TomlDeError,
        },
{
    let compiler_path = text_field(t, "compiler_path")?;
    let package_manager = package_manager_from(table_field(t, "package_manager")?)?;
    let build_system = build_system_from(table_field(t, "build_system")?)?;
    let test_framework = framework_from(table_field(t, "test_framework")?)?;
    let intellisense_mode = text_field(t, "intellisense_mode")?;
    Ok(
        ToolsConfig::new(
            compiler_path,
            package_manager,
            build_system,
            test_framework,
            intellisense_mode,
        ),
    )
}

/// The project that the descriptor `t` describes; an error of reading TOML
/// where `t` describes none.
pub fn from_table(t: &toml::map::Map<String, toml::Value>) -> (r: Result<ForgeConfig, Error>)
    ensures
        match decoded_config(*t) {
            Some(config) => r matches Ok(x) && x@ == config,
            None => r matches Err(e) && e@ is TomlDeError,
        },
{
    let directory = text_field(t, "directory")?;
    let project = project_from(table_field(t, "project")?)?;
    let tools = tools_from(table_field(t, "tools")?)?;
    Ok(ForgeConfig::from_parts(directory, project, tools))
}

} // verus!
