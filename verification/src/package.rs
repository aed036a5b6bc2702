//! Package managers as a trait: each sets a project up with one command of
//! the shell, and exists only where its tool is on the search path.
use crate::error::{Error, ErrorView};
use crate::naming::variant_not_found;
use crate::plan::{locate, Step, StepView};
use crate::text::{glue3, same_text};
use crate::utils::{execute_cmd, shell_step};
use vstd::prelude::*;

verus! {

/// The package managers to choose from.
#[derive(Debug, Clone, Copy, PartialEq, Eq, Structural)]
pub enum PackageManagerEnum {
    Vcpkg,
    Conan,
}

impl PackageManagerEnum {
    /// The names of the choices, in order.
    pub open spec fn names() -> Seq<Seq<char>> {
        seq!["Vcpkg"@, "Conan"@]
    }

    /// The choice called `s`, if there is one.
    pub open spec fn parsed(s: Seq<char>) -> Option<PackageManagerEnum> {
        if s == "Vcpkg"@ {
            Some(PackageManagerEnum::Vcpkg)
        } else if s == "Conan"@ {
            Some(PackageManagerEnum::Conan)
        } else {
            None
        }
    }

    /// The names of the choices, in order.
    pub fn variants() -> (r: Vec<&'static str>)
        ensures
            r.deep_view() == Self::names(),
    {
        let r = vec!["Vcpkg", "Conan"];
        r
    }

    /// The choice called `s`; a parse error where `s` names none.
    pub fn from_str(s: &str) -> (r: Result<PackageManagerEnum, Error>)
        ensures
            match Self::parsed(s@) {
                Some(choice) => r matches Ok(x) && x == choice,
                None => r matches Err(e) && e@ == ErrorView::ParseError(
                    "Matching variant not found"@,
                ),
            },
    {
        if same_text(s, "Vcpkg") {
            Ok(PackageManagerEnum::Vcpkg)
        } else if same_text(s, "Conan") {
            Ok(PackageManagerEnum::Conan)
        } else {
            Err(Error::ParseError(variant_not_found()))
        }
    }
}

/// The command that sets the project in the directory `name` up: it
/// becomes an application of vcpkg, gets the port of Google Test, and has
/// its manifest installed.
pub open spec fn setup_command(name: Seq<char>) -> Seq<char> {
    "cd "@ + name + " && vcpkg new --application && vcpkg add port gtest && vcpkg install"@
}

/// The plan of [`setup_command`].
fn setup(name: &str) -> (r: Vec<Step>)
    ensures
        r.deep_view() == seq![shell_step(setup_command(name@))],
{
    let cmd = glue3(
        "cd ",
        name,
        " && vcpkg new --application && vcpkg add port gtest && vcpkg install",
    );
    execute_cmd(cmd.as_str())
}

/// A package manager: it sets a project up.
pub trait PackageManager {
    /// The steps of [`init`](PackageManager::init).
    spec fn init_plan(&self) -> Seq<StepView>;

    /// The steps that set the project up.
    fn init(&self) -> (r: Vec<Step>)
        ensures
            r.deep_view() == self.init_plan(),
    ;
}

/// vcpkg for one project.
pub struct VcpkgManager {
    project_name: String,
}

impl VcpkgManager {
    /// The name of the project.
    pub closed spec fn name(&self) -> Seq<char> {
        self.project_name@
    }

    /// vcpkg for the project `project_name`, where the search for vcpkg
    /// gave `found`; the error of a search that failed.
    pub fn found(project_name: &str, found: Result<String, Error>) -> (r: Result<Self, Error>)
        ensures
            match found {
                Ok(_) => r matches Ok(manager) && manager.name() == project_name@,
                Err(cause) => r matches Err(e) && e@ == cause@,
            },
    {
        match found {
            Ok(_) => Ok(VcpkgManager { project_name: project_name.to_string() }),
            Err(e) => Err(e),
        }
    }

    /// vcpkg for the project `project_name`, where vcpkg is on the search
    /// path; else a custom error with the words of the search.
    pub fn new(project_name: &str) -> (r: Result<Self, Error>)
        ensures
            r matches Ok(manager) ==> manager.name() == project_name@,
            r matches Err(e) ==> e@ is CustomError,
    {
        Self::found(project_name, locate("vcpkg"))
    }
}

impl PackageManager for VcpkgManager {
    open spec fn init_plan(&self) -> Seq<StepView> {
        seq![shell_step(setup_command(self.name()))]
    }

    fn init(&self) -> (r: Vec<Step>) {
        setup(self.project_name.as_str())
    }
}

/// Conan for one project.
pub struct ConanManager {
    project_name: String,
}

impl ConanManager {
    /// The name of the project.
    pub closed spec fn name(&self) -> Seq<char> {
        self.project_name@
    }

    /// Conan for the project `project_name`, where the search for Conan
    /// gave `found`; the error of a search that failed.
    pub fn found(project_name: &str, found: Result<String, Error>) -> (r: Result<Self, Error>)
        ensures
            match found {
                Ok(_) => r matches Ok(manager) && manager.name() == project_name@,
                Err(cause) => r matches Err(e) && e@ == cause@,
            },
    {
        match found {
            Ok(_) => Ok(ConanManager { project_name: project_name.to_string() }),
            Err(e) => Err(e),
        }
    }

    /// Conan for the project `project_name`, where Conan is on the search
    /// path; else a custom error with the words of the search.
    pub fn new(project_name: &str) -> (r: Result<Self, Error>)
        ensures
            r matches Ok(manager) ==> manager.name() == project_name@,
            r matches Err(e) ==> e@ is CustomError,
    {
        Self::found(project_name, locate("conan"))
    }
}

impl PackageManager for ConanManager {
    open spec fn init_plan(&self) -> Seq<StepView> {
        seq![shell_step(setup_command(self.name()))]
    }

    fn init(&self) -> (r: Vec<Step>) {
        setup(self.project_name.as_str())
    }
}

} // verus!
