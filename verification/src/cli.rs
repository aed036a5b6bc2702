//! The commands of the tool: what each one asks of a project.
//!
//! The caller reads the command line, looks around, and does what the steps
//! say. Which steps a command leads to is decided here.
pub mod building;
pub mod clean;
pub mod config;
pub mod init;
pub mod new;
pub mod prompter;
pub mod run;
pub mod testing;

use crate::cli::building::BuildArgs;
use crate::cli::clean::CleanArgs;
use crate::cli::config::ConfigArgs;
use crate::cli::init::{started, InitArgs};
use crate::cli::new::{created, NewArgs};
use crate::cli::prompter::{can_refuse, Prompter};
use crate::cli::run::RunArgs;
use crate::cli::testing::TestArgs;
use crate::config::{ForgeConfig, ForgeConfigView};
use crate::descriptor::decoded_config;
use crate::error::Error;
use crate::plan::{planned, Step, StepView};
use crate::table::toml_table;
use vstd::prelude::*;

verus! {

/// A command line that was read.
#[derive(Debug)]
pub struct Cli {
    pub command: Commands,
}

/// The commands.
#[derive(Debug)]
pub enum Commands {
    /// Configure the build of an existing project.
    Config(ConfigArgs),
    /// Build an existing project.
    Build(BuildArgs),
    /// Initialize a project in the working directory.
    Init(InitArgs),
    /// Create a new project including its directory.
    New(NewArgs),
    /// Run the program that was built.
    Run(RunArgs),
    /// Run the tests that were built.
    Test(TestArgs),
    /// Clean build artifacts.
    Clean(CleanArgs),
}

/// What the caller found where the tool was started.
#[derive(Debug)]
pub struct Place {
    /// The directory of the project: for a new project the directory that
    /// is to be created, else the working directory.
    pub directory: String,
    /// The last part of the working directory's path, where it has one that is text.
    pub name: Option<String>,
    /// The text of the descriptor in the working directory, or why it could not be read.
    pub descriptor: Result<String, Error>,
}

/// The project that a descriptor describes, where it could be read, is a
/// TOML document and holds a project.
pub open spec fn loaded(descriptor: Result<String, Error>) -> Option<ForgeConfigView> {
    match descriptor {
        Ok(text) => match toml_table(text@) {
            Some(t) => decoded_config(t),
            None => None,
        },
        Err(_) => None,
    }
}

/// The project of the working directory: the one its descriptor describes.
/// The error with which the descriptor could not be read is handed on; a
/// descriptor that describes no project is an error of reading TOML.
pub fn load(place: &Place) -> (r: Result<ForgeConfig, Error>)
    ensures
        match loaded(place.descriptor) {
            Some(config) => r matches Ok(c) && c@ == config,
            None => r matches Err(e) && match place.descriptor {
                Ok(_) => e@ is TomlDeError,
                Err(cause) => e@ == cause@,
            },
        },
{
    match &place.descriptor {
        Ok(text) => ForgeConfig::from_file(text.as_str()),
        Err(cause) => Err(cause.clone()),
    }
}

/// The steps that `command` asks of the project `config`, for the commands
/// that work on an existing project.
pub open spec fn asked(command: Commands, config: ForgeConfigView) -> Seq<StepView> {
    match command {
        Commands::Config(args) => args.plan(config),
        Commands::Build(args) => args.plan(config),
        Commands::Run(args) => args.plan(config),
        Commands::Test(args) => args.plan(config),
        Commands::Clean(args) => args.plan(config),
        Commands::Init(_) => Seq::empty(),
        Commands::New(_) => Seq::empty(),
    }
}

impl Commands {
    /// Whether the command works on the project of the working directory,
    /// and so needs its descriptor.
    pub open spec fn needs_project(self) -> bool {
        match self {
            Commands::Init(_) => false,
            Commands::New(_) => false,
            Commands::Test(args) => !args.help,
            _ => true,
        }
    }

    /// The steps of the command. `new` and `init` ask `prompter` for the
    /// choices and set a project up; the test runner's help needs no
    /// project; every other command reads the project of the working
    /// directory from its descriptor first, and fails where there is none.
    pub fn process_command<P: Prompter>(&self, place: &Place, prompter: &P) -> (r: Result<
        Vec<Step>,
        Error,
    >)
        ensures
            self.needs_project() ==> match loaded(place.descriptor) {
                Some(config) => r matches Ok(plan) && plan.deep_view() == asked(*self, config),
                None => r matches Err(e) && match place.descriptor {
                    Ok(_) => e@ is TomlDeError,
                    Err(cause) => e@ == cause@,
                },
            },
            (self matches Commands::Test(args) && args.help) ==> (r matches Ok(plan)
                && plan.deep_view() == crate::cli::testing::usage_plan()),
            self matches Commands::New(args) ==> ((r matches Err(e) && can_refuse(prompter, e))
                || created(planned(r), args.name@, place.directory@, prompter)),
            self matches Commands::Init(args) ==> ((r matches Err(e) && can_refuse(prompter, e))
                || started(planned(r), place.name.deep_view(), place.directory@, prompter)),
    {
        match self {
            Commands::Config(args) => {
                let config = load(place)?;
                Ok(args.process_command(&config))
            },
            Commands::Build(args) => {
                let config = load(place)?;
                Ok(args.process_command(&config))
            },
            Commands::Init(args) => args.process_command(
                place.directory.clone(),
                place.name.clone(),
                prompter,
            ),
            Commands::New(args) => args.process_command(place.directory.clone(), prompter),
            Commands::Run(args) => {
                let config = load(place)?;
                Ok(args.process_command(&config))
            },
            Commands::Test(args) => {
                if args.help {
                    Ok(TestArgs::usage())
                } else {
                    let config = load(place)?;
                    Ok(args.process_command(&config))
                }
            },
            Commands::Clean(args) => {
                let config = load(place)?;
                Ok(args.process_command(&config))
            },
        }
    }
}

} // verus!
