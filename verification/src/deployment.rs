//! What the orchestrator has to know about the managed application.

use crate::command::{CommandLine, CommandModel, OutputPolicy};
use crate::env::Environment;
use crate::path::{FsPath, PathModel};
use vstd::prelude::*;

verus! {

/// Seconds that the host waits after the start of the server by default.
pub const DEFAULT_WARM_UP_SECS: u64 = 5;

/// A build step, as texts.
pub struct BuildStepModel {
    pub command: CommandModel,
    pub output: OutputPolicy,
}

/// The one-shot build that precedes the start, and where its output goes.
#[derive(Debug)]
pub struct BuildStep {
    pub command: CommandLine,
    pub output: OutputPolicy,
}

impl View for BuildStep {
    type V = BuildStepModel;

    open spec fn view(&self) -> BuildStepModel {
        BuildStepModel { command: self.command@, output: self.output }
    }
}

impl Clone for BuildStep {
    fn clone(&self) -> (copy: Self)
        ensures
            copy@ == self@,
    {
        BuildStep { command: self.command.clone(), output: self.output }
    }
}

/// A deployment, as texts.
pub struct DeploymentModel {
    pub manifest: Seq<char>,
    pub resource: PathModel,
    pub connection_var: Seq<char>,
    pub connection_scheme: Seq<char>,
    pub schema_generate: Option<CommandModel>,
    pub schema_init: CommandModel,
    pub build: Option<BuildStepModel>,
    pub server: CommandModel,
    pub spawn_overrides: Map<Seq<char>, Seq<char>>,
    pub warm_up_secs: u64,
    pub description: Seq<char>,
}

/// The settings of one managed application.
#[derive(Debug)]
pub struct Deployment {
    /// Name of the file whose presence marks the application's root.
    pub manifest: String,
    /// Where the resource file lies, seen from the root.
    pub resource: FsPath,
    /// Name of the variable that carries the connection string.
    pub connection_var: String,
    /// What the connection string puts before the resource file's path.
    pub connection_scheme: String,
    /// The schema-generation command, where the tooling needs one.
    pub schema_generate: Option<CommandLine>,
    /// The command that initialises the schema of a resource file that does
    /// not exist yet.
    pub schema_init: CommandLine,
    /// The build step, where the application is not already built.
    pub build: Option<BuildStep>,
    /// The command that starts the server.
    pub server: CommandLine,
    /// Variables set for the server on top of the provisioned environment.
    pub spawn_overrides: Environment,
    /// Seconds to wait after the start before the cycle counts as done.
    pub warm_up_secs: u64,
    /// Description of the running server, reported on success.
    pub description: String,
}

impl View for Deployment {
    type V = DeploymentModel;

    open spec fn view(&self) -> DeploymentModel {
        DeploymentModel {
            manifest: self.manifest@,
            resource: self.resource@,
            connection_var: self.connection_var@,
            connection_scheme: self.connection_scheme@,
            schema_generate: match self.schema_generate {
                Some(command) => Some(command@),
                None => None,
            },
            schema_init: self.schema_init@,
            build: match self.build {
                Some(step) => Some(step@),
                None => None,
            },
            server: self.server@,
            spawn_overrides: self.spawn_overrides@,
            warm_up_secs: self.warm_up_secs,
            description: self.description@,
        }
    }
}

impl Clone for Deployment {
    fn clone(&self) -> (copy: Self)
        ensures
            copy@ == self@,
    {
        Deployment {
            manifest: self.manifest.clone(),
            resource: self.resource.clone(),
            connection_var: self.connection_var.clone(),
            connection_scheme: self.connection_scheme.clone(),
            schema_generate: match &self.schema_generate {
                Some(command) => Some(command.clone()),
                None => None,
            },
            schema_init: self.schema_init.clone(),
            build: match &self.build {
                Some(step) => Some(step.clone()),
                None => None,
            },
            server: self.server.clone(),
            spawn_overrides: self.spawn_overrides.clone(),
            warm_up_secs: self.warm_up_secs,
            description: self.description.clone(),
        }
    }
}

} // verus!
