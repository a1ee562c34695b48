//! Preparing the environment of the managed application.
//!
//! Provisioning derives the path of the resource file under the root and the
//! connection string that points to it. The steps that touch the file system
//! or run tools are best effort: a step that fails leaves a warning and the
//! cycle goes on.

use crate::command::ExitStatus;
use crate::deployment::{Deployment, DeploymentModel};
use crate::env::{EnvVar, EnvVarModel, Environment};
use crate::outcome::{Failure, FailureModel, ProvisionStep, ProvisionWarning, WarningModel};
use crate::path::{FsPath, PathModel};
use vstd::prelude::*;

verus! {

/// What provisioning settles for a root, as texts.
pub struct ProvisionedModel {
    pub root: PathModel,
    pub resource: PathModel,
    pub connection: EnvVarModel,
}

impl ProvisionedModel {
    /// The directory that has to exist for the resource file, where the
    /// resource path names one.
    pub open spec fn resource_dir(self) -> Option<PathModel> {
        if self.resource.segments.len() > 0 {
            Some(self.resource.parent())
        } else {
            None
        }
    }

    /// The provisioned variables.
    pub open spec fn vars(self) -> Map<Seq<char>, Seq<char>> {
        Map::empty().insert(self.connection.name, self.connection.value)
    }
}

/// What provisioning settles for `root`: the resource file lies under the
/// root where the deployment says, and the connection variable holds the
/// deployment's scheme followed by the text of that path.
pub open spec fn prepared(config: DeploymentModel, root: PathModel) -> ProvisionedModel {
    let resource = root.join(config.resource);
    ProvisionedModel {
        root,
        resource,
        connection: EnvVarModel {
            name: config.connection_var,
            value: config.connection_scheme + resource.text(),
        },
    }
}

/// The environment values and paths that one cycle works with.
#[derive(Debug)]
pub struct ProvisionedEnvironment {
    /// The root of the managed application.
    pub root: FsPath,
    /// The resource file.
    pub resource: FsPath,
    /// The connection variable and its value.
    pub connection: EnvVar,
}

impl View for ProvisionedEnvironment {
    type V = ProvisionedModel;

    open spec fn view(&self) -> ProvisionedModel {
        ProvisionedModel {
            root: self.root@,
            resource: self.resource@,
            connection: self.connection@,
        }
    }
}

/// Derives the resource path and the connection variable for `root`.
pub fn prepare(config: &Deployment, root: &FsPath) -> (env: ProvisionedEnvironment)
    ensures
        env@ == prepared(config@, root@),
{
    let resource = root.join(&config.resource);
    let mut value = config.connection_scheme.clone();
    let text = resource.render();
    value.append(text.as_str());
    ProvisionedEnvironment {
        root: root.clone(),
        resource,
        connection: EnvVar { name: config.connection_var.clone(), value },
    }
}

impl ProvisionedEnvironment {
    /// The directory that has to exist for the resource file, where the
    /// resource path names one.
    pub fn resource_dir(&self) -> (dir: Option<FsPath>)
        ensures
            match dir {
                Some(dir) => self@.resource_dir() == Some(dir@),
                None => self@.resource_dir() is None,
            },
    {
        self.resource.parent()
    }

    /// The provisioned variables.
    pub fn vars(&self) -> (vars: Environment)
        ensures
            vars@ == self@.vars(),
    {
        let mut vars = Environment::new();
        vars.set(self.connection.name.clone(), self.connection.value.clone());
        vars
    }
}

/// Why a command counts as failed, if it does: it could not be launched, or
/// it left without success.
pub open spec fn failure_of(result: Result<ExitStatus, Seq<char>>) -> Option<FailureModel> {
    match result {
        Ok(status) => if status.succeeded() {
            None
        } else {
            Some(FailureModel::Exit(status))
        },
        Err(cause) => Some(FailureModel::Io(cause)),
    }
}

/// The warning that the result of a best-effort command leaves, if any.
pub open spec fn warning_of(step: ProvisionStep, result: Result<ExitStatus, Seq<char>>) -> Option<
    WarningModel,
> {
    match failure_of(result) {
        Some(failure) => Some(WarningModel { step, failure }),
        None => None,
    }
}

/// Judges the result of a best-effort command: `Ok` with how the command
/// left, `Err` with the cause where it could not be launched.
pub fn judge_step(step: ProvisionStep, result: Result<ExitStatus, String>) -> (warning: Option<
    ProvisionWarning,
>)
    ensures
        match warning {
            Some(warning) => warning_of(
                step,
                match result {
                    Ok(status) => Ok(status),
                    Err(cause) => Err(cause@),
                },
            ) == Some(warning@),
            None => warning_of(
                step,
                match result {
                    Ok(status) => Ok(status),
                    Err(cause) => Err(cause@),
                },
            ) is None,
        },
{
    match result {
        Ok(status) => {
            if status.success() {
                None
            } else {
                Some(ProvisionWarning { step, failure: Failure::Exit(status) })
            }
        },
        Err(cause) => Some(ProvisionWarning { step, failure: Failure::Io(cause) }),
    }
}

} // verus!
