//! The deployment of the dashboard application.

use crate::command::{CommandLine, CommandModel};
use crate::deployment::{Deployment, DeploymentModel, DEFAULT_WARM_UP_SECS};
use crate::env::Environment;
use crate::path::{parse_text, FsPath};
use vstd::prelude::*;

verus! {

/// The text that the shell shows for the managed application.
pub open spec fn app_info_text() -> Seq<char> {
    "Competitor Dashboard v0.1.0"@
}

/// Name and version of the managed application. Never fails.
pub fn get_app_info() -> (info: Result<String, String>)
    ensures
        info is Ok,
        info->Ok_0@ == app_info_text(),
{
    Ok(String::from_str("Competitor Dashboard v0.1.0"))
}

/// The settings of the dashboard application.
pub open spec fn dashboard_model() -> DeploymentModel {
    DeploymentModel {
        manifest: "package.json"@,
        resource: parse_text("prisma/competitor_products.db"@),
        connection_var: "DATABASE_URL"@,
        connection_scheme: "file:"@,
        schema_generate: Some(
            CommandModel { program: "npx"@, args: seq!["prisma"@, "generate"@] },
        ),
        schema_init: CommandModel { program: "npx"@, args: seq!["prisma"@, "db"@, "push"@] },
        build: None,
        server: CommandModel { program: "pnpm"@, args: seq!["run"@, "server:dev"@] },
        spawn_overrides: Map::empty(),
        warm_up_secs: DEFAULT_WARM_UP_SECS,
        description: "http://localhost:3005"@,
    }
}

/// The settings of the dashboard application: a Node project marked by its
/// package manifest, with a database file kept by Prisma and a development
/// server started through pnpm. The application is not built before it is
/// started.
pub fn deployment() -> (settings: Deployment)
    ensures
        settings@ == dashboard_model(),
{
    let schema_generate = CommandLine::new("npx").arg("prisma").arg("generate");
    let schema_init = CommandLine::new("npx").arg("prisma").arg("db").arg("push");
    let server = CommandLine::new("pnpm").arg("run").arg("server:dev");
    proof {
        assert(schema_generate@.args =~= seq!["prisma"@, "generate"@]);
        assert(schema_init@.args =~= seq!["prisma"@, "db"@, "push"@]);
        assert(server@.args =~= seq!["run"@, "server:dev"@]);
    }
    Deployment {
        manifest: String::from_str("package.json"),
        resource: FsPath::parse("prisma/competitor_products.db"),
        connection_var: String::from_str("DATABASE_URL"),
        connection_scheme: String::from_str("file:"),
        schema_generate: Some(schema_generate),
        schema_init,
        build: None,
        server,
        spawn_overrides: Environment::new(),
        warm_up_secs: DEFAULT_WARM_UP_SECS,
        description: String::from_str("http://localhost:3005"),
    }
}

} // verus!
