//! Orchestration of a single long-lived sidecar server on behalf of a desktop
//! shell: locating the managed application, preparing its environment,
//! sequencing build and start, and tracking the process handle until shutdown.
//!
//! The library performs no I/O. Every effect is described as an [`effect::Action`]
//! for the host to carry out, and the host reports what happened as an
//! [`effect::Report`].

pub mod builder;
pub mod command;
pub mod dashboard;
pub mod deployment;
pub mod effect;
pub mod env;
pub mod laws;
pub mod locator;
pub mod orchestrator;
pub mod outcome;
pub mod path;
pub mod provision;
pub mod supervisor;
