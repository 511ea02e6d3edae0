//! The decisions behind the Pianke desktop launcher.
//!
//! The launcher prepares a Python environment, installs the packages of the
//! chosen modes, starts a local Flask service, keeps an eye on it, and keeps
//! its own code up to date. This crate holds everything in that work that can
//! be computed from plain values: what to run, what to say, what to keep, when
//! to stop. Running processes, touching files and talking to windows is left to
//! the caller, who performs the actions and reports what came of them.

pub mod commands;
pub mod env_check;
pub mod invocation;
pub mod launcher;
pub mod machine_laws;
pub mod number;
pub mod order;
pub mod outside;
pub mod package_laws;
pub mod paths;
pub mod python_runtime;
pub mod runtime_laws;
pub mod search;
pub mod setup_laws;
pub mod shutdown;
pub mod shutdown_laws;
pub mod text;
pub mod text_laws;
pub mod update_laws;
pub mod updater;
