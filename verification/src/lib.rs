//! Keeps a game server running and supplied with its mods: what to fetch,
//! build, copy and start, and in which order, decided here as plain values
//! for a driver to carry out.

use vstd::prelude::*;

pub mod command;
pub mod config;
pub mod control;
pub mod mods;
pub mod paths;
pub mod pattern;
pub mod server;
pub mod status;
pub mod text;
pub mod webhook;

pub use config::Config;
pub use mods::{FileMod, GitMod, HttpMod, Mod, Mods};
pub use server::Server;

verus! {

/// Directory, relative to the working directory, under which every
/// downloaded file and every cloned repository is kept between runs.
pub const CACHE_ROOT: &'static str = "mod_cache";

/// The ways in which resolving a mod or starting the server fails.
#[derive(Debug, Clone, Copy, PartialEq, Eq, Structural)]
pub enum Error {
    /// The file system refused an operation, or a process could not be
    /// started or waited for.
    Io,
    /// A download did not succeed.
    Reqwest,
    /// The configuration file is malformed.
    TomlDe,
    /// A URL or a file name does not have the expected shape.
    Regex,
    /// A build left no jar that can be deployed.
    MissingArtifact,
}

} // verus!
