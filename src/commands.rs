//! The command line: one subcommand, `server`, with the path of its configuration.
use vstd::prelude::*;
use crate::config::ApplicationConfig;

verus! {

/// The subcommands.
#[derive(Debug, Clone)]
pub enum SubCommand {
    /// Starts the server.
    Server(Config),
}

/// The parsed command line.
#[derive(Debug, Clone)]
pub struct State {
    pub cmd: SubCommand,
}

/// The `server` subcommand: the configuration file and what it held.
#[derive(Debug, Clone)]
pub struct Config {
    pub config: String,
    pub config_data: ApplicationConfig,
}

} // verus!
