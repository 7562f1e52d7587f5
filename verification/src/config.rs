//! The options of one run of the launcher, once the command line is resolved.

use vstd::prelude::*;
use std::path::PathBuf;

verus! {

/// The kinds of subnet that can be asked for on the command line.
#[derive(Clone, Copy, Debug, PartialEq, Eq, Structural)]
pub enum SubnetKind {
    Application,
    System,
    VerifiedApplication,
    Bitcoin,
    Fiduciary,
    Nns,
    Sns,
}

/// The resolved options. They are put together once, at startup, and read from
/// then on.
#[derive(Debug, PartialEq, Eq)]
pub struct LaunchConfiguration {
    /// The port of the gateway, if one was asked for.
    pub gateway_port: Option<u16>,
    /// The port on which the server is to take its configuration, if one was asked for.
    pub config_port: Option<u16>,
    /// The address to bind, as text.
    pub bind: Option<String>,
    /// The directory in which the state of the network is kept.
    pub state_dir: Option<PathBuf>,
    /// The delay in milliseconds that the network puts between its rounds.
    pub artificial_delay_ms: Option<u64>,
    /// The subnets that were asked for, in the order of the command line.
    pub subnets: Vec<SubnetKind>,
    /// The addresses of the bitcoin nodes, as text.
    pub bitcoind_addrs: Vec<String>,
    /// The addresses of the dogecoin nodes, as text.
    pub dogecoind_addrs: Vec<String>,
    /// Whether the identity suite is to be installed.
    pub ii: bool,
    /// Whether the governance suite is to be installed.
    pub nns: bool,
    /// The binary of the server, if it is not the one next to the launcher.
    pub server_path: Option<PathBuf>,
    /// The file that takes the standard output of the server.
    pub stdout_file: Option<PathBuf>,
    /// The file that takes the standard error of the server.
    pub stderr_file: Option<PathBuf>,
    /// The directory in which the status file is written.
    pub status_dir: Option<PathBuf>,
    /// Whether the server logs more than errors.
    pub verbose: bool,
}

} // verus!
