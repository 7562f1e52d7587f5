//! Starting the server process: where its binary is and what it is told.

use vstd::prelude::*;
use vstd::string::*;
use crate::text::{decimal, decimal_text};
use std::path::PathBuf;

verus! {

/// A path of the file system. Nothing in this library looks inside one.
#[verifier::external_type_specification]
#[verifier::external_body]
pub struct ExPathBuf(PathBuf);

/// The time in seconds after which an idle server would shut itself down: thirty
/// days. The launcher decides when the server stops, so the server's own limit
/// is put out of reach.
pub const SERVER_TTL_SECONDS: u64 = 2592000;

/// The name of the server binary that is looked for next to the launcher.
pub const SERVER_BINARY_NAME: &'static str = "pocket-ic";

/// The process group that the server is started in. Zero asks the system for a
/// group of its own, so that a signal sent to the group of the launcher, as from
/// a terminal, does not reach the server. The launcher signals the server
/// itself when it is time.
pub const SERVER_PROCESS_GROUP: i32 = 0;

/// No binary of the server was named and none stands next to the launcher.
#[derive(Clone, Copy, Debug, PartialEq, Eq, Structural)]
pub struct MissingServer;

/// The binary that is started: the one named on the command line, whether or not
/// it exists, since only starting it tells; else the one next to the launcher,
/// which must exist.
pub open spec fn server_path_of(explicit: Option<PathBuf>, sibling: Option<PathBuf>) -> Result<
    PathBuf,
    MissingServer,
> {
    match explicit {
        Some(path) => Ok(path),
        None => match sibling {
            Some(path) => Ok(path),
            None => Err(MissingServer),
        },
    }
}

/// Chooses the binary of the server. `sibling` is the binary next to the
/// launcher, if there is one.
pub fn choose_server_path(explicit: Option<PathBuf>, sibling: Option<PathBuf>) -> (r: Result<
    PathBuf,
    MissingServer,
>)
    ensures
        r == server_path_of(explicit, sibling),
{
    match explicit {
        Some(path) => Ok(path),
        None => match sibling {
            Some(path) => Ok(path),
            None => Err(MissingServer),
        },
    }
}

/// One argument on the command line of the server.
#[derive(Debug, PartialEq, Eq)]
pub enum ServerArgument {
    /// An argument given as text.
    Text(String),
    /// An argument that is a path.
    Path(PathBuf),
}

/// A [`ServerArgument`] as a mathematical value.
pub enum ServerArgumentView {
    Text(Seq<char>),
    Path(PathBuf),
}

impl View for ServerArgument {
    type V = ServerArgumentView;

    open spec fn view(&self) -> ServerArgumentView {
        match self {
            ServerArgument::Text(text) => ServerArgumentView::Text(text@),
            ServerArgument::Path(path) => ServerArgumentView::Path(*path),
        }
    }
}

impl DeepView for ServerArgument {
    type V = ServerArgumentView;

    open spec fn deep_view(&self) -> ServerArgumentView {
        self@
    }
}

/// The command line of the server, without the name of the binary: the time to
/// live, the port file, then the port and the address to bind if they were asked
/// for, and the restriction of the log to errors unless the launcher is verbose.
pub open spec fn server_arguments_of(
    port_file: PathBuf,
    port: Option<u16>,
    bind: Option<Seq<char>>,
    verbose: bool,
) -> Seq<ServerArgumentView> {
    let fixed = seq![
        ServerArgumentView::Text("--ttl"@),
        ServerArgumentView::Text(decimal(SERVER_TTL_SECONDS as nat)),
        ServerArgumentView::Text("--port-file"@),
        ServerArgumentView::Path(port_file),
    ];
    let with_port = match port {
        Some(p) => seq![
            ServerArgumentView::Text("--port"@),
            ServerArgumentView::Text(decimal(p as nat)),
        ],
        None => Seq::empty(),
    };
    let with_bind = match bind {
        Some(address) => seq![
            ServerArgumentView::Text("--ip-addr"@),
            ServerArgumentView::Text(address),
        ],
        None => Seq::empty(),
    };
    let with_log = if verbose {
        Seq::empty()
    } else {
        seq![ServerArgumentView::Text("--log-levels"@), ServerArgumentView::Text("error"@)]
    };
    fixed + with_port + with_bind + with_log
}

/// Builds the command line of the server.
pub fn server_arguments(
    port_file: PathBuf,
    port: Option<u16>,
    bind: Option<&str>,
    verbose: bool,
) -> (arguments: Vec<ServerArgument>)
    ensures
        arguments.deep_view() == server_arguments_of(port_file, port, bind.deep_view(), verbose),
{
    let mut arguments: Vec<ServerArgument> = Vec::new();
    arguments.push(ServerArgument::Text(String::from_str("--ttl")));
    arguments.push(ServerArgument::Text(decimal_text(SERVER_TTL_SECONDS)));
    arguments.push(ServerArgument::Text(String::from_str("--port-file")));
    arguments.push(ServerArgument::Path(port_file));
    if let Some(p) = port {
        arguments.push(ServerArgument::Text(String::from_str("--port")));
        arguments.push(ServerArgument::Text(decimal_text(p as u64)));
    }
    if let Some(address) = bind {
        arguments.push(ServerArgument::Text(String::from_str("--ip-addr")));
        arguments.push(ServerArgument::Text(String::from_str(address)));
    }
    if !verbose {
        arguments.push(ServerArgument::Text(String::from_str("--log-levels")));
        arguments.push(ServerArgument::Text(String::from_str("error")));
    }
    assert(arguments.deep_view() =~= server_arguments_of(
        port_file,
        port,
        bind.deep_view(),
        verbose,
    ));
    arguments
}

} // verus!
