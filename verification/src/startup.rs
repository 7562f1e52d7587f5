//! The startup sequence of the launcher.
//!
//! The launcher resolves its command line, finds the binary of the server,
//! watches the directory of the port file, starts the server, waits for the
//! port, configures the network instance on the server, and writes the status
//! file if one was asked for. The order matters: nothing is started on a command
//! line that was refused, the watch stands before the server is started, so that
//! no write of the port file is missed, and the instance is configured only on a
//! port that was discovered.
//!
//! Every failure is final. Nothing is tried again, and a server that was
//! started is stopped again before the launcher leaves.
//!
//! The sequence is a state machine like the one of the shutdown: a state has an
//! activity that is due ([`StartupState::due`]), and the launcher reports how
//! the activity ended ([`StartupState::step`]).

use vstd::prelude::*;
use crate::arguments::{begin_of, ResolutionError, ResolutionErrorView};
use crate::discovery::{DiscoveryError, Outcome};
use crate::version::{is_supported, VersionView};

verus! {

/// Why the startup failed.
#[derive(Clone, Copy, Debug, PartialEq, Eq, Structural)]
pub enum StartupError {
    /// The command line holds an argument that is not recognised.
    Configuration,
    /// The declared interface version is outside the supported range.
    VersionCompatibility,
    /// The binary of the server is missing, or the server could not be started.
    Spawn,
    /// The port of the server could not be learnt.
    Discovery(DiscoveryError),
    /// The instance could not be configured on the server.
    ConfigurationRoundTrip,
    /// The status file could not be written.
    StatusWrite,
}

/// The states of the startup sequence.
#[derive(Clone, Copy, Debug, PartialEq, Eq, Structural)]
pub enum StartupState {
    /// Nothing is done yet.
    Unresolved,
    /// The options are resolved. `publish` tells whether a status file was asked for.
    Resolved { publish: bool },
    /// The binary of the server is found.
    Located { publish: bool },
    /// The directory of the port file is watched.
    Watching { publish: bool },
    /// The server runs.
    Spawned { publish: bool },
    /// The server has told its port, and the watch is over.
    Discovered { publish: bool, port: u16 },
    /// The instance is configured, and the status file is still to be written.
    Configured { port: u16 },
    /// The network is up. `published` tells whether the status file was written.
    Ready { port: u16, published: bool },
    /// The startup has failed. `child_started` tells whether the server runs.
    Failed { error: StartupError, child_started: bool },
}

/// What the launcher reports to the machine.
#[derive(Clone, Copy, Debug, PartialEq, Eq, Structural)]
pub enum StartupEvent {
    /// The command line is resolved; `publish` tells whether a status file was asked for.
    ArgumentsResolved { publish: bool },
    /// The command line was refused, an argument or the declared version.
    ArgumentsRefused { error: StartupError },
    /// The binary of the server is found.
    ServerLocated,
    /// No binary of the server was named and none stands next to the launcher.
    ServerMissing,
    /// The watch on the directory stands.
    WatchEstablished,
    /// The directory could not be made or watched.
    WatchFailed,
    /// The server was started.
    ServerSpawned,
    /// The server could not be started.
    SpawnFailed,
    /// Discovery came to its outcome, and the watch was cancelled.
    Discovery(Outcome),
    /// The instance is configured.
    InstanceConfigured,
    /// A call that configures the instance failed.
    ConfigurationFailed,
    /// The status file is written.
    StatusWritten,
    /// The status file could not be written.
    StatusWriteFailed,
}

/// What the launcher is to do.
#[derive(Clone, Copy, Debug, PartialEq, Eq, Structural)]
pub enum StartupAction {
    /// Parse the command line and resolve what is not recognised, then report
    /// `ArgumentsResolved` or `ArgumentsRefused`.
    ResolveArguments,
    /// Choose the binary of the server, then report `ServerLocated` or `ServerMissing`.
    LocateServer,
    /// Make the directory of the port file and watch it, then report
    /// `WatchEstablished` or `WatchFailed`.
    WatchDirectory,
    /// Start the server in a process group of its own, then report
    /// `ServerSpawned` or `SpawnFailed`.
    SpawnServer,
    /// Wait for the outcome of discovery and cancel the watch, then report `Discovery`.
    AwaitPort,
    /// Configure the instance on the server that listens on `port`, then report
    /// `InstanceConfigured` or `ConfigurationFailed`.
    ConfigureInstance { port: u16 },
    /// Write the status file with `port` in it, then report `StatusWritten` or
    /// `StatusWriteFailed`.
    WriteStatus { port: u16 },
    /// Supervise the network until the launcher is asked to stop.
    Supervise,
    /// Report `error` and leave with a status that is not zero, after killing
    /// the server if `kill_child` is set.
    Abort { error: StartupError, kill_child: bool },
}

/// The activity that is due in a state.
pub open spec fn due_of(s: StartupState) -> StartupAction {
    match s {
        StartupState::Unresolved => StartupAction::ResolveArguments,
        StartupState::Resolved { .. } => StartupAction::LocateServer,
        StartupState::Located { .. } => StartupAction::WatchDirectory,
        StartupState::Watching { .. } => StartupAction::SpawnServer,
        StartupState::Spawned { .. } => StartupAction::AwaitPort,
        StartupState::Discovered { port, .. } => StartupAction::ConfigureInstance { port },
        StartupState::Configured { port } => StartupAction::WriteStatus { port },
        StartupState::Ready { .. } => StartupAction::Supervise,
        StartupState::Failed { error, child_started } => StartupAction::Abort {
            error,
            kill_child: child_started,
        },
    }
}

/// The state after `event` was reported in state `s`. An event that does not
/// belong to the state changes nothing.
pub open spec fn step_of(s: StartupState, event: StartupEvent) -> StartupState {
    match (s, event) {
        (StartupState::Unresolved, StartupEvent::ArgumentsResolved { publish }) => {
            StartupState::Resolved { publish }
        },
        (StartupState::Unresolved, StartupEvent::ArgumentsRefused { error }) => {
            StartupState::Failed { error, child_started: false }
        },
        (StartupState::Resolved { publish }, StartupEvent::ServerLocated) => {
            StartupState::Located { publish }
        },
        (StartupState::Resolved { .. }, StartupEvent::ServerMissing) => StartupState::Failed {
            error: StartupError::Spawn,
            child_started: false,
        },
        (StartupState::Located { publish }, StartupEvent::WatchEstablished) => {
            StartupState::Watching { publish }
        },
        (StartupState::Located { .. }, StartupEvent::WatchFailed) => StartupState::Failed {
            error: StartupError::Discovery(DiscoveryError::WatchFailed),
            child_started: false,
        },
        (StartupState::Watching { publish }, StartupEvent::ServerSpawned) => {
            StartupState::Spawned { publish }
        },
        (StartupState::Watching { .. }, StartupEvent::SpawnFailed) => StartupState::Failed {
            error: StartupError::Spawn,
            child_started: false,
        },
        (StartupState::Spawned { publish }, StartupEvent::Discovery(Outcome::Port(port))) => {
            StartupState::Discovered { publish, port }
        },
        (StartupState::Spawned { .. }, StartupEvent::Discovery(Outcome::Failed(error))) => {
            StartupState::Failed { error: StartupError::Discovery(error), child_started: true }
        },
        (StartupState::Discovered { publish, port }, StartupEvent::InstanceConfigured) => {
            if publish {
                StartupState::Configured { port }
            } else {
                StartupState::Ready { port, published: false }
            }
        },
        (StartupState::Discovered { .. }, StartupEvent::ConfigurationFailed) => {
            StartupState::Failed {
                error: StartupError::ConfigurationRoundTrip,
                child_started: true,
            }
        },
        (StartupState::Configured { port }, StartupEvent::StatusWritten) => StartupState::Ready {
            port,
            published: true,
        },
        (StartupState::Configured { .. }, StartupEvent::StatusWriteFailed) => {
            StartupState::Failed { error: StartupError::StatusWrite, child_started: true }
        },
        _ => s,
    }
}

/// The state after the events of `events` were reported one after the other,
/// starting in state `s`.
pub open spec fn run_of(s: StartupState, events: Seq<StartupEvent>) -> StartupState
    decreases events.len(),
{
    if events.len() == 0 {
        s
    } else {
        step_of(run_of(s, events.drop_last()), events.last())
    }
}

/// Whether the server has been started by the time of state `s`.
pub open spec fn child_started(s: StartupState) -> bool {
    match s {
        StartupState::Unresolved => false,
        StartupState::Resolved { .. } => false,
        StartupState::Located { .. } => false,
        StartupState::Watching { .. } => false,
        StartupState::Failed { child_started, .. } => child_started,
        _ => true,
    }
}

/// The port that the instance is or was configured on in state `s`, if any.
pub open spec fn port_in_use(s: StartupState) -> Option<u16> {
    match s {
        StartupState::Discovered { port, .. } => Some(port),
        StartupState::Configured { port } => Some(port),
        StartupState::Ready { port, .. } => Some(port),
        _ => None,
    }
}

impl StartupState {
    /// The state in which the startup begins.
    pub fn new() -> (s: StartupState)
        ensures
            s == StartupState::Unresolved,
    {
        StartupState::Unresolved
    }

    /// What the launcher is to do in this state.
    pub fn due(&self) -> (a: StartupAction)
        ensures
            a == due_of(*self),
    {
        match self {
            StartupState::Unresolved => StartupAction::ResolveArguments,
            StartupState::Resolved { .. } => StartupAction::LocateServer,
            StartupState::Located { .. } => StartupAction::WatchDirectory,
            StartupState::Watching { .. } => StartupAction::SpawnServer,
            StartupState::Spawned { .. } => StartupAction::AwaitPort,
            StartupState::Discovered { port, .. } => StartupAction::ConfigureInstance {
                port: *port,
            },
            StartupState::Configured { port } => StartupAction::WriteStatus { port: *port },
            StartupState::Ready { .. } => StartupAction::Supervise,
            StartupState::Failed { error, child_started } => StartupAction::Abort {
                error: *error,
                kill_child: *child_started,
            },
        }
    }

    /// Moves on with what the launcher reports.
    pub fn step(self, event: StartupEvent) -> (next: StartupState)
        ensures
            next == step_of(self, event),
    {
        match (self, event) {
            (StartupState::Unresolved, StartupEvent::ArgumentsResolved { publish }) => {
                StartupState::Resolved { publish }
            },
            (StartupState::Unresolved, StartupEvent::ArgumentsRefused { error }) => {
                StartupState::Failed { error, child_started: false }
            },
            (StartupState::Resolved { publish }, StartupEvent::ServerLocated) => {
                StartupState::Located { publish }
            },
            (StartupState::Resolved { .. }, StartupEvent::ServerMissing) => StartupState::Failed {
                error: StartupError::Spawn,
                child_started: false,
            },
            (StartupState::Located { publish }, StartupEvent::WatchEstablished) => {
                StartupState::Watching { publish }
            },
            (StartupState::Located { .. }, StartupEvent::WatchFailed) => StartupState::Failed {
                error: StartupError::Discovery(DiscoveryError::WatchFailed),
                child_started: false,
            },
            (StartupState::Watching { publish }, StartupEvent::ServerSpawned) => {
                StartupState::Spawned { publish }
            },
            (StartupState::Watching { .. }, StartupEvent::SpawnFailed) => StartupState::Failed {
                error: StartupError::Spawn,
                child_started: false,
            },
            (StartupState::Spawned { publish }, StartupEvent::Discovery(Outcome::Port(port))) => {
                StartupState::Discovered { publish, port }
            },
            (StartupState::Spawned { .. }, StartupEvent::Discovery(Outcome::Failed(error))) => {
                StartupState::Failed { error: StartupError::Discovery(error), child_started: true }
            },
            (StartupState::Discovered { publish, port }, StartupEvent::InstanceConfigured) => {
                if publish {
                    StartupState::Configured { port }
                } else {
                    StartupState::Ready { port, published: false }
                }
            },
            (StartupState::Discovered { .. }, StartupEvent::ConfigurationFailed) => {
                StartupState::Failed {
                    error: StartupError::ConfigurationRoundTrip,
                    child_started: true,
                }
            },
            (StartupState::Configured { port }, StartupEvent::StatusWritten) => {
                StartupState::Ready { port, published: true }
            },
            (StartupState::Configured { .. }, StartupEvent::StatusWriteFailed) => {
                StartupState::Failed { error: StartupError::StatusWrite, child_started: true }
            },
            _ => self,
        }
    }
}

/// The status with which the launcher leaves after a shutdown in good order.
pub const CLEAN_EXIT_STATUS: i32 = 0;

/// The status with which the launcher leaves after a failed startup: never
/// zero, and 2 where the command line holds an argument that is not recognised,
/// as for any other mistake in the use of the command line.
pub open spec fn exit_status_of(error: StartupError) -> i32 {
    if error is Configuration {
        2
    } else {
        1
    }
}

/// The cause of a failed startup in one line, for the error stream.
pub open spec fn description_of(error: StartupError) -> Seq<char> {
    match error {
        StartupError::Configuration => "unexpected argument"@,
        StartupError::VersionCompatibility => "unsupported interface version"@,
        StartupError::Spawn => "failed to spawn pocket-ic server process"@,
        StartupError::Discovery(DiscoveryError::WatchFailed) => {
            "failed to watch directory for port file"@
        },
        StartupError::Discovery(DiscoveryError::ReadFailed) => "failed to read port file"@,
        StartupError::Discovery(DiscoveryError::MalformedPort) => {
            "failed to parse port from port file"@
        },
        StartupError::ConfigurationRoundTrip => "failed to configure pocket-ic"@,
        StartupError::StatusWrite => "failed to write status file"@,
    }
}

/// The status with which the launcher leaves after a startup that failed with `error`.
pub fn exit_status(error: StartupError) -> (status: i32)
    ensures
        status == exit_status_of(error),
        status != CLEAN_EXIT_STATUS,
{
    match error {
        StartupError::Configuration => 2,
        _ => 1,
    }
}

/// Says in one line why the startup failed.
pub fn describe(error: StartupError) -> (text: &'static str)
    ensures
        text@ == description_of(error),
{
    match error {
        StartupError::Configuration => "unexpected argument",
        StartupError::VersionCompatibility => "unsupported interface version",
        StartupError::Spawn => "failed to spawn pocket-ic server process",
        StartupError::Discovery(DiscoveryError::WatchFailed) => {
            "failed to watch directory for port file"
        },
        StartupError::Discovery(DiscoveryError::ReadFailed) => "failed to read port file",
        StartupError::Discovery(DiscoveryError::MalformedPort) => {
            "failed to parse port from port file"
        },
        StartupError::ConfigurationRoundTrip => "failed to configure pocket-ic",
        StartupError::StatusWrite => "failed to write status file",
    }
}

/// The startup error that stands for a refusal of the command line.
pub open spec fn refusal_of(error: ResolutionErrorView) -> StartupError {
    match error {
        ResolutionErrorView::UnknownArgument(_) => StartupError::Configuration,
        ResolutionErrorView::UnsupportedVersion(_) => StartupError::VersionCompatibility,
    }
}

/// The event to report when the command line was refused with `error`.
pub fn refusal(error: &ResolutionError) -> (event: StartupEvent)
    ensures
        event == (StartupEvent::ArgumentsRefused { error: refusal_of(error@) }),
{
    match error {
        ResolutionError::UnknownArgument(_) => StartupEvent::ArgumentsRefused {
            error: StartupError::Configuration,
        },
        ResolutionError::UnsupportedVersion(_) => StartupEvent::ArgumentsRefused {
            error: StartupError::VersionCompatibility,
        },
    }
}

/// On a command line that was refused nothing is started: the startup has
/// failed, the server does not run, and whatever is reported later changes
/// neither.
pub proof fn lemma_refused_arguments_start_nothing(
    error: ResolutionErrorView,
    later: Seq<StartupEvent>,
)
    ensures
        run_of(
            step_of(StartupState::Unresolved, StartupEvent::ArgumentsRefused { error: refusal_of(error) }),
            later,
        ) == (StartupState::Failed { error: refusal_of(error), child_started: false }),
    decreases later.len(),
{
    if later.len() > 0 {
        lemma_refused_arguments_start_nothing(error, later.drop_last());
    }
}

/// A declared version outside the supported range makes the startup fail
/// before anything is started, whatever else the command line holds.
pub proof fn lemma_unsupported_version_starts_nothing(
    declared: VersionView,
    unknown: Seq<Seq<char>>,
    later: Seq<StartupEvent>,
)
    requires
        !is_supported(declared),
    ensures
        begin_of(Some(declared), unknown) matches Err(error) && run_of(
            step_of(StartupState::Unresolved, StartupEvent::ArgumentsRefused { error: refusal_of(error) }),
            later,
        ) == (StartupState::Failed {
            error: StartupError::VersionCompatibility,
            child_started: false,
        }),
{
    lemma_refused_arguments_start_nothing(begin_of(Some(declared), unknown)->Err_0, later);
}

/// The server is started only while the watch stands: the one step that starts
/// it leaves the watching state.
pub proof fn lemma_spawn_follows_watch(s: StartupState, event: StartupEvent)
    requires
        !child_started(s),
        child_started(step_of(s, event)),
    ensures
        s is Watching,
        event == StartupEvent::ServerSpawned,
{
}

/// Whatever is reported, a run in which the server was started has been in the
/// watching state before.
pub proof fn lemma_watch_stands_before_spawn(events: Seq<StartupEvent>) -> (k: int)
    requires
        child_started(run_of(StartupState::Unresolved, events)),
    ensures
        0 <= k < events.len(),
        run_of(StartupState::Unresolved, events.take(k)) is Watching,
        events[k] == StartupEvent::ServerSpawned,
    decreases events.len(),
{
    let start = StartupState::Unresolved;
    let front = events.drop_last();
    if child_started(run_of(start, front)) {
        let k = lemma_watch_stands_before_spawn(front);
        assert(events.take(k) =~= front.take(k));
        k
    } else {
        lemma_spawn_follows_watch(run_of(start, front), events.last());
        events.len() - 1
    }
}

/// The instance is configured only on a port that discovery delivered: a port
/// comes into use by the report of that port and in no other way, and it does
/// not change afterwards.
pub proof fn lemma_port_comes_from_discovery(s: StartupState, event: StartupEvent)
    ensures
        port_in_use(s) is None && port_in_use(step_of(s, event)) is Some ==> s is Spawned && event
            == StartupEvent::Discovery(Outcome::Port(port_in_use(step_of(s, event))->0)),
        port_in_use(s) is Some && port_in_use(step_of(s, event)) is Some ==> port_in_use(
            step_of(s, event),
        ) == port_in_use(s),
{
}

/// The status file is written with the port that was discovered, only where a
/// status file was asked for, and at most once: writing is due in one state,
/// and that state is left for good when the writing is reported.
pub proof fn lemma_status_is_written_once(s: StartupState, event: StartupEvent)
    ensures
        due_of(s) is WriteStatus ==> s is Configured && due_of(s) == (StartupAction::WriteStatus {
            port: port_in_use(s)->0,
        }),
        step_of(s, event) is Configured ==> s is Configured || (s matches StartupState::Discovered {
            publish,
            ..
        } && publish),
        s is Ready || s is Failed ==> !(step_of(s, event) is Configured),
{
}

/// A failure is final, and what it asks for is to leave, with the server
/// killed if it was started.
pub proof fn lemma_failure_is_final(s: StartupState, event: StartupEvent)
    requires
        s is Failed,
    ensures
        step_of(s, event) == s,
        due_of(s) == (StartupAction::Abort { error: s->error, kill_child: child_started(s) }),
{
}

/// A failed discovery ends the startup with the server marked for the kill.
pub proof fn lemma_failed_discovery_stops_the_server(publish: bool, error: DiscoveryError)
    ensures
        due_of(
            step_of(
                StartupState::Spawned { publish },
                StartupEvent::Discovery(Outcome::Failed(error)),
            ),
        ) == (StartupAction::Abort { error: StartupError::Discovery(error), kill_child: true }),
{
}

} // verus!
