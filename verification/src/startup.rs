//! How the process comes up, as a machine that is stepped from outside.
//!
//! The order is fixed: the parameters, then the presence session, then the
//! listening socket, then connections. Whatever fails on the way ends the
//! process with exit code 1; nothing is tried twice.

use crate::config::{listen_request, presence_request, CliParams, ListenRequest, PresenceRequest};
use vstd::prelude::*;

verus! {

/// Why no presence session came about.
#[derive(Clone, Copy, Debug, PartialEq, Eq, Structural)]
pub enum MakingClientError {
    /// The channel of user updates closed before it reported anything.
    UserDidntUpdate,
    /// The presence service reported the user as disconnected.
    DiscordConnectFailure,
}

/// Why the process ends.
#[derive(Clone, Copy, Debug, PartialEq, Eq, Structural)]
pub enum MainError {
    ParsingCliParams,
    CreatingTcpSocket,
    BindingSocket,
    ListeningForConnections,
    AcceptingConnections,
    MakingClient(MakingClientError),
}

/// What the presence service reports of the current user.
#[derive(Clone, Copy, Debug, PartialEq, Eq, Structural)]
pub enum UserState {
    Connected,
    Disconnected,
}

/// The three operations that lead to a listening socket.
#[derive(Clone, Copy, Debug, PartialEq, Eq, Structural)]
pub enum SocketStage {
    Create,
    Bind,
    Listen,
}

/// Where the start of the process stands.
#[derive(Clone, Copy, Debug, PartialEq, Eq, Structural)]
pub enum StartupPhase {
    /// The parameters are awaited.
    Configuring,
    /// The presence session was asked for; the first report of the user is
    /// awaited. `port` is kept for the socket.
    Bootstrapping { port: u16 },
    /// The socket was asked for.
    Binding,
    /// The next connection is awaited.
    Accepting,
    /// The process ends.
    Exited(MainError),
}

/// What came of the work that the process was waiting for.
#[derive(Clone, Copy, Debug, PartialEq, Eq, Structural)]
pub enum StartupEvent {
    ParamsParsed(CliParams),
    ParamsRejected,
    /// The user observable reported its first change.
    UserChanged(UserState),
    /// The user observable closed without a report.
    UserChannelClosed,
    /// The socket listens.
    Listening,
    /// The socket could not be had; the stage says which operation failed.
    SocketFailed(SocketStage),
    /// A connection was accepted.
    Accepted,
    /// Accepting failed.
    AcceptFailed,
}

/// What the caller does next.
#[derive(Clone, Copy, Debug, PartialEq, Eq, Structural)]
pub enum StartupAction {
    /// Open the presence session and await the first report of the user.
    ConnectPresence(PresenceRequest),
    /// Create, bind and listen on the socket.
    Listen(ListenRequest),
    /// Await a connection.
    Accept,
    /// Hand the accepted connection to a handler of its own and, without
    /// waiting for it, await the next connection.
    Dispatch,
    /// Report the error and end the process with the code.
    Exit { code: i32, error: MainError },
}

/// What one step yields.
pub struct StartupStep {
    pub phase: StartupPhase,
    pub action: StartupAction,
}

/// The exit code of the process: 0 after a graceful end, 1 after any failure.
pub open spec fn exit_code_of(result: Result<(), MainError>) -> i32 {
    match result {
        Ok(_) => 0,
        Err(_) => 1,
    }
}

/// What the wait for the first report of the user means for the session:
/// `None` stands for a channel that closed without a report.
pub open spec fn bootstrapped(report: Option<UserState>) -> Result<(), MakingClientError> {
    match report {
        Some(UserState::Connected) => Ok(()),
        Some(UserState::Disconnected) => Err(MakingClientError::DiscordConnectFailure),
        None => Err(MakingClientError::UserDidntUpdate),
    }
}

/// Which error a failed socket operation is.
pub open spec fn socket_error(stage: SocketStage) -> MainError {
    match stage {
        SocketStage::Create => MainError::CreatingTcpSocket,
        SocketStage::Bind => MainError::BindingSocket,
        SocketStage::Listen => MainError::ListeningForConnections,
    }
}

/// Whether `event` answers what the process waits for in `phase`.
pub open spec fn startup_accepts(phase: StartupPhase, event: StartupEvent) -> bool {
    match phase {
        StartupPhase::Configuring => event is ParamsParsed || event is ParamsRejected,
        StartupPhase::Bootstrapping { .. } => event is UserChanged || event is UserChannelClosed,
        StartupPhase::Binding => event is Listening || event is SocketFailed,
        StartupPhase::Accepting => event is Accepted || event is AcceptFailed,
        StartupPhase::Exited(_) => false,
    }
}

/// The step that ends the process with `error`.
pub open spec fn exiting(error: MainError) -> StartupStep {
    StartupStep {
        phase: StartupPhase::Exited(error),
        action: StartupAction::Exit { code: exit_code_of(Err(error)), error },
    }
}

/// The step after the wait for the user: on to the socket, or out.
pub open spec fn after_bootstrap(port: u16, outcome: Result<(), MakingClientError>) -> StartupStep {
    match outcome {
        Ok(_) => StartupStep {
            phase: StartupPhase::Binding,
            action: StartupAction::Listen(listen_request(port)),
        },
        Err(error) => exiting(MainError::MakingClient(error)),
    }
}

/// The step of the process in `phase` on `event`, for every pair that
/// [`startup_accepts`] admits. For the other pairs nothing is laid down.
pub open spec fn startup_step_of(phase: StartupPhase, event: StartupEvent) -> StartupStep
    recommends
        startup_accepts(phase, event),
{
    match (phase, event) {
        (StartupPhase::Configuring, StartupEvent::ParamsParsed(params)) => StartupStep {
            phase: StartupPhase::Bootstrapping { port: params.port },
            action: StartupAction::ConnectPresence(presence_request(params.app_id)),
        },
        (StartupPhase::Configuring, StartupEvent::ParamsRejected) => exiting(
            MainError::ParsingCliParams,
        ),
        (StartupPhase::Bootstrapping { port }, StartupEvent::UserChanged(user)) => after_bootstrap(
            port,
            bootstrapped(Some(user)),
        ),
        (StartupPhase::Bootstrapping { port }, StartupEvent::UserChannelClosed) => after_bootstrap(
            port,
            bootstrapped(None),
        ),
        (StartupPhase::Binding, StartupEvent::Listening) => StartupStep {
            phase: StartupPhase::Accepting,
            action: StartupAction::Accept,
        },
        (StartupPhase::Binding, StartupEvent::SocketFailed(stage)) => exiting(socket_error(stage)),
        (StartupPhase::Accepting, StartupEvent::Accepted) => StartupStep {
            phase: StartupPhase::Accepting,
            action: StartupAction::Dispatch,
        },
        (StartupPhase::Accepting, StartupEvent::AcceptFailed) => exiting(
            MainError::AcceptingConnections,
        ),
        _ => arbitrary(),
    }
}

/// Computes [`exit_code_of`].
pub fn exit_code(result: Result<(), MainError>) -> (code: i32)
    ensures
        code == exit_code_of(result),
{
    match result {
        Ok(_) => 0,
        Err(_) => 1,
    }
}

/// Decides whether the presence session stands, from the first report of the
/// user or, with `None`, from its channel having closed.
pub fn bootstrap_outcome(report: Option<UserState>) -> (outcome: Result<(), MakingClientError>)
    ensures
        outcome == bootstrapped(report),
{
    match report {
        Some(UserState::Connected) => Ok(()),
        Some(UserState::Disconnected) => Err(MakingClientError::DiscordConnectFailure),
        None => Err(MakingClientError::UserDidntUpdate),
    }
}

/// The start of one process.
#[derive(Clone, Copy, Debug)]
pub struct Startup {
    pub phase: StartupPhase,
}

impl Startup {
    /// A process that has done nothing yet: reading the parameters is the
    /// work to do.
    pub fn new() -> (startup: Startup)
        ensures
            startup.phase == StartupPhase::Configuring,
    {
        Startup { phase: StartupPhase::Configuring }
    }

    /// Whether `event` may be fed to [`Startup::step`] now.
    pub fn accepts(&self, event: &StartupEvent) -> (accepted: bool)
        ensures
            accepted == startup_accepts(self.phase, *event),
    {
        match self.phase {
            StartupPhase::Configuring => match event {
                StartupEvent::ParamsParsed(_) => true,
                StartupEvent::ParamsRejected => true,
                _ => false,
            },
            StartupPhase::Bootstrapping { .. } => match event {
                StartupEvent::UserChanged(_) => true,
                StartupEvent::UserChannelClosed => true,
                _ => false,
            },
            StartupPhase::Binding => match event {
                StartupEvent::Listening => true,
                StartupEvent::SocketFailed(_) => true,
                _ => false,
            },
            StartupPhase::Accepting => match event {
                StartupEvent::Accepted => true,
                StartupEvent::AcceptFailed => true,
                _ => false,
            },
            StartupPhase::Exited(_) => false,
        }
    }

    /// Ends the process with `error`.
    fn exit(&mut self, error: MainError) -> (action: StartupAction)
        ensures
            (StartupStep { phase: final(self).phase, action }) == exiting(error),
    {
        self.phase = StartupPhase::Exited(error);
        StartupAction::Exit { code: exit_code(Err(error)), error }
    }

    /// Takes the outcome of the wait for the user: with a session the socket
    /// is next, without one the process ends and no socket is asked for.
    fn on_bootstrap(
        &mut self,
        port: u16,
        outcome: Result<(), MakingClientError>,
    ) -> (action: StartupAction)
        ensures
            (StartupStep { phase: final(self).phase, action }) == after_bootstrap(port, outcome),
    {
        match outcome {
            Ok(_) => {
                self.phase = StartupPhase::Binding;
                StartupAction::Listen(ListenRequest::on_port(port))
            },
            Err(error) => self.exit(MainError::MakingClient(error)),
        }
    }

    /// Advances the start by one event and says what to do next.
    pub fn step(&mut self, event: StartupEvent) -> (action: StartupAction)
        requires
            startup_accepts(old(self).phase, event),
        ensures
            (StartupStep { phase: final(self).phase, action }) == startup_step_of(
                old(self).phase,
                event,
            ),
    {
        match (self.phase, event) {
            (StartupPhase::Configuring, StartupEvent::ParamsParsed(params)) => {
                self.phase = StartupPhase::Bootstrapping { port: params.port };
                StartupAction::ConnectPresence(PresenceRequest::for_app(params.app_id))
            },
            (StartupPhase::Configuring, StartupEvent::ParamsRejected) => self.exit(
                MainError::ParsingCliParams,
            ),
            (StartupPhase::Bootstrapping { port }, StartupEvent::UserChanged(user)) => {
                let outcome = bootstrap_outcome(Some(user));
                self.on_bootstrap(port, outcome)
            },
            (StartupPhase::Bootstrapping { port }, StartupEvent::UserChannelClosed) => {
                let outcome = bootstrap_outcome(None);
                self.on_bootstrap(port, outcome)
            },
            (StartupPhase::Binding, StartupEvent::Listening) => {
                self.phase = StartupPhase::Accepting;
                StartupAction::Accept
            },
            (StartupPhase::Binding, StartupEvent::SocketFailed(stage)) => {
                let error = match stage {
                    SocketStage::Create => MainError::CreatingTcpSocket,
                    SocketStage::Bind => MainError::BindingSocket,
                    SocketStage::Listen => MainError::ListeningForConnections,
                };
                self.exit(error)
            },
            (StartupPhase::Accepting, StartupEvent::Accepted) => StartupAction::Dispatch,
            (StartupPhase::Accepting, StartupEvent::AcceptFailed) => self.exit(
                MainError::AcceptingConnections,
            ),
            // No pair that `startup_accepts` admits comes here.
            (StartupPhase::Exited(error), _) => self.exit(error),
            _ => self.exit(MainError::AcceptingConnections),
        }
    }
}

/// Where a start has led: the phase, and every action that was handed out,
/// in order.
pub struct StartupRun {
    pub phase: StartupPhase,
    pub actions: Seq<StartupAction>,
}

/// The start of a process over `events`, from the very beginning.
pub open spec fn startup_run(events: Seq<StartupEvent>) -> StartupRun
    decreases events.len(),
{
    if events.len() == 0 {
        StartupRun { phase: StartupPhase::Configuring, actions: Seq::empty() }
    } else {
        let before = startup_run(events.drop_last());
        let step = startup_step_of(before.phase, events.last());
        StartupRun { phase: step.phase, actions: before.actions.push(step.action) }
    }
}

/// Whether every event of a start answers what the process waits for at that
/// point.
pub open spec fn startup_in_turn(events: Seq<StartupEvent>) -> bool
    decreases events.len(),
{
    events.len() == 0 || (startup_in_turn(events.drop_last()) && startup_accepts(
        startup_run(events.drop_last()).phase,
        events.last(),
    ))
}

/// How many times `actions` ask for a listening socket.
pub open spec fn listens(actions: Seq<StartupAction>) -> nat
    decreases actions.len(),
{
    if actions.len() == 0 {
        0
    } else if actions.last() is Listen {
        listens(actions.drop_last()) + 1
    } else {
        listens(actions.drop_last())
    }
}

/// How many times `actions` ask for a presence session.
pub open spec fn sessions(actions: Seq<StartupAction>) -> nat
    decreases actions.len(),
{
    if actions.len() == 0 {
        0
    } else if actions.last() is ConnectPresence {
        sessions(actions.drop_last()) + 1
    } else {
        sessions(actions.drop_last())
    }
}

/// Whether the presence service reported the user as disconnected at some
/// point of `events`.
pub open spec fn reports_disconnected(events: Seq<StartupEvent>) -> bool {
    exists|i: int|
        0 <= i < events.len() && #[trigger] events[i] == StartupEvent::UserChanged(
            UserState::Disconnected,
        )
}

/// Whether a process in `phase` has not come to ask for a socket.
pub open spec fn before_socket(phase: StartupPhase) -> bool {
    match phase {
        StartupPhase::Configuring => true,
        StartupPhase::Bootstrapping { .. } => true,
        StartupPhase::Exited(MainError::ParsingCliParams) => true,
        StartupPhase::Exited(MainError::MakingClient(_)) => true,
        _ => false,
    }
}

/// Whether a process in `phase` has not come to ask for a presence session.
pub open spec fn before_session(phase: StartupPhase) -> bool {
    match phase {
        StartupPhase::Configuring => true,
        StartupPhase::Exited(MainError::ParsingCliParams) => true,
        _ => false,
    }
}

/// The order of a start. At every point of every start, a presence session
/// has been asked for at most once, and a socket at most once and only after
/// the session stood. A start in which the user was reported as disconnected
/// has ended on that report, with the connect failure.
pub proof fn lemma_startup_order(events: Seq<StartupEvent>)
    requires
        startup_in_turn(events),
    ensures
        sessions(startup_run(events).actions) == if before_session(startup_run(events).phase) {
            0nat
        } else {
            1nat
        },
        listens(startup_run(events).actions) == if before_socket(startup_run(events).phase) {
            0nat
        } else {
            1nat
        },
        reports_disconnected(events) ==> startup_run(events).phase == StartupPhase::Exited(
            MainError::MakingClient(MakingClientError::DiscordConnectFailure),
        ),
        startup_run(events).actions.len() == events.len(),
        startup_run(events).phase matches StartupPhase::Exited(error) ==> events.len() > 0
            && startup_run(events).actions.last() == (StartupAction::Exit { code: 1, error }),
    decreases events.len(),
{
    if events.len() > 0 {
        let earlier = events.drop_last();
        let before = startup_run(earlier);
        let step = startup_step_of(before.phase, events.last());
        lemma_startup_order(earlier);
        assert(before.actions.push(step.action).drop_last() =~= before.actions);
        if reports_disconnected(events) {
            let i = choose|i: int|
                0 <= i < events.len() && #[trigger] events[i] == StartupEvent::UserChanged(
                    UserState::Disconnected,
                );
            if i < earlier.len() {
                assert(earlier[i] == events[i]);
                assert(reports_disconnected(earlier));
            }
        }
    }
}

/// Where the presence service reports the user as disconnected, the process
/// ends with exit code 1 and the connect failure, and no socket was ever
/// asked for.
pub proof fn lemma_disconnected_opens_no_socket(events: Seq<StartupEvent>)
    requires
        startup_in_turn(events),
        reports_disconnected(events),
    ensures
        listens(startup_run(events).actions) == 0,
        startup_run(events).phase == StartupPhase::Exited(
            MainError::MakingClient(MakingClientError::DiscordConnectFailure),
        ),
        startup_run(events).actions.last() == (StartupAction::Exit {
            code: 1,
            error: MainError::MakingClient(MakingClientError::DiscordConnectFailure),
        }),
{
    lemma_startup_order(events);
}

} // verus!
