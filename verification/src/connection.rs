//! The protocol of one agent connection, as a machine that is stepped from
//! outside.
//!
//! The caller owns the socket and the presence session. It performs the
//! [`Action`] that a step hands out and feeds the [`Event`] that came of it
//! into the next step. A connection starts in [`Phase::Upgrading`], with the
//! WebSocket handshake as the work to do.

use crate::message::{decoded, AgentMessage, DecodeError};
use crate::presence::{payload_for, ActivityPayload, PayloadView};
use crate::state::State;
use vstd::prelude::*;
use vstd::utf8::encode_utf8;

verus! {

/// Why a connection was given up.
#[derive(Clone, Copy, Debug, PartialEq, Eq, Structural)]
pub enum ConnectionHandlingError {
    /// The WebSocket handshake failed.
    AcceptingConnection,
    /// A message was not a command.
    ParsingMessage(DecodeError),
    /// The presence service refused or lost an update.
    SendingActivityUpdate,
}

/// How a connection ended.
#[derive(Clone, Copy, Debug, PartialEq, Eq, Structural)]
pub enum Outcome {
    /// The peer closed the stream. No error.
    Finished,
    /// The handler returned an error, which is logged.
    Failed(ConnectionHandlingError),
    /// The transport broke while a message was read. The task of this
    /// connection is aborted; no error value is returned.
    Aborted,
}

/// Where a connection stands.
#[derive(Clone, Copy, Debug, PartialEq, Eq, Structural)]
pub enum Phase {
    /// The handshake is under way.
    Upgrading,
    /// The next message is awaited.
    Streaming,
    /// The presence service has been sent `count` and its answer is awaited.
    Updating { count: u32 },
    /// Nothing more happens on this connection.
    Closed(Outcome),
}

/// One message of the stream.
#[derive(Clone, Debug)]
pub enum Frame {
    Text(String),
    Binary(Vec<u8>),
    /// A frame of any other kind. The protocol has no rule for it.
    Other,
}

impl Frame {
    /// The bytes that are decoded: a text frame's UTF-8, a binary frame's
    /// content.
    pub open spec fn payload(self) -> Seq<u8> {
        match self {
            Frame::Text(text) => encode_utf8(text@),
            Frame::Binary(bytes) => bytes@,
            Frame::Other => Seq::empty(),
        }
    }
}

/// What came of the work that the connection was waiting for.
#[derive(Clone, Debug)]
pub enum Event {
    /// The handshake succeeded.
    Upgraded,
    /// The handshake failed.
    UpgradeFailed,
    /// The stream yielded a message.
    Message(Frame),
    /// Reading the next message failed in the transport.
    TransportError,
    /// The stream yielded no more messages.
    StreamEnded,
    /// The presence service acknowledged the update.
    UpdateAcked,
    /// The update call failed.
    UpdateFailed,
}

/// What the caller does next.
#[derive(Clone, Debug)]
pub enum Action {
    /// Await the next message of the stream.
    ReadNext,
    /// Send the payload to the presence service and await its one answer.
    UpdateActivity(ActivityPayload),
    /// Drop the connection; it ended without error.
    Finish,
    /// Drop the connection and log the error.
    Fail(ConnectionHandlingError),
    /// Abort the task of this connection.
    Abort,
}

/// The mathematical content of an [`Action`].
pub enum ActionView {
    ReadNext,
    UpdateActivity(PayloadView),
    Finish,
    Fail(ConnectionHandlingError),
    Abort,
}

impl View for Action {
    type V = ActionView;

    open spec fn view(&self) -> ActionView {
        match self {
            Action::ReadNext => ActionView::ReadNext,
            Action::UpdateActivity(payload) => ActionView::UpdateActivity(payload@),
            Action::Finish => ActionView::Finish,
            Action::Fail(error) => ActionView::Fail(*error),
            Action::Abort => ActionView::Abort,
        }
    }
}

/// What one step yields: the connection's next phase, the shared state after
/// it, and the work for the caller.
pub struct Step {
    pub phase: Phase,
    pub state: State,
    pub action: ActionView,
}

/// Whether `event` answers what a connection in `phase` waits for. A frame
/// that is neither text nor binary answers nothing.
pub open spec fn accepts(phase: Phase, event: Event) -> bool {
    match phase {
        Phase::Upgrading => event is Upgraded || event is UpgradeFailed,
        Phase::Streaming => match event {
            Event::Message(frame) => !(frame is Other),
            Event::TransportError => true,
            Event::StreamEnded => true,
            _ => false,
        },
        Phase::Updating { .. } => event is UpdateAcked || event is UpdateFailed,
        Phase::Closed(_) => false,
    }
}

/// The action that goes with the end of a connection.
pub open spec fn closing_action(outcome: Outcome) -> ActionView {
    match outcome {
        Outcome::Finished => ActionView::Finish,
        Outcome::Failed(error) => ActionView::Fail(error),
        Outcome::Aborted => ActionView::Abort,
    }
}

/// The step that ends a connection with `outcome`. The shared state stays.
pub open spec fn closing(state: State, outcome: Outcome) -> Step {
    Step { phase: Phase::Closed(outcome), state, action: closing_action(outcome) }
}

/// The step that goes on to await the next message. The shared state stays.
pub open spec fn reading(state: State) -> Step {
    Step { phase: Phase::Streaming, state, action: ActionView::ReadNext }
}

/// The step of a streaming connection on a message that decoded to `message`:
/// a command is stored and sent on, anything else ends the connection.
pub open spec fn on_decoded(state: State, message: Result<AgentMessage, DecodeError>) -> Step {
    match message {
        Ok(AgentMessage::SetTabCount { count }) => Step {
            phase: Phase::Updating { count },
            state: state.with_last_seen(count),
            action: ActionView::UpdateActivity(payload_for(count)),
        },
        Err(error) => closing(
            state,
            Outcome::Failed(ConnectionHandlingError::ParsingMessage(error)),
        ),
    }
}

/// The step of a connection in `phase` on `event`, for every pair that
/// [`accepts`] admits. For the other pairs nothing is laid down.
pub open spec fn step_of(phase: Phase, state: State, event: Event) -> Step
    recommends
        accepts(phase, event),
{
    match (phase, event) {
        (Phase::Upgrading, Event::Upgraded) => reading(state),
        (Phase::Upgrading, Event::UpgradeFailed) => closing(
            state,
            Outcome::Failed(ConnectionHandlingError::AcceptingConnection),
        ),
        (Phase::Streaming, Event::Message(frame)) => on_decoded(state, decoded(frame.payload())),
        (Phase::Streaming, Event::TransportError) => closing(state, Outcome::Aborted),
        (Phase::Streaming, Event::StreamEnded) => closing(state, Outcome::Finished),
        (Phase::Updating { .. }, Event::UpdateAcked) => reading(state),
        (Phase::Updating { .. }, Event::UpdateFailed) => closing(
            state,
            Outcome::Failed(ConnectionHandlingError::SendingActivityUpdate),
        ),
        _ => arbitrary(),
    }
}

/// One agent connection.
#[derive(Clone, Copy, Debug)]
pub struct Connection {
    pub phase: Phase,
}

impl Connection {
    /// A connection that was just accepted: the handshake is the work to do.
    pub fn new() -> (connection: Connection)
        ensures
            connection.phase == Phase::Upgrading,
    {
        Connection { phase: Phase::Upgrading }
    }

    /// How the connection ended, once it has.
    pub fn outcome(&self) -> (outcome: Option<Outcome>)
        ensures
            outcome == match self.phase {
                Phase::Closed(outcome) => Some(outcome),
                _ => None::<Outcome>,
            },
    {
        match self.phase {
            Phase::Closed(outcome) => Some(outcome),
            _ => None,
        }
    }

    /// Whether `event` may be fed to [`Connection::step`] now.
    pub fn accepts(&self, event: &Event) -> (accepted: bool)
        ensures
            accepted == accepts(self.phase, *event),
    {
        match self.phase {
            Phase::Upgrading => match event {
                Event::Upgraded => true,
                Event::UpgradeFailed => true,
                _ => false,
            },
            Phase::Streaming => match event {
                Event::Message(Frame::Other) => false,
                Event::Message(_) => true,
                Event::TransportError => true,
                Event::StreamEnded => true,
                _ => false,
            },
            Phase::Updating { .. } => match event {
                Event::UpdateAcked => true,
                Event::UpdateFailed => true,
                _ => false,
            },
            Phase::Closed(_) => false,
        }
    }

    /// Ends the connection with `outcome`.
    fn close(&mut self, outcome: Outcome) -> (action: Action)
        ensures
            final(self).phase == Phase::Closed(outcome),
            action@ == closing_action(outcome),
    {
        self.phase = Phase::Closed(outcome);
        match outcome {
            Outcome::Finished => Action::Finish,
            Outcome::Failed(error) => Action::Fail(error),
            Outcome::Aborted => Action::Abort,
        }
    }

    /// Takes the outcome of decoding one message of a streaming connection.
    ///
    /// A command has its count stored in `state` first; then the payload for
    /// that count goes out as the action. A decode failure ends the
    /// connection and leaves `state` as it was.
    pub fn on_message(
        &mut self,
        state: &mut State,
        message: Result<AgentMessage, DecodeError>,
    ) -> (action: Action)
        requires
            old(self).phase is Streaming,
        ensures
            (Step { phase: final(self).phase, state: *final(state), action: action@ }) == on_decoded(
                *old(state),
                message,
            ),
    {
        match message {
            Ok(AgentMessage::SetTabCount { count }) => {
                state.store_last_seen(count);
                self.phase = Phase::Updating { count };
                Action::UpdateActivity(ActivityPayload::for_count(count))
            },
            Err(error) => self.close(
                Outcome::Failed(ConnectionHandlingError::ParsingMessage(error)),
            ),
        }
    }

    /// Advances the connection by one event and says what to do next.
    pub fn step(&mut self, state: &mut State, event: Event) -> (action: Action)
        requires
            accepts(old(self).phase, event),
        ensures
            (Step { phase: final(self).phase, state: *final(state), action: action@ }) == step_of(
                old(self).phase,
                *old(state),
                event,
            ),
    {
        match (self.phase, event) {
            (Phase::Upgrading, Event::Upgraded) => {
                self.phase = Phase::Streaming;
                Action::ReadNext
            },
            (Phase::Upgrading, Event::UpgradeFailed) => self.close(
                Outcome::Failed(ConnectionHandlingError::AcceptingConnection),
            ),
            (Phase::Streaming, Event::Message(Frame::Text(text))) => {
                let message = AgentMessage::decode(text.as_str().as_bytes());
                self.on_message(state, message)
            },
            (Phase::Streaming, Event::Message(Frame::Binary(bytes))) => {
                let message = AgentMessage::decode(bytes.as_slice());
                self.on_message(state, message)
            },
            (Phase::Streaming, Event::TransportError) => self.close(Outcome::Aborted),
            (Phase::Streaming, Event::StreamEnded) => self.close(Outcome::Finished),
            (Phase::Updating { .. }, Event::UpdateAcked) => {
                self.phase = Phase::Streaming;
                Action::ReadNext
            },
            (Phase::Updating { .. }, Event::UpdateFailed) => self.close(
                Outcome::Failed(ConnectionHandlingError::SendingActivityUpdate),
            ),
            // No pair that `accepts` admits comes here.
            _ => self.close(Outcome::Aborted),
        }
    }
}

} // verus!
