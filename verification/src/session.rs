//! Whole runs of connections: what a sequence of events leads to, and what
//! holds of every such run.

use crate::connection::{
    accepts, step_of, ActionView, ConnectionHandlingError, Event, Frame, Outcome, Phase,
};
use crate::message::{decoded, AgentMessage, DecodeError};
use crate::presence::{payload_for, status_text};
use crate::state::State;
use vstd::prelude::*;

verus! {

/// Where a run has led: the connection's phase, the shared state, and every
/// action that was handed out, in order.
pub struct Run {
    pub phase: Phase,
    pub state: State,
    pub actions: Seq<ActionView>,
}

/// The run of one connection from `phase` and `state` over `events`.
pub open spec fn run(phase: Phase, state: State, events: Seq<Event>) -> Run
    decreases events.len(),
{
    if events.len() == 0 {
        Run { phase, state, actions: Seq::empty() }
    } else {
        let before = run(phase, state, events.drop_last());
        let step = step_of(before.phase, before.state, events.last());
        Run { phase: step.phase, state: step.state, actions: before.actions.push(step.action) }
    }
}

/// Whether every event of a run answers what the connection waits for at
/// that point.
pub open spec fn in_turn(phase: Phase, state: State, events: Seq<Event>) -> bool
    decreases events.len(),
{
    events.len() == 0 || (in_turn(phase, state, events.drop_last()) && accepts(
        run(phase, state, events.drop_last()).phase,
        events.last(),
    ))
}

/// How many presence updates are among `actions`.
pub open spec fn updates(actions: Seq<ActionView>) -> nat
    decreases actions.len(),
{
    if actions.len() == 0 {
        0
    } else if actions.last() is UpdateActivity {
        updates(actions.drop_last()) + 1
    } else {
        updates(actions.drop_last())
    }
}

/// How many of `actions` report an error: a failure that is logged, or an
/// abort.
pub open spec fn errors(actions: Seq<ActionView>) -> nat
    decreases actions.len(),
{
    if actions.len() == 0 {
        0
    } else if actions.last() is Fail || actions.last() is Abort {
        errors(actions.drop_last()) + 1
    } else {
        errors(actions.drop_last())
    }
}

/// Whether a frame carries a command.
pub open spec fn is_command(frame: Frame) -> bool {
    !(frame is Other) && decoded(frame.payload()) is Ok
}

/// The count of the command that a frame carries.
pub open spec fn count_of(frame: Frame) -> u32
    recommends
        is_command(frame),
{
    decoded(frame.payload())->Ok_0.spec_count()
}

/// The events of a connection whose handshake succeeds and whose peer then
/// sends `frames`, each update being acknowledged before the next frame.
pub open spec fn exchange(frames: Seq<Frame>) -> Seq<Event>
    decreases frames.len(),
{
    if frames.len() == 0 {
        seq![Event::Upgraded]
    } else {
        exchange(frames.drop_last()).push(Event::Message(frames.last())).push(Event::UpdateAcked)
    }
}

/// The events of [`exchange`], and then the peer closing the stream.
pub open spec fn clean_session(frames: Seq<Frame>) -> Seq<Event> {
    exchange(frames).push(Event::StreamEnded)
}

/// A run over `events` and then one more event is the run over `events`,
/// stepped once.
pub proof fn lemma_run_push(phase: Phase, state: State, events: Seq<Event>, event: Event)
    ensures
        run(phase, state, events.push(event)) == ({
            let before = run(phase, state, events);
            let step = step_of(before.phase, before.state, event);
            Run { phase: step.phase, state: step.state, actions: before.actions.push(step.action) }
        }),
        in_turn(phase, state, events.push(event)) == (in_turn(phase, state, events) && accepts(
            run(phase, state, events).phase,
            event,
        )),
{
    assert(events.push(event).drop_last() =~= events);
}

/// One more action adds one to the count of updates if it is an update, and
/// one to the count of errors if it reports one.
pub proof fn lemma_count_push(actions: Seq<ActionView>, action: ActionView)
    ensures
        updates(actions.push(action)) == updates(actions) + if action is UpdateActivity {
            1nat
        } else {
            0nat
        },
        errors(actions.push(action)) == errors(actions) + if action is Fail || action is Abort {
            1nat
        } else {
            0nat
        },
{
    assert(actions.push(action).drop_last() =~= actions);
}

/// While the peer sends commands and each update is acknowledged, the
/// connection goes on streaming: one update per frame, no error, the last
/// frame's count in the shared state.
pub proof fn lemma_exchange(frames: Seq<Frame>, state: State)
    requires
        forall|i: int| 0 <= i < frames.len() ==> is_command(#[trigger] frames[i]),
    ensures
        in_turn(Phase::Upgrading, state, exchange(frames)),
        run(Phase::Upgrading, state, exchange(frames)).phase == Phase::Streaming,
        updates(run(Phase::Upgrading, state, exchange(frames)).actions) == frames.len(),
        errors(run(Phase::Upgrading, state, exchange(frames)).actions) == 0,
        run(Phase::Upgrading, state, exchange(frames)).state == if frames.len() == 0 {
            state
        } else {
            state.with_last_seen(count_of(frames.last()))
        },
    decreases frames.len(),
{
    if frames.len() == 0 {
        let none = Seq::<Event>::empty();
        assert(exchange(frames) =~= none.push(Event::Upgraded));
        lemma_run_push(Phase::Upgrading, state, none, Event::Upgraded);
        lemma_count_push(Seq::empty(), ActionView::ReadNext);
    } else {
        let earlier = frames.drop_last();
        let frame = frames.last();
        assert forall|i: int| 0 <= i < earlier.len() implies is_command(#[trigger] earlier[i]) by {
            assert(earlier[i] == frames[i]);
        }
        lemma_exchange(earlier, state);
        assert(is_command(frames[frames.len() - 1]));
        let sent = exchange(earlier).push(Event::Message(frame));
        let before = run(Phase::Upgrading, state, exchange(earlier));
        lemma_run_push(Phase::Upgrading, state, exchange(earlier), Event::Message(frame));
        lemma_run_push(Phase::Upgrading, state, sent, Event::UpdateAcked);
        let update = step_of(before.phase, before.state, Event::Message(frame)).action;
        lemma_count_push(before.actions, update);
        lemma_count_push(before.actions.push(update), ActionView::ReadNext);
    }
}

/// A connection whose peer sends any number of commands and then closes the
/// stream hands out exactly one presence update per command and reports no
/// error. It ends as finished.
pub proof fn lemma_clean_session(frames: Seq<Frame>, state: State)
    requires
        forall|i: int| 0 <= i < frames.len() ==> is_command(#[trigger] frames[i]),
    ensures
        in_turn(Phase::Upgrading, state, clean_session(frames)),
        run(Phase::Upgrading, state, clean_session(frames)).phase == Phase::Closed(
            Outcome::Finished,
        ),
        updates(run(Phase::Upgrading, state, clean_session(frames)).actions) == frames.len(),
        errors(run(Phase::Upgrading, state, clean_session(frames)).actions) == 0,
{
    lemma_exchange(frames, state);
    lemma_run_push(Phase::Upgrading, state, exchange(frames), Event::StreamEnded);
    lemma_count_push(run(Phase::Upgrading, state, exchange(frames)).actions, ActionView::Finish);
}

/// A streaming connection that receives the command `SetTabCount` with any
/// count stores that count and asks for the update that reports it.
pub proof fn lemma_command_is_stored(frame: Frame, count: u32, state: State)
    requires
        decoded(frame.payload()) == Ok::<AgentMessage, DecodeError>(
            AgentMessage::SetTabCount { count },
        ),
    ensures
        step_of(Phase::Streaming, state, Event::Message(frame)).state.last_seen == count,
        step_of(Phase::Streaming, state, Event::Message(frame)).state.connected == state.connected,
        step_of(Phase::Streaming, state, Event::Message(frame)).phase == (Phase::Updating {
            count,
        }),
        step_of(Phase::Streaming, state, Event::Message(frame)).action == ActionView::UpdateActivity(
            payload_for(count),
        ),
{
}

/// A message that is no command ends the connection that received it, and
/// nothing else: the shared state is as before, so a step of any other
/// connection, in whatever phase and on whatever event, comes out as it would
/// have without the failure.
pub proof fn lemma_failure_is_contained(
    frame: Frame,
    error: DecodeError,
    state: State,
    other: Phase,
    event: Event,
)
    requires
        decoded(frame.payload()) == Err::<AgentMessage, DecodeError>(error),
    ensures
        step_of(Phase::Streaming, state, Event::Message(frame)).phase == Phase::Closed(
            Outcome::Failed(ConnectionHandlingError::ParsingMessage(error)),
        ),
        step_of(Phase::Streaming, state, Event::Message(frame)).action == ActionView::Fail(
            ConnectionHandlingError::ParsingMessage(error),
        ),
        step_of(Phase::Streaming, state, Event::Message(frame)).state == state,
        step_of(other, step_of(Phase::Streaming, state, Event::Message(frame)).state, event)
            == step_of(other, state, event),
{
}

/// Of two connections on one shared state, the one whose command is taken
/// later wins: once the first connection's update has returned, a command on
/// the second leaves its own count in the shared state and its own status
/// line in the update that goes out.
pub proof fn lemma_last_writer_wins(first: Frame, second: Frame, a: u32, b: u32, state: State)
    requires
        decoded(first.payload()) == Ok::<AgentMessage, DecodeError>(
            AgentMessage::SetTabCount { count: a },
        ),
        decoded(second.payload()) == Ok::<AgentMessage, DecodeError>(
            AgentMessage::SetTabCount { count: b },
        ),
    ensures
        ({
            let sent = step_of(Phase::Streaming, state, Event::Message(first));
            let returned = step_of(sent.phase, sent.state, Event::UpdateAcked);
            let later = step_of(Phase::Streaming, returned.state, Event::Message(second));
            &&& accepts(sent.phase, Event::UpdateAcked)
            &&& later.state.last_seen == b
            &&& later.action matches ActionView::UpdateActivity(payload)
            &&& payload.state == status_text(b)
        }),
{
}

} // verus!
