//! What the task that writes and the drain do, step by step and over whole runs: no command is
//! lost, and neither stops while there is work that it can do.
use vstd::prelude::*;

use crate::command::{logged, unlogged, CommandView, DatabaseOperation, LoggedCommandView};
use crate::delivery::{
    drain_after, drain_event_happens, drain_events_happen, drain_run, drain_started,
    law_clear_flag_means_drained, was_acknowledged, writer_after, writer_event_happens,
    writer_events_happen, writer_run, writer_started, Acknowledged, DrainSystem, WriterSystem,
};
use crate::drain::{
    attempt_drainable, drain_dirty, drain_expects, drain_step, DrainAction, DrainActionView,
    DrainEvent, DrainEventView, DrainState, DrainStateView,
};
use crate::error::CacheErrorView;
use crate::pipeline::{drainable, drained};
use crate::wal_laws::Wal;
use crate::wire::{pipeline_atomic, pipeline_commands};
use crate::writer::{
    writer_dirty, writer_event_drainable, writer_expects, writer_step, WriterAction,
    WriterActionView, WriterEvent, WriterEventView, WriterState,
};

verus! {

/// Every command that the task receives is appended as it is, whatever its key, its payload and its
/// operation type, but for the closing command, which ends the task.
pub proof fn law_received_command_is_appended(trader_key: Seq<char>, message: CommandView)
    ensures
        writer_expects(WriterState::Waiting, WriterEventView::Received(message)),
        writer_step(trader_key, WriterState::Waiting, WriterEventView::Received(message)) == (
            if message.op_type == DatabaseOperation::Close {
                (WriterState::Stopped, WriterActionView::Stop)
            } else {
                (WriterState::Appending, WriterActionView::Append(message))
            }),
{
}

/// The task waits on after an append, whether it succeeded or not.
pub proof fn law_writer_waits_after_append(trader_key: Seq<char>, stored: bool)
    ensures
        writer_expects(WriterState::Appending, (WriterEventView::AppendFinished { stored })),
        writer_step(
            trader_key,
            WriterState::Appending,
            (WriterEventView::AppendFinished { stored }),
        ) == (WriterState::Waiting, WriterActionView::Wait),
{
}

/// At the end of each interval the task checks the connection, and reads the log where it is alive;
/// where it is not, a connection is made for the next interval.
pub proof fn law_interval_begins_a_pass(trader_key: Seq<char>, made: bool)
    ensures
        writer_expects(WriterState::Waiting, WriterEventView::IntervalElapsed),
        writer_step(trader_key, WriterState::Waiting, WriterEventView::IntervalElapsed) == (
            WriterState::CheckingConnection,
            WriterActionView::CheckConnection,
        ),
        writer_step(
            trader_key,
            WriterState::CheckingConnection,
            (WriterEventView::ConnectionChecked { alive: true }),
        ) == (WriterState::ReadingNext, WriterActionView::ReadNext),
        writer_step(
            trader_key,
            WriterState::CheckingConnection,
            (WriterEventView::ConnectionChecked { alive: false }),
        ) == (WriterState::Reconnecting, WriterActionView::Reconnect),
        writer_step(
            trader_key,
            WriterState::Reconnecting,
            (WriterEventView::Reconnected { made }),
        ) == (WriterState::Waiting, WriterActionView::Wait),
{
}

/// Within a pass, the operation that the log gives is sent as one transaction of exactly the
/// commands that carry it out, whatever operation it is; it is committed where Redis carried it
/// out, and where the commit succeeded the next one is read.
pub proof fn law_pass_carries_out_what_is_read(
    trader_key: Seq<char>,
    sequence: u64,
    message: CommandView,
)
    ensures
        writer_step(
            trader_key,
            WriterState::ReadingNext,
            (WriterEventView::NextRead { next: Some((sequence, message)) }),
        ) == (match drained(trader_key, message) {
            Ok(commands) => (
                WriterState::Sending { sequence },
                WriterActionView::Send { sequence, atomic: true, commands },
            ),
            Err(error) => (WriterState::Waiting, WriterActionView::Refuse { sequence, error }),
        }),
        writer_step(
            trader_key,
            (WriterState::Sending { sequence }),
            (WriterEventView::Sent { accepted: true }),
        ) == (WriterState::Committing { sequence }, WriterActionView::Commit { sequence }),
        writer_step(
            trader_key,
            (WriterState::Committing { sequence }),
            (WriterEventView::Committed { stored: true }),
        ) == (WriterState::ReadingNext, WriterActionView::ReadNext),
{
}

/// A pass ends where the log gives no operation, the operation can not be carried out, Redis did
/// not carry it out or the commit failed; the task ends where the log can not be read or the
/// process is to shut down.
pub proof fn law_pass_ends(trader_key: Seq<char>, sequence: u64)
    ensures
        writer_step(
            trader_key,
            WriterState::ReadingNext,
            (WriterEventView::NextRead { next: None }),
        ) == (WriterState::Waiting, WriterActionView::Wait),
        writer_step(
            trader_key,
            (WriterState::Sending { sequence }),
            (WriterEventView::Sent { accepted: false }),
        ) == (WriterState::Waiting, WriterActionView::Wait),
        writer_step(
            trader_key,
            (WriterState::Committing { sequence }),
            (WriterEventView::Committed { stored: false }),
        ) == (WriterState::Waiting, WriterActionView::Wait),
        writer_step(trader_key, WriterState::ReadingNext, WriterEventView::ReadFailed) == (
            WriterState::Failed,
            WriterActionView::Fail,
        ),
        writer_step(trader_key, WriterState::Waiting, WriterEventView::ShutdownNotified) == (
            WriterState::Stopped,
            WriterActionView::Stop,
        ),
{
}

/// In each state the task takes every event that its last action can lead to, and no other.
pub proof fn law_writer_takes_every_outcome(state: WriterState, event: WriterEventView)
    ensures
        writer_expects(state, event) <==> match (state, event) {
            (WriterState::Waiting, WriterEventView::Received(_)) => true,
            (WriterState::Waiting, WriterEventView::IntervalElapsed) => true,
            (WriterState::Waiting, WriterEventView::ShutdownNotified) => true,
            (WriterState::Appending, WriterEventView::AppendFinished { .. }) => true,
            (WriterState::CheckingConnection, WriterEventView::ConnectionChecked { .. }) => true,
            (WriterState::Reconnecting, WriterEventView::Reconnected { .. }) => true,
            (WriterState::ReadingNext, WriterEventView::NextRead { .. }) => true,
            (WriterState::ReadingNext, WriterEventView::ReadFailed) => true,
            (WriterState::Sending { .. }, WriterEventView::Sent { .. }) => true,
            (WriterState::Committing { .. }, WriterEventView::Committed { .. }) => true,
            _ => false,
        },
{
}

/// The task and the drain ask of an operation that it can be carried out exactly where they try it.
pub proof fn law_operation_is_asked_for_where_it_is_tried(
    trader_key: Seq<char>,
    event: WriterEventView,
    drain_state: DrainStateView,
    drain_event: DrainEventView,
)
    ensures
        writer_event_drainable(trader_key, event) <==> (
        event matches WriterEventView::NextRead { next } ==> (next matches Some((_, message))
            ==> drainable(trader_key, message))),
        attempt_drainable(trader_key, drain_state, drain_event) <==> match (
            drain_state,
            drain_event,
        ) {
            (
                DrainStateView::CheckingConnection { message, .. },
                DrainEventView::ConnectionChecked { alive },
            ) => alive ==> drainable(trader_key, message),
            (
                DrainStateView::Reconnecting { message, .. },
                DrainEventView::Reconnected { made },
            ) => made ==> drainable(trader_key, message),
            _ => true,
        },
{
}

/// The task sets the flag where an append succeeded, and leaves it alone otherwise.
pub proof fn law_append_sets_the_flag(dirty: bool, event: WriterEventView)
    ensures
        writer_dirty(dirty, event) <==> dirty || (event matches WriterEventView::AppendFinished {
            stored,
        } && stored),
{
}

/// What an event of the task says is what it holds.
pub proof fn law_writer_event_says_what_it_holds(event: WriterEvent)
    ensures
        match event {
            WriterEvent::Received(message) => event@ == WriterEventView::Received(message@),
            WriterEvent::IntervalElapsed => event@ == WriterEventView::IntervalElapsed,
            WriterEvent::ShutdownNotified => event@ == WriterEventView::ShutdownNotified,
            WriterEvent::AppendFinished { stored } => event@ == (WriterEventView::AppendFinished {
                stored,
            }),
            WriterEvent::ConnectionChecked { alive } => event@ == (
            WriterEventView::ConnectionChecked { alive }),
            WriterEvent::Reconnected { made } => event@ == (WriterEventView::Reconnected { made }),
            WriterEvent::NextRead { next: Some((sequence, message)) } => event@ == (
            WriterEventView::NextRead { next: Some((sequence, message@)) }),
            WriterEvent::NextRead { next: None } => event@ == (WriterEventView::NextRead {
                next: None,
            }),
            WriterEvent::ReadFailed => event@ == WriterEventView::ReadFailed,
            WriterEvent::Sent { accepted } => event@ == (WriterEventView::Sent { accepted }),
            WriterEvent::Committed { stored } => event@ == (WriterEventView::Committed { stored }),
        },
{
}

/// What an action of the task says is what it holds.
pub proof fn law_writer_action_says_what_it_holds(action: WriterAction)
    ensures
        match action {
            WriterAction::Wait => action@ == WriterActionView::Wait,
            WriterAction::Append(message) => action@ == WriterActionView::Append(message@),
            WriterAction::CheckConnection => action@ == WriterActionView::CheckConnection,
            WriterAction::Reconnect => action@ == WriterActionView::Reconnect,
            WriterAction::ReadNext => action@ == WriterActionView::ReadNext,
            WriterAction::Send { sequence, pipe } => action@ == (WriterActionView::Send {
                sequence,
                atomic: pipeline_atomic(pipe),
                commands: pipeline_commands(pipe),
            }),
            WriterAction::Refuse { sequence, error } => action@ == (WriterActionView::Refuse {
                sequence,
                error: error@,
            }),
            WriterAction::Commit { sequence } => action@ == (WriterActionView::Commit { sequence }),
            WriterAction::Stop => action@ == WriterActionView::Stop,
            WriterAction::Fail => action@ == WriterActionView::Fail,
        },
{
}

/// The commands that were received and whose append succeeded, in the order in which they were
/// received.
pub open spec fn accepted(events: Seq<WriterEventView>) -> Seq<CommandView>
    decreases events.len(),
{
    if events.len() < 2 {
        Seq::empty()
    } else {
        match (events[events.len() - 2], events.last()) {
            (WriterEventView::Received(message), WriterEventView::AppendFinished { stored: true })
                => accepted(events.drop_last()).push(message),
            _ => accepted(events.drop_last()),
        }
    }
}

/// Whether an operation of the log is a command in its logged form, committed or not.
pub open spec fn holds_message(operation: LoggedCommandView, message: CommandView) -> bool {
    &&& operation.op_type == logged(message).op_type
    &&& operation.key == message.key
    &&& operation.payload == message.payload
}

/// No command that the task receives is lost: each but the closing command is at once being
/// appended, and nothing happens to the task before the outcome of that; the log holds, behind what
/// it held at the start, the commands whose append succeeded, all of them and in the order in which
/// they were received.
pub proof fn law_no_received_command_is_lost(
    trader_key: Seq<char>,
    wal: Wal,
    dirty: bool,
    events: Seq<WriterEventView>,
)
    requires
        writer_events_happen(trader_key, writer_started(wal, dirty), events),
    ensures
        ({
            let sys = writer_run(trader_key, writer_started(wal, dirty), events);
            &&& sys.wal.next == wal.next + accepted(events).len()
            &&& forall|i: int|
                0 <= i < accepted(events).len() ==> holds_message(
                    sys.wal.operations[(wal.next + i) as u64],
                    #[trigger] accepted(events)[i],
                )
            &&& events.len() > 0 ==> match events.last() {
                WriterEventView::Received(message) => message.op_type != DatabaseOperation::Close
                    ==> sys.state == WriterState::Appending && sys.appending == Some(message),
                _ => true,
            }
            &&& sys.state == WriterState::Appending ==> events.len() > 0 && (
            events.last() matches WriterEventView::Received(message) && sys.appending == Some(
                message,
            ) && message.op_type != DatabaseOperation::Close)
            &&& forall|i: int|
                0 <= i < events.len() - 1 && (
                #[trigger] events[i] matches WriterEventView::Received(message) && message.op_type
                    != DatabaseOperation::Close) ==> events[i + 1] is AppendFinished
        }),
    decreases events.len(),
{
    if events.len() > 0 {
        let start = writer_started(wal, dirty);
        let before = events.drop_last();
        let earlier = writer_run(trader_key, start, before);
        let sys = writer_run(trader_key, start, events);
        law_no_received_command_is_lost(trader_key, wal, dirty, before);
        if events.len() > 1 {
            assert(before.last() == events[events.len() - 2]);
        }
        assert forall|i: int|
            0 <= i < accepted(events).len() implies holds_message(
            sys.wal.operations[(wal.next + i) as u64],
            #[trigger] accepted(events)[i],
        ) by {
            if i < accepted(before).len() {
                assert(accepted(events)[i] == accepted(before)[i]);
            }
        }
        assert forall|i: int|
            0 <= i < events.len() - 1 && (#[trigger] events[i] matches WriterEventView::Received(
                message,
            ) && message.op_type != DatabaseOperation::Close) implies events[i
            + 1] is AppendFinished by {
            assert(before[i] == events[i]);
            if i + 1 < before.len() {
                assert(before[i + 1] == events[i + 1]);
            }
        }
    }
}

/// The drain goes on with every operation that the log gives, whatever operation it is: it checks
/// the connection for exactly that operation.
pub proof fn law_drain_takes_up_what_is_read(
    trader_key: Seq<char>,
    sequence: u64,
    message: CommandView,
)
    ensures
        drain_step(
            trader_key,
            DrainStateView::ReadingNext,
            (DrainEventView::NextRead { next: Some((sequence, message)) }),
        ) == (
            DrainStateView::CheckingConnection { sequence, message },
            DrainActionView::CheckConnection,
        ),
{
}

/// Where the connection is alive or could be made anew, the operation that the drain has taken up
/// is sent as one transaction of exactly the commands that carry it out; where there are none, and
/// where no connection could be made, it is kept for two seconds and then tried again.
pub proof fn law_drain_tries_until_it_is_sent(
    trader_key: Seq<char>,
    sequence: u64,
    message: CommandView,
)
    ensures
        ({
            let tried = match drained(trader_key, message) {
                Ok(commands) => (
                    DrainStateView::Sending { sequence, message },
                    DrainActionView::Send { sequence, atomic: true, commands },
                ),
                Err(error) => (
                    DrainStateView::Pausing { sequence, message },
                    DrainActionView::Refuse { sequence, error, millis: 2000 },
                ),
            };
            let kept = (
                DrainStateView::Pausing { sequence, message },
                DrainActionView::Pause { millis: 2000 },
            );
            let checking = DrainStateView::CheckingConnection { sequence, message };
            let reconnecting = DrainStateView::Reconnecting { sequence, message };
            let pausing = DrainStateView::Pausing { sequence, message };
            let sending = DrainStateView::Sending { sequence, message };
            &&& drain_step(
                trader_key,
                checking,
                (DrainEventView::ConnectionChecked { alive: true }),
            ) == tried
            &&& drain_step(
                trader_key,
                checking,
                (DrainEventView::ConnectionChecked { alive: false }),
            ) == (reconnecting, DrainActionView::Reconnect)
            &&& drain_step(
                trader_key,
                reconnecting,
                (DrainEventView::Reconnected { made: true }),
            ) == tried
            &&& drain_step(
                trader_key,
                reconnecting,
                (DrainEventView::Reconnected { made: false }),
            ) == kept
            &&& drain_step(trader_key, pausing, DrainEventView::PauseEnded) == (
                checking,
                DrainActionView::CheckConnection,
            )
            &&& drain_step(trader_key, sending, (DrainEventView::Sent { accepted: false })) == kept
            &&& drain_step(trader_key, sending, (DrainEventView::Sent { accepted: true })) == (
                DrainStateView::Committing { sequence },
                DrainActionView::Commit { sequence },
            )
        }),
{
}

/// The drain reads on where a commit succeeded. It ends where the log gives no operation or a
/// commit failed, and it fails where the log can not be read.
pub proof fn law_drain_reads_on_or_ends(trader_key: Seq<char>, sequence: u64)
    ensures
        drain_step(
            trader_key,
            (DrainStateView::Committing { sequence }),
            (DrainEventView::Committed { stored: true }),
        ) == (DrainStateView::ReadingNext, DrainActionView::ReadNext),
        drain_step(
            trader_key,
            (DrainStateView::Committing { sequence }),
            (DrainEventView::Committed { stored: false }),
        ) == (DrainStateView::Finished, DrainActionView::Finish),
        drain_step(
            trader_key,
            DrainStateView::ReadingNext,
            (DrainEventView::NextRead { next: None }),
        ) == (DrainStateView::Finished, DrainActionView::Finish),
        drain_step(trader_key, DrainStateView::ReadingNext, DrainEventView::ReadFailed) == (
            DrainStateView::Failed,
            DrainActionView::Fail,
        ),
{
}

/// In each state the drain takes every event that its last action can lead to, and no other.
pub proof fn law_drain_takes_every_outcome(state: DrainStateView, event: DrainEventView)
    ensures
        drain_expects(state, event) <==> match (state, event) {
            (DrainStateView::ReadingNext, DrainEventView::NextRead { .. }) => true,
            (DrainStateView::ReadingNext, DrainEventView::ReadFailed) => true,
            (
                DrainStateView::CheckingConnection { .. },
                DrainEventView::ConnectionChecked { .. },
            ) => true,
            (DrainStateView::Reconnecting { .. }, DrainEventView::Reconnected { .. }) => true,
            (DrainStateView::Pausing { .. }, DrainEventView::PauseEnded) => true,
            (DrainStateView::Sending { .. }, DrainEventView::Sent { .. }) => true,
            (DrainStateView::Committing { .. }, DrainEventView::Committed { .. }) => true,
            _ => false,
        },
{
}

/// The drain clears the flag where the log gives no operation, and leaves it alone otherwise.
pub proof fn law_empty_log_clears_the_flag(dirty: bool, event: DrainEventView)
    ensures
        drain_dirty(dirty, event) <==> dirty && !(event matches DrainEventView::NextRead { next }
            && next is None),
{
}

/// What a state of the drain says is what it holds.
pub proof fn law_drain_state_says_what_it_holds(state: DrainState)
    ensures
        match state {
            DrainState::ReadingNext => state@ == DrainStateView::ReadingNext,
            DrainState::CheckingConnection { sequence, message } => state@ == (
            DrainStateView::CheckingConnection { sequence, message: message@ }),
            DrainState::Reconnecting { sequence, message } => state@ == (
            DrainStateView::Reconnecting { sequence, message: message@ }),
            DrainState::Pausing { sequence, message } => state@ == (DrainStateView::Pausing {
                sequence,
                message: message@,
            }),
            DrainState::Sending { sequence, message } => state@ == (DrainStateView::Sending {
                sequence,
                message: message@,
            }),
            DrainState::Committing { sequence } => state@ == (DrainStateView::Committing {
                sequence,
            }),
            DrainState::Finished => state@ == DrainStateView::Finished,
            DrainState::Failed => state@ == DrainStateView::Failed,
        },
{
}

/// What an event of the drain says is what it holds.
pub proof fn law_drain_event_says_what_it_holds(event: DrainEvent)
    ensures
        match event {
            DrainEvent::NextRead { next: Some((sequence, message)) } => event@ == (
            DrainEventView::NextRead { next: Some((sequence, message@)) }),
            DrainEvent::NextRead { next: None } => event@ == (DrainEventView::NextRead {
                next: None,
            }),
            DrainEvent::ReadFailed => event@ == DrainEventView::ReadFailed,
            DrainEvent::ConnectionChecked { alive } => event@ == (
            DrainEventView::ConnectionChecked { alive }),
            DrainEvent::Reconnected { made } => event@ == (DrainEventView::Reconnected { made }),
            DrainEvent::PauseEnded => event@ == DrainEventView::PauseEnded,
            DrainEvent::Sent { accepted } => event@ == (DrainEventView::Sent { accepted }),
            DrainEvent::Committed { stored } => event@ == (DrainEventView::Committed { stored }),
        },
{
}

/// What an action of the drain says is what it holds.
pub proof fn law_drain_action_says_what_it_holds(action: DrainAction)
    ensures
        match action {
            DrainAction::ReadNext => action@ == DrainActionView::ReadNext,
            DrainAction::CheckConnection => action@ == DrainActionView::CheckConnection,
            DrainAction::Reconnect => action@ == DrainActionView::Reconnect,
            DrainAction::Pause { millis } => action@ == (DrainActionView::Pause { millis }),
            DrainAction::Refuse { sequence, error, millis } => action@ == (
            DrainActionView::Refuse { sequence, error: error@, millis }),
            DrainAction::Send { sequence, pipe } => action@ == (DrainActionView::Send {
                sequence,
                atomic: pipeline_atomic(pipe),
                commands: pipeline_commands(pipe),
            }),
            DrainAction::Commit { sequence } => action@ == (DrainActionView::Commit { sequence }),
            DrainAction::Finish => action@ == DrainActionView::Finish,
            DrainAction::Fail => action@ == DrainActionView::Fail,
        },
{
}

/// A round of the drain in which nothing fails has Redis carry out the next operation of the log
/// and commits it, whatever operation it is, and the drain reads on.
pub proof fn law_drain_round(
    trader_key: Seq<char>,
    sys: DrainSystem,
    sequence: u64,
    operation: LoggedCommandView,
    message: CommandView,
    commands: Seq<Seq<Seq<u8>>>,
)
    requires
        sys.state == DrainStateView::ReadingNext,
        sys.wal.next_uncommitted() == Some((sequence, operation)),
        unlogged(operation) == Some(message),
        drained(trader_key, message) == Ok::<_, CacheErrorView>(commands),
    ensures
        ({
            let events = seq![
                DrainEventView::NextRead { next: Some((sequence, message)) },
                DrainEventView::ConnectionChecked { alive: true },
                DrainEventView::Sent { accepted: true },
                DrainEventView::Committed { stored: true },
            ];
            let after = drain_run(trader_key, sys, events);
            &&& drain_events_happen(trader_key, sys, events)
            &&& after.state == DrainStateView::ReadingNext
            &&& after.wal == sys.wal.commit(sequence)
            &&& after.acknowledged == sys.acknowledged.push(Acknowledged { sequence, commands })
        }),
{
    let e1 = DrainEventView::NextRead { next: Some((sequence, message)) };
    let e2 = DrainEventView::ConnectionChecked { alive: true };
    let e3 = DrainEventView::Sent { accepted: true };
    let e4 = DrainEventView::Committed { stored: true };
    reveal_with_fuel(drain_run, 6);
    reveal_with_fuel(drain_events_happen, 6);
    assert(seq![e1, e2, e3, e4].drop_last() =~= seq![e1, e2, e3]);
    assert(seq![e1, e2, e3].drop_last() =~= seq![e1, e2]);
    assert(seq![e1, e2].drop_last() =~= seq![e1]);
    assert(seq![e1].drop_last() =~= Seq::<DrainEventView>::empty());
}

/// A round of the task in which nothing fails has Redis carry out the next operation of the log and
/// commits it, whatever operation it is, and the task reads on.
pub proof fn law_writer_round(
    trader_key: Seq<char>,
    sys: WriterSystem,
    sequence: u64,
    operation: LoggedCommandView,
    message: CommandView,
    commands: Seq<Seq<Seq<u8>>>,
)
    requires
        sys.state == WriterState::ReadingNext,
        sys.wal.next_uncommitted() == Some((sequence, operation)),
        unlogged(operation) == Some(message),
        drained(trader_key, message) == Ok::<_, CacheErrorView>(commands),
    ensures
        ({
            let events = seq![
                WriterEventView::NextRead { next: Some((sequence, message)) },
                WriterEventView::Sent { accepted: true },
                WriterEventView::Committed { stored: true },
            ];
            let after = writer_run(trader_key, sys, events);
            &&& writer_events_happen(trader_key, sys, events)
            &&& after.state == WriterState::ReadingNext
            &&& after.wal == sys.wal.commit(sequence)
            &&& after.acknowledged == sys.acknowledged.push(Acknowledged { sequence, commands })
        }),
{
    let e1 = WriterEventView::NextRead { next: Some((sequence, message)) };
    let e2 = WriterEventView::Sent { accepted: true };
    let e3 = WriterEventView::Committed { stored: true };
    reveal_with_fuel(writer_run, 5);
    reveal_with_fuel(writer_events_happen, 5);
    assert(seq![e1, e2, e3].drop_last() =~= seq![e1, e2]);
    assert(seq![e1, e2].drop_last() =~= seq![e1]);
    assert(seq![e1].drop_last() =~= Seq::<WriterEventView>::empty());
}

/// A drain that finishes although no commit failed has carried out everything: the log gives no
/// operation any more, every operation that was waiting was carried out by Redis and is committed,
/// and the flag is clear.
pub proof fn law_drain_finishes_when_nothing_waits(
    trader_key: Seq<char>,
    wal: Wal,
    dirty: bool,
    events: Seq<DrainEventView>,
)
    requires
        wal.well_formed(),
        !dirty ==> wal.next_uncommitted() is None,
        drain_events_happen(trader_key, drain_started(wal, dirty), events),
        drain_run(trader_key, drain_started(wal, dirty), events).state == DrainStateView::Finished,
        forall|i: int|
            0 <= i < events.len() ==> #[trigger] events[i] != (DrainEventView::Committed {
                stored: false,
            }),
    ensures
        ({
            let sys = drain_run(trader_key, drain_started(wal, dirty), events);
            &&& events.len() > 0 && events.last() == (DrainEventView::NextRead { next: None })
            &&& sys.wal.next_uncommitted() is None
            &&& !sys.dirty
            &&& forall|n: u64|
                1 <= n < sys.wal.next ==> (#[trigger] sys.wal.operations[n]).committed_to_redis
            &&& forall|n: u64|
                wal.last < n < sys.wal.next ==> #[trigger] was_acknowledged(sys.acknowledged, n)
        }),
{
    law_clear_flag_means_drained(trader_key, wal, dirty, events);
    let start = drain_started(wal, dirty);
    let earlier = drain_run(trader_key, start, events.drop_last());
    assert(events.last() == events[events.len() - 1]);
    assert(drain_event_happens(earlier, events.last()));
}

/// The drain finishes only because the log gave no operation or a commit failed, whatever happened
/// before.
pub proof fn law_drain_finishes_for_a_reason(
    trader_key: Seq<char>,
    sys: DrainSystem,
    event: DrainEventView,
)
    requires
        drain_event_happens(sys, event),
        drain_after(trader_key, sys, event).state == DrainStateView::Finished,
    ensures
        ({
            ||| event == (DrainEventView::NextRead { next: None })
                && sys.wal.next_uncommitted() is None
            ||| event == (DrainEventView::Committed { stored: false })
        }),
{
}

/// A pass of the task ends only because the log gave no operation, the operation can not be carried
/// out, Redis did not carry it out, the commit failed or the log can not be read.
pub proof fn law_pass_ends_for_a_reason(
    trader_key: Seq<char>,
    sys: WriterSystem,
    event: WriterEventView,
)
    requires
        sys.state == WriterState::ReadingNext || sys.state is Sending || sys.state is Committing,
        writer_event_happens(sys, event),
        !({
            let state = writer_after(trader_key, sys, event).state;
            state == WriterState::ReadingNext || state is Sending || state is Committing
        }),
    ensures
        match event {
            WriterEventView::NextRead { next: None } => sys.wal.next_uncommitted() is None,
            WriterEventView::NextRead { next: Some((_, message)) } => drained(
                trader_key,
                message,
            ) is Err,
            WriterEventView::Sent { accepted } => !accepted,
            WriterEventView::Committed { stored } => !stored,
            WriterEventView::ReadFailed => true,
            _ => false,
        },
{
}

} // verus!
