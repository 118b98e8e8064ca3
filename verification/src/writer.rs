//! The task that appends commands to the log and, at intervals, carries out what waits there.
//!
//! The task is a machine: it is told what has happened, and says what to do next. The caller does
//! what it says, on the log, on Redis or on the clock, and tells it what came of that.
use redis::Pipeline;
use vstd::prelude::*;

use crate::command::{CommandView, DatabaseCommand, DatabaseOperation};
use crate::config::CacheConfig;
use crate::dirty::{set_global_surreal_dirty_flag, DirtyFlag};
use crate::error::{CacheError, CacheErrorView};
use crate::pipeline::{drain_single_message, drainable, drained};
use crate::wire::{pipeline_atomic, pipeline_commands};

verus! {

/// What the task is waiting for.
#[derive(Clone, Copy, Debug, PartialEq, Eq, Structural)]
pub enum WriterState {
    /// A command, the end of an interval or a shutdown.
    Waiting,
    /// A command is being appended to the log.
    Appending,
    /// The connection is being checked.
    CheckingConnection,
    /// A connection is being made.
    Reconnecting,
    /// The next operation is being read from the log.
    ReadingNext,
    /// The transaction of an operation is with Redis.
    Sending { sequence: u64 },
    /// An operation is being committed to the log.
    Committing { sequence: u64 },
    /// The task has ended.
    Stopped,
    /// The task has ended because the log could not be read.
    Failed,
}

/// What has happened.
#[derive(Debug)]
pub enum WriterEvent {
    /// A command was sent to the task.
    Received(DatabaseCommand),
    /// The interval between two passes is over.
    IntervalElapsed,
    /// The process is to shut down.
    ShutdownNotified,
    /// Appending has succeeded or failed.
    AppendFinished { stored: bool },
    /// The connection was found alive or not.
    ConnectionChecked { alive: bool },
    /// A connection could be made or not.
    Reconnected { made: bool },
    /// The log has given the next operation, or holds none.
    NextRead { next: Option<(u64, DatabaseCommand)> },
    /// The log could not be read.
    ReadFailed,
    /// Redis has carried out the transaction or not.
    Sent { accepted: bool },
    /// The operation could be committed or not.
    Committed { stored: bool },
}

/// What is to be done.
pub enum WriterAction {
    /// Wait for a command, for the end of the interval or for a shutdown.
    Wait,
    /// Append the command to the log.
    Append(DatabaseCommand),
    /// Check the connection.
    CheckConnection,
    /// Make a connection.
    Reconnect,
    /// Read the next operation from the log.
    ReadNext,
    /// Have Redis carry out the transaction of the operation.
    Send { sequence: u64, pipe: Pipeline },
    /// Wait, as with `Wait`: the operation can not be carried out.
    Refuse { sequence: u64, error: CacheError },
    /// Commit the operation to the log.
    Commit { sequence: u64 },
    /// End the task, which closes the channel that commands come through.
    Stop,
    /// End the task with the error that reading the log gave.
    Fail,
}

/// What a [`WriterEvent`] says.
pub enum WriterEventView {
    Received(CommandView),
    IntervalElapsed,
    ShutdownNotified,
    AppendFinished { stored: bool },
    ConnectionChecked { alive: bool },
    Reconnected { made: bool },
    NextRead { next: Option<(u64, CommandView)> },
    ReadFailed,
    Sent { accepted: bool },
    Committed { stored: bool },
}

/// What a [`WriterAction`] says.
pub enum WriterActionView {
    Wait,
    Append(CommandView),
    CheckConnection,
    Reconnect,
    ReadNext,
    Send { sequence: u64, atomic: bool, commands: Seq<Seq<Seq<u8>>> },
    Refuse { sequence: u64, error: CacheErrorView },
    Commit { sequence: u64 },
    Stop,
    Fail,
}

/// What an operation that was read says.
pub open spec fn next_view(next: Option<(u64, DatabaseCommand)>) -> Option<(u64, CommandView)> {
    match next {
        Some((sequence, message)) => Some((sequence, message@)),
        None => None,
    }
}

impl View for WriterEvent {
    type V = WriterEventView;

    open spec fn view(&self) -> WriterEventView {
        match *self {
            WriterEvent::Received(message) => WriterEventView::Received(message@),
            WriterEvent::IntervalElapsed => WriterEventView::IntervalElapsed,
            WriterEvent::ShutdownNotified => WriterEventView::ShutdownNotified,
            WriterEvent::AppendFinished { stored } => WriterEventView::AppendFinished { stored },
            WriterEvent::ConnectionChecked { alive } => WriterEventView::ConnectionChecked {
                alive,
            },
            WriterEvent::Reconnected { made } => WriterEventView::Reconnected { made },
            WriterEvent::NextRead { next } => WriterEventView::NextRead { next: next_view(next) },
            WriterEvent::ReadFailed => WriterEventView::ReadFailed,
            WriterEvent::Sent { accepted } => WriterEventView::Sent { accepted },
            WriterEvent::Committed { stored } => WriterEventView::Committed { stored },
        }
    }
}

impl View for WriterAction {
    type V = WriterActionView;

    open spec fn view(&self) -> WriterActionView {
        match *self {
            WriterAction::Wait => WriterActionView::Wait,
            WriterAction::Append(message) => WriterActionView::Append(message@),
            WriterAction::CheckConnection => WriterActionView::CheckConnection,
            WriterAction::Reconnect => WriterActionView::Reconnect,
            WriterAction::ReadNext => WriterActionView::ReadNext,
            WriterAction::Send { sequence, pipe } => WriterActionView::Send {
                sequence,
                atomic: pipeline_atomic(pipe),
                commands: pipeline_commands(pipe),
            },
            WriterAction::Refuse { sequence, error } => WriterActionView::Refuse {
                sequence,
                error: error@,
            },
            WriterAction::Commit { sequence } => WriterActionView::Commit { sequence },
            WriterAction::Stop => WriterActionView::Stop,
            WriterAction::Fail => WriterActionView::Fail,
        }
    }
}

/// Whether an event can happen in a state: it is one that the last action leads to.
pub open spec fn writer_expects(state: WriterState, event: WriterEventView) -> bool {
    match state {
        WriterState::Waiting => event is Received || event is IntervalElapsed
            || event is ShutdownNotified,
        WriterState::Appending => event is AppendFinished,
        WriterState::CheckingConnection => event is ConnectionChecked,
        WriterState::Reconnecting => event is Reconnected,
        WriterState::ReadingNext => event is NextRead || event is ReadFailed,
        WriterState::Sending { .. } => event is Sent,
        WriterState::Committing { .. } => event is Committed,
        WriterState::Stopped | WriterState::Failed => false,
    }
}

/// Whether an operation that an event brings has the key and the payload items that carrying it
/// out reads.
pub open spec fn writer_event_drainable(trader_key: Seq<char>, event: WriterEventView) -> bool {
    match event {
        WriterEventView::NextRead { next: Some((_, message)) } => drainable(trader_key, message),
        _ => true,
    }
}

/// What the task does when an event happens in a state in which it can.
pub open spec fn writer_step(
    trader_key: Seq<char>,
    state: WriterState,
    event: WriterEventView,
) -> (WriterState, WriterActionView) {
    match event {
        // The command that closes the database is not logged: it ends the task, and with it the
        // channel is closed.
        WriterEventView::Received(message) => if message.op_type == DatabaseOperation::Close {
            (WriterState::Stopped, WriterActionView::Stop)
        } else {
            (WriterState::Appending, WriterActionView::Append(message))
        },
        WriterEventView::AppendFinished { .. } => (WriterState::Waiting, WriterActionView::Wait),
        WriterEventView::IntervalElapsed => (
            WriterState::CheckingConnection,
            WriterActionView::CheckConnection,
        ),
        WriterEventView::ConnectionChecked { alive } => if alive {
            (WriterState::ReadingNext, WriterActionView::ReadNext)
        } else {
            (WriterState::Reconnecting, WriterActionView::Reconnect)
        },
        // A new connection is used from the next pass on.
        WriterEventView::Reconnected { .. } => (WriterState::Waiting, WriterActionView::Wait),
        WriterEventView::NextRead { next } => match next {
            None => (WriterState::Waiting, WriterActionView::Wait),
            Some((sequence, message)) => match drained(trader_key, message) {
                Ok(commands) => (
                    WriterState::Sending { sequence },
                    WriterActionView::Send { sequence, atomic: true, commands },
                ),
                Err(error) => (
                    WriterState::Waiting,
                    WriterActionView::Refuse { sequence, error },
                ),
            },
        },
        WriterEventView::ReadFailed => (WriterState::Failed, WriterActionView::Fail),
        // A failure ends the pass; the operation is read again in the next.
        WriterEventView::Sent { accepted } => match state {
            WriterState::Sending { sequence } if accepted => (
                WriterState::Committing { sequence },
                WriterActionView::Commit { sequence },
            ),
            _ => (WriterState::Waiting, WriterActionView::Wait),
        },
        WriterEventView::Committed { stored } => if stored {
            (WriterState::ReadingNext, WriterActionView::ReadNext)
        } else {
            (WriterState::Waiting, WriterActionView::Wait)
        },
        WriterEventView::ShutdownNotified => (WriterState::Stopped, WriterActionView::Stop),
    }
}

/// The flag after an event: a command that was appended sets it.
pub open spec fn writer_dirty(dirty: bool, event: WriterEventView) -> bool {
    dirty || event == (WriterEventView::AppendFinished { stored: true })
}

/// How the task begins: it needs a database, and waits for the interval in milliseconds between two
/// passes.
pub fn start_processing(config: &CacheConfig) -> (r: Result<
    (WriterState, WriterAction, u64),
    CacheError,
>)
    ensures
        match r {
            Ok((state, action, interval)) => {
                &&& config.database is Some
                &&& state == WriterState::Waiting
                &&& action == WriterAction::Wait
                &&& interval == (match config.buffer_interval_ms {
                    Some(millis) => millis as u64,
                    None => 0,
                })
            },
            Err(e) => config.database is None && e == CacheError::NoDatabaseConfig,
        },
{
    match &config.database {
        Some(_) => Ok((WriterState::Waiting, WriterAction::Wait, config.buffer_interval())),
        None => Err(CacheError::NoDatabaseConfig),
    }
}

/// What the task does when an event happens.
pub fn process_commands(
    trader_key: &str,
    flag: &mut DirtyFlag,
    state: WriterState,
    event: WriterEvent,
) -> (r: (WriterState, WriterAction))
    requires
        writer_expects(state, event@),
        writer_event_drainable(trader_key@, event@),
    ensures
        ({
            let (next, action) = r;
            (next, action@) == writer_step(trader_key@, state, event@)
        }),
        final(flag).dirty == writer_dirty(old(flag).dirty, event@),
        match event {
            WriterEvent::Received(message) => if message.op_type == DatabaseOperation::Close {
                r == (WriterState::Stopped, WriterAction::Stop)
            } else {
                r == (WriterState::Appending, WriterAction::Append(message))
            },
            WriterEvent::AppendFinished { .. } | WriterEvent::Reconnected { .. } => r == (
                WriterState::Waiting,
                WriterAction::Wait,
            ),
            WriterEvent::IntervalElapsed => r == (
                WriterState::CheckingConnection,
                WriterAction::CheckConnection,
            ),
            WriterEvent::ConnectionChecked { alive } => if alive {
                r == (WriterState::ReadingNext, WriterAction::ReadNext)
            } else {
                r == (WriterState::Reconnecting, WriterAction::Reconnect)
            },
            WriterEvent::NextRead { next: None } => r == (WriterState::Waiting, WriterAction::Wait),
            WriterEvent::NextRead { next: Some((sequence, message)) } => match r {
                (
                    WriterState::Sending { sequence: n },
                    WriterAction::Send { sequence: m, pipe },
                ) => {
                    &&& n == sequence && m == sequence
                    &&& pipeline_atomic(pipe)
                    &&& drained(trader_key@, message@) == Ok::<_, CacheErrorView>(
                        pipeline_commands(pipe),
                    )
                },
                (WriterState::Waiting, WriterAction::Refuse { sequence: n, error }) => {
                    &&& n == sequence
                    &&& drained(trader_key@, message@) == Err::<Seq<Seq<Seq<u8>>>, _>(error@)
                },
                _ => false,
            },
            WriterEvent::ReadFailed => r == (WriterState::Failed, WriterAction::Fail),
            WriterEvent::Sent { accepted } => match state {
                WriterState::Sending { sequence } => if accepted {
                    r == (WriterState::Committing { sequence }, WriterAction::Commit { sequence })
                } else {
                    r == (WriterState::Waiting, WriterAction::Wait)
                },
                _ => false,
            },
            WriterEvent::Committed { stored } => if stored {
                r == (WriterState::ReadingNext, WriterAction::ReadNext)
            } else {
                r == (WriterState::Waiting, WriterAction::Wait)
            },
            WriterEvent::ShutdownNotified => r == (WriterState::Stopped, WriterAction::Stop),
        },
        final(flag).dirty == (match event {
            WriterEvent::AppendFinished { stored } => stored || old(flag).dirty,
            _ => old(flag).dirty,
        }),
{
    match event {
        WriterEvent::Received(message) => match message.op_type {
            DatabaseOperation::Close => (WriterState::Stopped, WriterAction::Stop),
            _ => (WriterState::Appending, WriterAction::Append(message)),
        },
        WriterEvent::AppendFinished { stored } => {
            if stored {
                set_global_surreal_dirty_flag(flag, true);
            }
            (WriterState::Waiting, WriterAction::Wait)
        },
        WriterEvent::IntervalElapsed => (
            WriterState::CheckingConnection,
            WriterAction::CheckConnection,
        ),
        WriterEvent::ConnectionChecked { alive } => {
            if alive {
                (WriterState::ReadingNext, WriterAction::ReadNext)
            } else {
                (WriterState::Reconnecting, WriterAction::Reconnect)
            }
        },
        WriterEvent::Reconnected { .. } => (WriterState::Waiting, WriterAction::Wait),
        WriterEvent::NextRead { next } => match next {
            None => (WriterState::Waiting, WriterAction::Wait),
            Some((sequence, message)) => match drain_single_message(trader_key, &message) {
                Ok(pipe) => (
                    WriterState::Sending { sequence },
                    WriterAction::Send { sequence, pipe },
                ),
                Err(error) => (WriterState::Waiting, WriterAction::Refuse { sequence, error }),
            },
        },
        WriterEvent::ReadFailed => (WriterState::Failed, WriterAction::Fail),
        WriterEvent::Sent { accepted } => match state {
            WriterState::Sending { sequence } => {
                if accepted {
                    (WriterState::Committing { sequence }, WriterAction::Commit { sequence })
                } else {
                    (WriterState::Waiting, WriterAction::Wait)
                }
            },
            _ => (WriterState::Waiting, WriterAction::Wait),
        },
        WriterEvent::Committed { stored } => {
            if stored {
                (WriterState::ReadingNext, WriterAction::ReadNext)
            } else {
                (WriterState::Waiting, WriterAction::Wait)
            }
        },
        WriterEvent::ShutdownNotified => (WriterState::Stopped, WriterAction::Stop),
    }
}

} // verus!
