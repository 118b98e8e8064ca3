//! Carrying out everything that waits in the log before a read.
//!
//! As with the task that writes, a machine says what to do next and is told what came of it.
use redis::Pipeline;
use vstd::prelude::*;

use crate::command::{CommandView, DatabaseCommand};
use crate::config::DatabaseConfig;
use crate::dirty::{set_global_surreal_dirty_flag, DirtyFlag};
use crate::error::{CacheError, CacheErrorView};
use crate::pipeline::{drain_single_message, drainable, drained};
use crate::wire::{pipeline_atomic, pipeline_commands};
use crate::writer::next_view;

verus! {

/// The delay between retries in milliseconds.
pub const RETRY_DELAY_MS: u64 = 2000;

/// What the drain is waiting for.
#[derive(Debug)]
pub enum DrainState {
    /// The next operation is being read from the log.
    ReadingNext,
    /// The connection is being checked before an operation is carried out.
    CheckingConnection { sequence: u64, message: DatabaseCommand },
    /// A connection is being made.
    Reconnecting { sequence: u64, message: DatabaseCommand },
    /// The delay before the operation is tried again.
    Pausing { sequence: u64, message: DatabaseCommand },
    /// The transaction of an operation is with Redis.
    Sending { sequence: u64, message: DatabaseCommand },
    /// An operation is being committed to the log.
    Committing { sequence: u64 },
    /// The drain has ended.
    Finished,
    /// The drain has ended because the log could not be read.
    Failed,
}

/// What has happened.
#[derive(Debug)]
pub enum DrainEvent {
    /// The log has given the next operation, or holds none.
    NextRead { next: Option<(u64, DatabaseCommand)> },
    /// The log could not be read.
    ReadFailed,
    /// The connection was found alive or not.
    ConnectionChecked { alive: bool },
    /// A connection could be made or not.
    Reconnected { made: bool },
    /// The delay is over.
    PauseEnded,
    /// Redis has carried out the transaction or not.
    Sent { accepted: bool },
    /// The operation could be committed or not.
    Committed { stored: bool },
}

/// What is to be done.
pub enum DrainAction {
    /// Read the next operation from the log.
    ReadNext,
    /// Check the connection.
    CheckConnection,
    /// Make a connection.
    Reconnect,
    /// Let the given time pass.
    Pause { millis: u64 },
    /// Let the given time pass: the operation can not be carried out.
    Refuse { sequence: u64, error: CacheError, millis: u64 },
    /// Have Redis carry out the transaction of the operation.
    Send { sequence: u64, pipe: Pipeline },
    /// Commit the operation to the log.
    Commit { sequence: u64 },
    /// End the drain.
    Finish,
    /// End the drain with the error that reading the log gave.
    Fail,
}

/// What a [`DrainState`] says.
pub enum DrainStateView {
    ReadingNext,
    CheckingConnection { sequence: u64, message: CommandView },
    Reconnecting { sequence: u64, message: CommandView },
    Pausing { sequence: u64, message: CommandView },
    Sending { sequence: u64, message: CommandView },
    Committing { sequence: u64 },
    Finished,
    Failed,
}

/// What a [`DrainEvent`] says.
pub enum DrainEventView {
    NextRead { next: Option<(u64, CommandView)> },
    ReadFailed,
    ConnectionChecked { alive: bool },
    Reconnected { made: bool },
    PauseEnded,
    Sent { accepted: bool },
    Committed { stored: bool },
}

/// What a [`DrainAction`] says.
pub enum DrainActionView {
    ReadNext,
    CheckConnection,
    Reconnect,
    Pause { millis: u64 },
    Refuse { sequence: u64, error: CacheErrorView, millis: u64 },
    Send { sequence: u64, atomic: bool, commands: Seq<Seq<Seq<u8>>> },
    Commit { sequence: u64 },
    Finish,
    Fail,
}

impl View for DrainState {
    type V = DrainStateView;

    open spec fn view(&self) -> DrainStateView {
        match *self {
            DrainState::ReadingNext => DrainStateView::ReadingNext,
            DrainState::CheckingConnection { sequence, message } =>
                DrainStateView::CheckingConnection { sequence, message: message@ },
            DrainState::Reconnecting { sequence, message } => DrainStateView::Reconnecting {
                sequence,
                message: message@,
            },
            DrainState::Pausing { sequence, message } => DrainStateView::Pausing {
                sequence,
                message: message@,
            },
            DrainState::Sending { sequence, message } => DrainStateView::Sending {
                sequence,
                message: message@,
            },
            DrainState::Committing { sequence } => DrainStateView::Committing { sequence },
            DrainState::Finished => DrainStateView::Finished,
            DrainState::Failed => DrainStateView::Failed,
        }
    }
}

impl View for DrainEvent {
    type V = DrainEventView;

    open spec fn view(&self) -> DrainEventView {
        match *self {
            DrainEvent::NextRead { next } => DrainEventView::NextRead { next: next_view(next) },
            DrainEvent::ReadFailed => DrainEventView::ReadFailed,
            DrainEvent::ConnectionChecked { alive } => DrainEventView::ConnectionChecked { alive },
            DrainEvent::Reconnected { made } => DrainEventView::Reconnected { made },
            DrainEvent::PauseEnded => DrainEventView::PauseEnded,
            DrainEvent::Sent { accepted } => DrainEventView::Sent { accepted },
            DrainEvent::Committed { stored } => DrainEventView::Committed { stored },
        }
    }
}

impl View for DrainAction {
    type V = DrainActionView;

    open spec fn view(&self) -> DrainActionView {
        match *self {
            DrainAction::ReadNext => DrainActionView::ReadNext,
            DrainAction::CheckConnection => DrainActionView::CheckConnection,
            DrainAction::Reconnect => DrainActionView::Reconnect,
            DrainAction::Pause { millis } => DrainActionView::Pause { millis },
            DrainAction::Refuse { sequence, error, millis } => DrainActionView::Refuse {
                sequence,
                error: error@,
                millis,
            },
            DrainAction::Send { sequence, pipe } => DrainActionView::Send {
                sequence,
                atomic: pipeline_atomic(pipe),
                commands: pipeline_commands(pipe),
            },
            DrainAction::Commit { sequence } => DrainActionView::Commit { sequence },
            DrainAction::Finish => DrainActionView::Finish,
            DrainAction::Fail => DrainActionView::Fail,
        }
    }
}

/// Whether an event can happen in a state: it is one that the last action leads to.
pub open spec fn drain_expects(state: DrainStateView, event: DrainEventView) -> bool {
    match state {
        DrainStateView::ReadingNext => event is NextRead || event is ReadFailed,
        DrainStateView::CheckingConnection { .. } => event is ConnectionChecked,
        DrainStateView::Reconnecting { .. } => event is Reconnected,
        DrainStateView::Pausing { .. } => event is PauseEnded,
        DrainStateView::Sending { .. } => event is Sent,
        DrainStateView::Committing { .. } => event is Committed,
        DrainStateView::Finished | DrainStateView::Failed => false,
    }
}

/// Whether the operation has the key and the payload items that carrying it out reads, where an
/// event leads to its being tried.
pub open spec fn attempt_drainable(
    trader_key: Seq<char>,
    state: DrainStateView,
    event: DrainEventView,
) -> bool {
    match (state, event) {
        (
            DrainStateView::CheckingConnection { message, .. },
            DrainEventView::ConnectionChecked { alive: true },
        ) => drainable(trader_key, message),
        (
            DrainStateView::Reconnecting { message, .. },
            DrainEventView::Reconnected { made: true },
        ) => drainable(trader_key, message),
        _ => true,
    }
}

/// How an operation is tried: its transaction is sent, or the delay begins where there is none.
pub open spec fn attempt(trader_key: Seq<char>, sequence: u64, message: CommandView) -> (
    DrainStateView,
    DrainActionView,
) {
    match drained(trader_key, message) {
        Ok(commands) => (
            DrainStateView::Sending { sequence, message },
            DrainActionView::Send { sequence, atomic: true, commands },
        ),
        Err(error) => (
            DrainStateView::Pausing { sequence, message },
            DrainActionView::Refuse { sequence, error, millis: RETRY_DELAY_MS },
        ),
    }
}

/// What the drain does when an event happens in a state in which it can.
pub open spec fn drain_step(
    trader_key: Seq<char>,
    state: DrainStateView,
    event: DrainEventView,
) -> (DrainStateView, DrainActionView) {
    match (state, event) {
        (DrainStateView::ReadingNext, DrainEventView::NextRead { next: Some((sequence, message)) })
            => (
            DrainStateView::CheckingConnection { sequence, message },
            DrainActionView::CheckConnection,
        ),
        (DrainStateView::ReadingNext, DrainEventView::NextRead { next: None }) => (
            DrainStateView::Finished,
            DrainActionView::Finish,
        ),
        (
            DrainStateView::CheckingConnection { sequence, message },
            DrainEventView::ConnectionChecked { alive },
        ) => if alive {
            attempt(trader_key, sequence, message)
        } else {
            (DrainStateView::Reconnecting { sequence, message }, DrainActionView::Reconnect)
        },
        (
            DrainStateView::Reconnecting { sequence, message },
            DrainEventView::Reconnected { made },
        ) => if made {
            attempt(trader_key, sequence, message)
        } else {
            (
                DrainStateView::Pausing { sequence, message },
                DrainActionView::Pause { millis: RETRY_DELAY_MS },
            )
        },
        (DrainStateView::Pausing { sequence, message }, DrainEventView::PauseEnded) => (
            DrainStateView::CheckingConnection { sequence, message },
            DrainActionView::CheckConnection,
        ),
        (DrainStateView::Sending { sequence, message }, DrainEventView::Sent { accepted }) =>
            if accepted {
            (DrainStateView::Committing { sequence }, DrainActionView::Commit { sequence })
        } else {
            (
                DrainStateView::Pausing { sequence, message },
                DrainActionView::Pause { millis: RETRY_DELAY_MS },
            )
        },
        // Where the commit fails the drain ends, and the operation waits in the log.
        (DrainStateView::Committing { .. }, DrainEventView::Committed { stored }) => if stored {
            (DrainStateView::ReadingNext, DrainActionView::ReadNext)
        } else {
            (DrainStateView::Finished, DrainActionView::Finish)
        },
        _ => (DrainStateView::Failed, DrainActionView::Fail),
    }
}

/// The flag after an event: it is cleared where the log holds nothing more to carry out.
pub open spec fn drain_dirty(dirty: bool, event: DrainEventView) -> bool {
    dirty && event != (DrainEventView::NextRead { next: None })
}

/// How the drain begins: it needs the database configuration that was set last.
pub fn start_drain(config: &Option<DatabaseConfig>) -> (r: Result<
    (DrainState, DrainAction),
    CacheError,
>)
    ensures
        match r {
            Ok((state, action)) => {
                &&& config is Some
                &&& state == DrainState::ReadingNext
                &&& action == DrainAction::ReadNext
            },
            Err(e) => config is None && e == CacheError::GlobalConfigUnset,
        },
{
    match config {
        Some(_) => Ok((DrainState::ReadingNext, DrainAction::ReadNext)),
        None => Err(CacheError::GlobalConfigUnset),
    }
}

/// Whether an operation was tried: its transaction goes to Redis, or the delay begins because there
/// is none; the operation is kept either way.
pub open spec fn tried(
    trader_key: Seq<char>,
    sequence: u64,
    message: DatabaseCommand,
    r: (DrainState, DrainAction),
) -> bool {
    match r {
        (
            DrainState::Sending { sequence: n, message: kept },
            DrainAction::Send { sequence: m, pipe },
        ) => {
            &&& n == sequence && m == sequence && kept == message
            &&& pipeline_atomic(pipe)
            &&& drained(trader_key, message@) == Ok::<_, CacheErrorView>(pipeline_commands(pipe))
        },
        (
            DrainState::Pausing { sequence: n, message: kept },
            DrainAction::Refuse { sequence: m, error, millis },
        ) => {
            &&& n == sequence && m == sequence && kept == message && millis == 2000
            &&& drained(trader_key, message@) == Err::<Seq<Seq<Seq<u8>>>, _>(error@)
        },
        _ => false,
    }
}

/// Tries an operation.
fn attempt_message(trader_key: &str, sequence: u64, message: DatabaseCommand) -> (r: (
    DrainState,
    DrainAction,
))
    requires
        drainable(trader_key@, message@),
    ensures
        ({
            let (next, action) = r;
            (next@, action@) == attempt(trader_key@, sequence, message@)
        }),
        tried(trader_key@, sequence, message, r),
{
    match drain_single_message(trader_key, &message) {
        Ok(pipe) => (
            DrainState::Sending { sequence, message },
            DrainAction::Send { sequence, pipe },
        ),
        Err(error) => (
            DrainState::Pausing { sequence, message },
            DrainAction::Refuse { sequence, error, millis: RETRY_DELAY_MS },
        ),
    }
}

/// What the drain does when an event happens.
pub fn drain_messages_from_surrealkv(
    trader_key: &str,
    flag: &mut DirtyFlag,
    state: DrainState,
    event: DrainEvent,
) -> (r: (DrainState, DrainAction))
    requires
        drain_expects(state@, event@),
        attempt_drainable(trader_key@, state@, event@),
    ensures
        ({
            let (next, action) = r;
            (next@, action@) == drain_step(trader_key@, state@, event@)
        }),
        final(flag).dirty == drain_dirty(old(flag).dirty, event@),
        match (state, event) {
            (DrainState::ReadingNext, DrainEvent::NextRead { next: Some((sequence, message)) }) => r
                == (
                DrainState::CheckingConnection { sequence, message },
                DrainAction::CheckConnection,
            ),
            (DrainState::ReadingNext, DrainEvent::NextRead { next: None }) => r == (
                DrainState::Finished,
                DrainAction::Finish,
            ),
            (DrainState::ReadingNext, DrainEvent::ReadFailed) => r == (
                DrainState::Failed,
                DrainAction::Fail,
            ),
            (
                DrainState::CheckingConnection { sequence, message },
                DrainEvent::ConnectionChecked { alive },
            ) => if alive {
                tried(trader_key@, sequence, message, r)
            } else {
                r == (DrainState::Reconnecting { sequence, message }, DrainAction::Reconnect)
            },
            (DrainState::Reconnecting { sequence, message }, DrainEvent::Reconnected { made }) =>
                if made {
                tried(trader_key@, sequence, message, r)
            } else {
                r == (
                    DrainState::Pausing { sequence, message },
                    DrainAction::Pause { millis: 2000 },
                )
            },
            (DrainState::Pausing { sequence, message }, DrainEvent::PauseEnded) => r == (
                DrainState::CheckingConnection { sequence, message },
                DrainAction::CheckConnection,
            ),
            (DrainState::Sending { sequence, message }, DrainEvent::Sent { accepted }) =>
                if accepted {
                r == (DrainState::Committing { sequence }, DrainAction::Commit { sequence })
            } else {
                r == (
                    DrainState::Pausing { sequence, message },
                    DrainAction::Pause { millis: 2000 },
                )
            },
            (DrainState::Committing { .. }, DrainEvent::Committed { stored }) => if stored {
                r == (DrainState::ReadingNext, DrainAction::ReadNext)
            } else {
                r == (DrainState::Finished, DrainAction::Finish)
            },
            _ => false,
        },
        final(flag).dirty == (match event {
            DrainEvent::NextRead { next: None } => false,
            _ => old(flag).dirty,
        }),
{
    match (state, event) {
        (DrainState::ReadingNext, DrainEvent::NextRead { next: Some((sequence, message)) }) => (
            DrainState::CheckingConnection { sequence, message },
            DrainAction::CheckConnection,
        ),
        (DrainState::ReadingNext, DrainEvent::NextRead { next: None }) => {
            set_global_surreal_dirty_flag(flag, false);
            (DrainState::Finished, DrainAction::Finish)
        },
        (
            DrainState::CheckingConnection { sequence, message },
            DrainEvent::ConnectionChecked { alive },
        ) => {
            if alive {
                attempt_message(trader_key, sequence, message)
            } else {
                (DrainState::Reconnecting { sequence, message }, DrainAction::Reconnect)
            }
        },
        (DrainState::Reconnecting { sequence, message }, DrainEvent::Reconnected { made }) => {
            if made {
                attempt_message(trader_key, sequence, message)
            } else {
                (
                    DrainState::Pausing { sequence, message },
                    DrainAction::Pause { millis: RETRY_DELAY_MS },
                )
            }
        },
        (DrainState::Pausing { sequence, message }, DrainEvent::PauseEnded) => (
            DrainState::CheckingConnection { sequence, message },
            DrainAction::CheckConnection,
        ),
        (DrainState::Sending { sequence, message }, DrainEvent::Sent { accepted }) => {
            if accepted {
                (DrainState::Committing { sequence }, DrainAction::Commit { sequence })
            } else {
                (
                    DrainState::Pausing { sequence, message },
                    DrainAction::Pause { millis: RETRY_DELAY_MS },
                )
            }
        },
        (DrainState::Committing { .. }, DrainEvent::Committed { stored }) => {
            if stored {
                (DrainState::ReadingNext, DrainAction::ReadNext)
            } else {
                (DrainState::Finished, DrainAction::Finish)
            }
        },
        _ => (DrainState::Failed, DrainAction::Fail),
    }
}

} // verus!
