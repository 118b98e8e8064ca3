use bytes::Bytes;
use redis_cache::command::{DatabaseCommand, DatabaseOperation};
use redis_cache::config::DatabaseConfig;
use redis_cache::dirty::DirtyFlag;
use redis_cache::drain::{
    drain_messages_from_surrealkv, start_drain, DrainAction, DrainEvent, DrainState,
    RETRY_DELAY_MS,
};
use redis_cache::error::CacheError;

const TRADER_KEY: &str = "trader-t";

fn message(key: &str) -> DatabaseCommand {
    DatabaseCommand::new(
        DatabaseOperation::Insert,
        key.to_string(),
        Some(vec![Bytes::copy_from_slice(b"v")]),
    )
}

fn step(state: DrainState, event: DrainEvent) -> (DrainState, DrainAction) {
    let mut flag = DirtyFlag { dirty: true };
    let result = drain_messages_from_surrealkv(TRADER_KEY, &mut flag, state, event);
    assert!(flag.dirty);
    result
}

#[test]
fn the_drain_needs_a_configuration() {
    assert_eq!(start_drain(&None).err().unwrap(), CacheError::GlobalConfigUnset);
    let config = Some(DatabaseConfig { url: "redis://localhost".to_string() });
    let (state, action) = start_drain(&config).ok().unwrap();
    assert!(matches!(state, DrainState::ReadingNext));
    assert!(matches!(action, DrainAction::ReadNext));
}

#[test]
fn nothing_more_to_do_clears_the_flag() {
    let mut flag = DirtyFlag { dirty: true };
    let event = DrainEvent::NextRead { next: None };
    let (state, action) =
        drain_messages_from_surrealkv(TRADER_KEY, &mut flag, DrainState::ReadingNext, event);
    assert!(matches!(state, DrainState::Finished));
    assert!(matches!(action, DrainAction::Finish));
    assert!(!flag.dirty);
}

#[test]
fn the_message_that_was_read_is_the_one_that_is_sent() {
    let event = DrainEvent::NextRead { next: Some((5, message("general:a"))) };
    let (state, action) = step(DrainState::ReadingNext, event);
    assert!(matches!(action, DrainAction::CheckConnection));
    let (state, action) = step(state, DrainEvent::ConnectionChecked { alive: true });
    match action {
        DrainAction::Send { sequence, pipe } => {
            assert_eq!(sequence, 5);
            assert_eq!(
                pipe.get_packed_pipeline(),
                [
                    b"*1\r\n$5\r\nMULTI\r\n".as_slice(),
                    b"*3\r\n$3\r\nSET\r\n$18\r\ntrader-t:general:a\r\n$1\r\nv\r\n",
                    b"*1\r\n$4\r\nEXEC\r\n",
                ]
                .concat()
            );
        }
        _ => panic!("expected a transaction"),
    }
    let (state, action) = step(state, DrainEvent::Sent { accepted: true });
    assert!(matches!(state, DrainState::Committing { sequence: 5 }));
    assert!(matches!(action, DrainAction::Commit { sequence: 5 }));
    let (state, action) = step(state, DrainEvent::Committed { stored: true });
    assert!(matches!(state, DrainState::ReadingNext));
    assert!(matches!(action, DrainAction::ReadNext));
}

#[test]
fn a_dead_connection_is_made_anew() {
    let checking =
        || DrainState::CheckingConnection { sequence: 5, message: message("general:a") };
    let (state, action) = step(checking(), DrainEvent::ConnectionChecked { alive: false });
    assert!(matches!(action, DrainAction::Reconnect));
    let (state, action) = step(state, DrainEvent::Reconnected { made: true });
    assert!(matches!(state, DrainState::Sending { sequence: 5, .. }));
    assert!(matches!(action, DrainAction::Send { sequence: 5, .. }));

    let (state, _) = step(checking(), DrainEvent::ConnectionChecked { alive: false });
    let (state, action) = step(state, DrainEvent::Reconnected { made: false });
    assert!(matches!(state, DrainState::Pausing { sequence: 5, .. }));
    assert!(matches!(action, DrainAction::Pause { millis: 2000 }));
    let (state, action) = step(state, DrainEvent::PauseEnded);
    assert!(matches!(state, DrainState::CheckingConnection { sequence: 5, .. }));
    assert!(matches!(action, DrainAction::CheckConnection));
}

#[test]
fn a_message_without_a_key_waits_for_the_connection() {
    let event = DrainEvent::NextRead { next: Some((5, DatabaseCommand::close())) };
    let (state, action) = step(DrainState::ReadingNext, event);
    assert!(matches!(action, DrainAction::CheckConnection));
    let (state, action) = step(state, DrainEvent::ConnectionChecked { alive: false });
    assert!(matches!(action, DrainAction::Reconnect));
    let (state, action) = step(state, DrainEvent::Reconnected { made: false });
    assert!(matches!(state, DrainState::Pausing { sequence: 5, .. }));
    assert!(matches!(action, DrainAction::Pause { millis: 2000 }));
}

#[test]
fn a_failed_transaction_is_tried_again() {
    let sending = DrainState::Sending { sequence: 5, message: message("general:a") };
    let (state, action) = step(sending, DrainEvent::Sent { accepted: false });
    assert!(matches!(action, DrainAction::Pause { millis: RETRY_DELAY_MS }));
    match state {
        DrainState::Pausing { sequence, message } => {
            assert_eq!(sequence, 5);
            assert_eq!(message.key.as_deref(), Some("general:a"));
        }
        _ => panic!("expected a pause"),
    }
}

#[test]
fn a_refused_message_is_tried_again() {
    let checking = DrainState::CheckingConnection { sequence: 5, message: message("other:a") };
    let (state, action) = step(checking, DrainEvent::ConnectionChecked { alive: true });
    assert!(matches!(state, DrainState::Pausing { sequence: 5, .. }));
    match action {
        DrainAction::Refuse { sequence, error, millis } => {
            assert_eq!(sequence, 5);
            assert_eq!(error, CacheError::UnsupportedInsert { collection: "other".to_string() });
            assert_eq!(millis, 2000);
        }
        _ => panic!("expected a refusal"),
    }
}

#[test]
fn a_failed_commit_ends_the_drain_with_the_flag_set() {
    let committing = DrainState::Committing { sequence: 5 };
    let (state, action) = step(committing, DrainEvent::Committed { stored: false });
    assert!(matches!(state, DrainState::Finished));
    assert!(matches!(action, DrainAction::Finish));
}

#[test]
fn a_log_that_cannot_be_read_fails_the_drain() {
    let (state, action) = step(DrainState::ReadingNext, DrainEvent::ReadFailed);
    assert!(matches!(state, DrainState::Failed));
    assert!(matches!(action, DrainAction::Fail));
}

/// Drains a log in memory that holds `length` operations, and `late` more once the first one was
/// committed; Redis fails as often as told. Gives the operations that Redis carried out.
fn run_drain(flag: &mut DirtyFlag, mut length: u64, late: u64, mut failures: u32) -> Vec<u64> {
    let mut state = DrainState::ReadingNext;
    let mut action = DrainAction::ReadNext;
    let mut last: u64 = 0;
    let mut sent = Vec::new();
    loop {
        let event = match action {
            DrainAction::CheckConnection => DrainEvent::ConnectionChecked { alive: true },
            DrainAction::Pause { .. } => DrainEvent::PauseEnded,
            DrainAction::Send { sequence, .. } => {
                let accepted = failures == 0;
                if accepted {
                    sent.push(sequence);
                } else {
                    failures -= 1;
                }
                DrainEvent::Sent { accepted }
            }
            DrainAction::Commit { sequence } => {
                last = sequence;
                if sequence == 1 {
                    length += late;
                }
                DrainEvent::Committed { stored: true }
            }
            DrainAction::ReadNext => DrainEvent::NextRead {
                next: if last + 1 < length { Some((last + 1, message("orders:a"))) } else { None },
            },
            DrainAction::Finish => return sent,
            _ => panic!("unexpected action"),
        };
        (state, action) = drain_messages_from_surrealkv(TRADER_KEY, flag, state, event);
    }
}

#[test]
fn a_drain_that_clears_the_flag_has_sent_everything() {
    for failures in [0, 2] {
        let mut flag = DirtyFlag::new();
        assert_eq!(run_drain(&mut flag, 4, 0, failures), vec![1, 2, 3]);
        assert!(!flag.dirty);
    }
    let mut flag = DirtyFlag::new();
    assert_eq!(run_drain(&mut flag, 1, 0, 0), Vec::<u64>::new());
    assert!(!flag.dirty);
}

#[test]
fn a_drain_sends_what_is_appended_while_it_runs() {
    let mut flag = DirtyFlag::new();
    assert_eq!(run_drain(&mut flag, 2, 2, 1), vec![1, 2, 3]);
    assert!(!flag.dirty);
}

#[test]
fn a_drain_whose_commit_fails_sends_no_operation_twice() {
    let mut flag = DirtyFlag::new();
    let mut state = DrainState::ReadingNext;
    let mut action = DrainAction::ReadNext;
    let (mut sent, mut committed): (Vec<u64>, Vec<u64>) = (Vec::new(), Vec::new());
    loop {
        let event = match action {
            DrainAction::ReadNext => {
                let sequence = committed.last().copied().unwrap_or(0) + 1;
                DrainEvent::NextRead { next: Some((sequence, message("orders:a"))) }
            }
            DrainAction::CheckConnection => DrainEvent::ConnectionChecked { alive: true },
            DrainAction::Send { sequence, .. } => {
                sent.push(sequence);
                DrainEvent::Sent { accepted: true }
            }
            DrainAction::Commit { sequence } => {
                let stored = sequence < 3;
                if stored {
                    committed.push(sequence);
                }
                DrainEvent::Committed { stored }
            }
            DrainAction::Finish => break,
            _ => panic!("unexpected action"),
        };
        (state, action) = drain_messages_from_surrealkv(TRADER_KEY, &mut flag, state, event);
    }
    assert!(matches!(state, DrainState::Finished));
    assert_eq!(sent, vec![1, 2, 3]);
    assert_eq!(committed, vec![1, 2]);
    assert!(flag.dirty);
}
