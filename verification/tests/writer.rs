use bytes::Bytes;
use redis_cache::command::{DatabaseCommand, DatabaseOperation};
use redis_cache::config::{CacheConfig, DatabaseConfig};
use redis_cache::dirty::{
    get_global_surreal_dirty_flag, set_global_surreal_dirty_flag, DirtyFlag,
};
use redis_cache::error::CacheError;
use redis_cache::writer::{
    process_commands, start_processing, WriterAction, WriterEvent, WriterState,
};

const TRADER_KEY: &str = "trader-t";

fn message(key: &str) -> DatabaseCommand {
    DatabaseCommand::new(
        DatabaseOperation::Insert,
        key.to_string(),
        Some(vec![Bytes::copy_from_slice(b"v")]),
    )
}

fn step(state: WriterState, event: WriterEvent) -> (WriterState, WriterAction) {
    let mut flag = DirtyFlag { dirty: false };
    let result = process_commands(TRADER_KEY, &mut flag, state, event);
    assert!(!flag.dirty);
    result
}

#[test]
fn the_flag_is_set_at_the_start() {
    let mut flag = DirtyFlag::new();
    assert!(get_global_surreal_dirty_flag(&flag));
    set_global_surreal_dirty_flag(&mut flag, false);
    assert!(!get_global_surreal_dirty_flag(&flag));
    set_global_surreal_dirty_flag(&mut flag, true);
    assert!(get_global_surreal_dirty_flag(&flag));
}

#[test]
fn the_task_needs_a_database() {
    let mut config = CacheConfig::default();
    assert_eq!(start_processing(&config).err().unwrap(), CacheError::NoDatabaseConfig);
    config.database = Some(DatabaseConfig { url: "redis://localhost".to_string() });
    let (state, action, interval) = start_processing(&config).ok().unwrap();
    assert_eq!(state, WriterState::Waiting);
    assert!(matches!(action, WriterAction::Wait));
    assert_eq!(interval, 0);
    config.buffer_interval_ms = Some(250);
    assert_eq!(config.buffer_interval(), 250);
    assert_eq!(start_processing(&config).ok().unwrap().2, 250);
}

#[test]
fn commands_are_appended() {
    let (state, action) = step(WriterState::Waiting, WriterEvent::Received(message("orders:a")));
    assert_eq!(state, WriterState::Appending);
    match action {
        WriterAction::Append(cmd) => assert_eq!(cmd.key.as_deref(), Some("orders:a")),
        _ => panic!("expected an append"),
    }
}

#[test]
fn the_close_command_is_not_appended_and_ends_the_task() {
    let (state, action) =
        step(WriterState::Waiting, WriterEvent::Received(DatabaseCommand::close()));
    assert_eq!(state, WriterState::Stopped);
    assert!(matches!(action, WriterAction::Stop));
}

#[test]
fn a_successful_append_sets_the_flag() {
    let mut flag = DirtyFlag { dirty: false };
    let event = WriterEvent::AppendFinished { stored: false };
    let (state, action) = process_commands(TRADER_KEY, &mut flag, WriterState::Appending, event);
    assert_eq!(state, WriterState::Waiting);
    assert!(matches!(action, WriterAction::Wait));
    assert!(!flag.dirty);
    let event = WriterEvent::AppendFinished { stored: true };
    let (state, _) = process_commands(TRADER_KEY, &mut flag, WriterState::Appending, event);
    assert_eq!(state, WriterState::Waiting);
    assert!(flag.dirty);
}

#[test]
fn a_pass_begins_with_the_connection() {
    let (state, action) = step(WriterState::Waiting, WriterEvent::IntervalElapsed);
    assert_eq!(state, WriterState::CheckingConnection);
    assert!(matches!(action, WriterAction::CheckConnection));
    let (state, action) = step(state, WriterEvent::ConnectionChecked { alive: false });
    assert_eq!(state, WriterState::Reconnecting);
    assert!(matches!(action, WriterAction::Reconnect));
    for made in [true, false] {
        let (state, action) = step(state, WriterEvent::Reconnected { made });
        assert_eq!(state, WriterState::Waiting);
        assert!(matches!(action, WriterAction::Wait));
    }
}

#[test]
fn an_operation_is_sent_and_committed_before_the_next_is_read() {
    let (state, action) =
        step(WriterState::CheckingConnection, WriterEvent::ConnectionChecked { alive: true });
    assert_eq!(state, WriterState::ReadingNext);
    assert!(matches!(action, WriterAction::ReadNext));
    let event = WriterEvent::NextRead { next: Some((3, message("general:a"))) };
    let (state, action) = step(state, event);
    assert_eq!(state, WriterState::Sending { sequence: 3 });
    match action {
        WriterAction::Send { sequence, pipe } => {
            assert_eq!(sequence, 3);
            let sent = pipe.get_packed_pipeline();
            assert_eq!(
                sent,
                [
                    b"*1\r\n$5\r\nMULTI\r\n".as_slice(),
                    b"*3\r\n$3\r\nSET\r\n$18\r\ntrader-t:general:a\r\n$1\r\nv\r\n",
                    b"*1\r\n$4\r\nEXEC\r\n",
                ]
                .concat()
            );
        }
        _ => panic!("expected a transaction"),
    }
    let (state, action) = step(state, WriterEvent::Sent { accepted: true });
    assert_eq!(state, WriterState::Committing { sequence: 3 });
    assert!(matches!(action, WriterAction::Commit { sequence: 3 }));
    let (state, action) = step(state, WriterEvent::Committed { stored: true });
    assert_eq!(state, WriterState::ReadingNext);
    assert!(matches!(action, WriterAction::ReadNext));
    let (state, action) = step(state, WriterEvent::NextRead { next: None });
    assert_eq!(state, WriterState::Waiting);
    assert!(matches!(action, WriterAction::Wait));
}

#[test]
fn a_failure_ends_the_pass() {
    let (state, action) =
        step(WriterState::Sending { sequence: 3 }, WriterEvent::Sent { accepted: false });
    assert_eq!(state, WriterState::Waiting);
    assert!(matches!(action, WriterAction::Wait));
    let (state, action) =
        step(WriterState::Committing { sequence: 3 }, WriterEvent::Committed { stored: false });
    assert_eq!(state, WriterState::Waiting);
    assert!(matches!(action, WriterAction::Wait));
    let event = WriterEvent::NextRead { next: Some((3, message("other:a"))) };
    let (state, action) = step(WriterState::ReadingNext, event);
    assert_eq!(state, WriterState::Waiting);
    match action {
        WriterAction::Refuse { sequence, error } => {
            assert_eq!(sequence, 3);
            assert_eq!(error, CacheError::UnsupportedInsert { collection: "other".to_string() });
        }
        _ => panic!("expected a refusal"),
    }
}

#[test]
fn the_task_ends() {
    let (state, action) = step(WriterState::Waiting, WriterEvent::ShutdownNotified);
    assert_eq!(state, WriterState::Stopped);
    assert!(matches!(action, WriterAction::Stop));
    let (state, action) = step(WriterState::ReadingNext, WriterEvent::ReadFailed);
    assert_eq!(state, WriterState::Failed);
    assert!(matches!(action, WriterAction::Fail));
}

/// Runs the task on a log in memory, where Redis and the log fail as told, and gives the sequence
/// numbers of the transactions that Redis carried out and those that were committed.
fn run_passes(operations: u64, sends: &[bool], commits: &[bool]) -> (Vec<u64>, Vec<u64>) {
    let mut flag = DirtyFlag::new();
    let mut sends = sends.iter();
    let mut commits = commits.iter();
    let (mut sent, mut committed) = (Vec::new(), Vec::new());
    let mut passes: u32 = 0;
    let mut state = WriterState::Waiting;
    let mut event = WriterEvent::IntervalElapsed;
    loop {
        let (next, action) = process_commands(TRADER_KEY, &mut flag, state, event);
        state = next;
        event = match action {
            WriterAction::Wait if passes == 4 => WriterEvent::ShutdownNotified,
            WriterAction::Wait => {
                passes += 1;
                WriterEvent::IntervalElapsed
            }
            WriterAction::CheckConnection => WriterEvent::ConnectionChecked { alive: true },
            WriterAction::ReadNext => {
                let sequence = committed.last().copied().unwrap_or(0) + 1;
                let found = sequence < operations;
                WriterEvent::NextRead {
                    next: if found { Some((sequence, message("orders:a"))) } else { None },
                }
            }
            WriterAction::Send { sequence, .. } => {
                let accepted = *sends.next().unwrap_or(&true);
                if accepted {
                    sent.push(sequence);
                }
                WriterEvent::Sent { accepted }
            }
            WriterAction::Commit { sequence } => {
                let stored = *commits.next().unwrap_or(&true);
                if stored {
                    committed.push(sequence);
                }
                WriterEvent::Committed { stored }
            }
            WriterAction::Stop => return (sent, committed),
            _ => panic!("unexpected action"),
        };
    }
}

#[test]
fn operations_reach_redis_in_order_and_before_their_commit() {
    assert_eq!(run_passes(4, &[], &[]), (vec![1, 2, 3], vec![1, 2, 3]));
    assert_eq!(run_passes(4, &[true, false], &[]), (vec![1, 2, 3], vec![1, 2, 3]));
    assert_eq!(run_passes(4, &[], &[true, false]), (vec![1, 2, 2, 3], vec![1, 2, 3]));
    assert_eq!(run_passes(1, &[], &[]), (vec![], vec![]));
}

#[test]
fn an_operation_reaches_redis_again_only_where_its_commit_failed() {
    let commits = [false, true, false, false, true];
    let (sent, committed) = run_passes(4, &[], &commits);
    assert_eq!(sent, vec![1, 1, 2, 2, 2, 3]);
    assert_eq!(committed, vec![1, 2, 3]);
    let failed = commits.iter().filter(|stored| !**stored).count();
    assert_eq!(sent.len(), committed.len() + failed);
}

/// Runs the task on commands that come one after the other, and gives the keys of those that were
/// appended and those that are left in the channel when the task ends.
fn run_commands(commands: Vec<DatabaseCommand>) -> (Vec<Option<String>>, usize) {
    let mut flag = DirtyFlag { dirty: false };
    let mut commands = commands.into_iter();
    let mut appended = Vec::new();
    let mut state = WriterState::Waiting;
    let mut action = WriterAction::Wait;
    loop {
        let event = match action {
            WriterAction::Wait => match commands.next() {
                Some(cmd) => WriterEvent::Received(cmd),
                None => WriterEvent::ShutdownNotified,
            },
            WriterAction::Append(cmd) => {
                appended.push(cmd.key);
                WriterEvent::AppendFinished { stored: true }
            }
            WriterAction::Stop => {
                assert_eq!(state, WriterState::Stopped);
                return (appended, commands.count());
            }
            _ => panic!("unexpected action"),
        };
        (state, action) = process_commands(TRADER_KEY, &mut flag, state, event);
    }
}

#[test]
fn no_command_behind_the_close_command_is_appended() {
    let commands = vec![
        message("orders:a"),
        message("orders:b"),
        DatabaseCommand::close(),
        message("orders:c"),
        message("orders:d"),
    ];
    let expected = vec![Some("orders:a".to_string()), Some("orders:b".to_string())];
    assert_eq!(run_commands(commands), (expected, 2));
    assert_eq!(run_commands(vec![DatabaseCommand::close()]), (Vec::new(), 0));
    let kept = vec![Some("orders:a".to_string())];
    assert_eq!(run_commands(vec![message("orders:a")]), (kept, 0));
}
