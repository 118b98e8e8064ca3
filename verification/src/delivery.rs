//! What the task that writes and the drain before a read promise together with the log: every
//! operation reaches Redis before it counts as committed, and the operations reach it in the order
//! in which they were appended.
use vstd::prelude::*;

use crate::command::{
    logged, unlogged, CommandView, DatabaseOperation, LoggedCommandView,
};
use crate::drain::{
    drain_dirty, drain_expects, drain_step, DrainActionView, DrainEventView, DrainStateView,
};
use crate::error::CacheErrorView;
use crate::pipeline::drained;
use crate::wal_laws::{law_append_keeps_operations, law_commit_advances, Wal};
use crate::writer::{
    writer_dirty, writer_expects, writer_step, WriterActionView, WriterEventView, WriterState,
};

verus! {

/// A transaction that Redis has carried out: the sequence number of the operation, and the
/// commands that were sent for it.
pub struct Acknowledged {
    pub sequence: u64,
    pub commands: Seq<Seq<Seq<u8>>>,
}

/// Whether commands are those that carry out an operation of a trader.
pub open spec fn carries_out(
    trader_key: Seq<char>,
    operation: LoggedCommandView,
    commands: Seq<Seq<Seq<u8>>>,
) -> bool {
    match unlogged(operation) {
        Some(message) => drained(trader_key, message) == Ok::<_, CacheErrorView>(commands),
        None => false,
    }
}

/// Whether Redis has carried out the operation with a sequence number.
pub open spec fn was_acknowledged(acknowledged: Seq<Acknowledged>, sequence: u64) -> bool {
    exists|i: int|
        0 <= i < acknowledged.len() && (#[trigger] acknowledged[i]).sequence == sequence
}

/// Whether transactions were carried out as the log asks, where `start` is the sequence number that
/// was last committed before the first of them: each with the commands of the operation with its
/// sequence number, each sequence number the one before it or the next, and every operation that
/// was committed since then among them.
pub open spec fn in_order(
    trader_key: Seq<char>,
    start: u64,
    wal: Wal,
    acknowledged: Seq<Acknowledged>,
) -> bool {
    &&& wal.well_formed()
    &&& start <= wal.last
    &&& forall|i: int|
        0 <= i < acknowledged.len() ==> {
            &&& start < (#[trigger] acknowledged[i]).sequence < wal.next
            &&& acknowledged[i].sequence <= wal.last + 1
            &&& carries_out(
                trader_key,
                wal.operations[acknowledged[i].sequence],
                acknowledged[i].commands,
            )
        }
    &&& acknowledged.len() > 0 ==> acknowledged[0].sequence == start + 1
    &&& forall|i: int, j: int|
        0 <= i && j == i + 1 && j < acknowledged.len() ==> {
            &&& (#[trigger] acknowledged[i]).sequence <= (#[trigger] acknowledged[j]).sequence
            &&& acknowledged[j].sequence <= acknowledged[i].sequence + 1
        }
    &&& if acknowledged.len() == 0 {
        wal.last == start
    } else {
        acknowledged.last().sequence >= wal.last
    }
    &&& forall|n: u64| start < n <= wal.last ==> #[trigger] was_acknowledged(acknowledged, n)
}

/// Nothing was carried out before the first transaction.
proof fn lemma_order_begins(trader_key: Seq<char>, wal: Wal)
    requires
        wal.well_formed(),
    ensures
        in_order(trader_key, wal.last, wal, Seq::empty()),
{
}

/// Appending an operation does not touch the order.
proof fn lemma_order_after_append(
    trader_key: Seq<char>,
    start: u64,
    wal: Wal,
    acknowledged: Seq<Acknowledged>,
    operation: LoggedCommandView,
)
    requires
        in_order(trader_key, start, wal, acknowledged),
        wal.next < u64::MAX,
        !operation.committed_to_redis,
    ensures
        in_order(trader_key, start, wal.append(operation), acknowledged),
{
    law_append_keeps_operations(wal, operation);
}

/// The transaction of the operation that is next keeps the order.
proof fn lemma_order_after_acknowledgement(
    trader_key: Seq<char>,
    start: u64,
    wal: Wal,
    acknowledged: Seq<Acknowledged>,
    sequence: u64,
    commands: Seq<Seq<Seq<u8>>>,
)
    requires
        in_order(trader_key, start, wal, acknowledged),
        wal.next_uncommitted() is Some,
        wal.next_uncommitted() == Some((sequence, wal.operations[sequence])),
        carries_out(trader_key, wal.operations[sequence], commands),
    ensures
        in_order(
            trader_key,
            start,
            wal,
            acknowledged.push(Acknowledged { sequence, commands }),
        ),
{
    let new = acknowledged.push(Acknowledged { sequence, commands });
    law_commit_advances(wal);
    assert(wal.operations.contains_key(sequence));
    assert forall|n: u64| start < n <= wal.last implies #[trigger] was_acknowledged(new, n) by {
        assert(was_acknowledged(acknowledged, n));
        let i = choose|i: int|
            0 <= i < acknowledged.len() && (#[trigger] acknowledged[i]).sequence == n;
        assert(new[i].sequence == n);
    }
    if acknowledged.len() > 0 {
        assert(new[0] == acknowledged[0]);
    }
    assert forall|i: int, j: int| 0 <= i && j == i + 1 && j < new.len() implies {
        &&& (#[trigger] new[i]).sequence <= (#[trigger] new[j]).sequence
        &&& new[j].sequence <= new[i].sequence + 1
    } by {
        assert(new[i] == acknowledged[i]);
        if j < acknowledged.len() {
            assert(new[j] == acknowledged[j]);
        } else {
            assert(new[i] == acknowledged.last());
        }
    }
}

/// Committing the operation that Redis carried out last keeps the order.
proof fn lemma_order_after_commit(
    trader_key: Seq<char>,
    start: u64,
    wal: Wal,
    acknowledged: Seq<Acknowledged>,
    sequence: u64,
)
    requires
        in_order(trader_key, start, wal, acknowledged),
        wal.next_uncommitted() is Some,
        wal.next_uncommitted() == Some((sequence, wal.operations[sequence])),
        acknowledged.len() > 0,
        acknowledged.last().sequence == sequence,
    ensures
        in_order(trader_key, start, wal.commit(sequence), acknowledged),
{
    let new = wal.commit(sequence);
    law_commit_advances(wal);
    assert forall|n: u64| start < n <= new.last implies #[trigger] was_acknowledged(
        acknowledged,
        n,
    ) by {
        if n == sequence {
            assert(acknowledged[acknowledged.len() - 1].sequence == n);
        }
    }
    assert forall|i: int| 0 <= i < acknowledged.len() implies {
        &&& start < (#[trigger] acknowledged[i]).sequence < new.next
        &&& acknowledged[i].sequence <= new.last + 1
        &&& carries_out(
            trader_key,
            new.operations[acknowledged[i].sequence],
            acknowledged[i].commands,
        )
    } by {
        let n = acknowledged[i].sequence;
        if n != sequence {
            assert(new.operations[n] == wal.operations[n]);
        }
    }
}

/// The task that writes, with the log that it alone writes to and what Redis has carried out.
pub struct WriterSystem {
    pub state: WriterState,
    pub wal: Wal,
    /// The command that is being appended.
    pub appending: Option<CommandView>,
    /// The transaction that is with Redis.
    pub sent: Option<Acknowledged>,
    pub acknowledged: Seq<Acknowledged>,
    /// The sequence numbers of the operations whose commit failed, one for each failure.
    pub uncommitted: Seq<u64>,
    pub dirty: bool,
}

/// The task at its start, on a log.
pub open spec fn writer_started(wal: Wal, dirty: bool) -> WriterSystem {
    WriterSystem {
        state: WriterState::Waiting,
        wal,
        appending: None,
        sent: None,
        acknowledged: Seq::empty(),
        uncommitted: Seq::empty(),
        dirty,
    }
}

/// Whether an operation that was read is the next one of a log.
pub open spec fn reads_next(wal: Wal, next: Option<(u64, CommandView)>) -> bool {
    match (next, wal.next_uncommitted()) {
        (Some((sequence, message)), Some((n, operation))) => {
            &&& sequence == n
            &&& unlogged(operation) == Some(message)
        },
        (None, None) => true,
        _ => false,
    }
}

/// Whether an event can happen: commands that are sent to the task are not committed yet, an append
/// succeeds only while there are sequence numbers, and what is read is what the log holds.
pub open spec fn writer_event_happens(sys: WriterSystem, event: WriterEventView) -> bool {
    &&& writer_expects(sys.state, event)
    &&& match event {
        WriterEventView::Received(message) => !message.committed_to_redis,
        WriterEventView::AppendFinished { stored } => stored ==> sys.wal.next < u64::MAX,
        WriterEventView::NextRead { next } => reads_next(sys.wal, next),
        _ => true,
    }
}

/// The task, the log and Redis after an event.
pub open spec fn writer_after(trader_key: Seq<char>, sys: WriterSystem, event: WriterEventView) ->
    WriterSystem {
    let (state, action) = writer_step(trader_key, sys.state, event);
    WriterSystem {
        state,
        wal: match (sys.state, event) {
            (WriterState::Appending, WriterEventView::AppendFinished { stored: true }) =>
                sys.wal.append(logged(sys.appending->0)),
            (
                WriterState::Committing { sequence },
                WriterEventView::Committed { stored: true },
            ) => sys.wal.commit(sequence),
            _ => sys.wal,
        },
        appending: match action {
            WriterActionView::Append(message) => Some(message),
            _ => None,
        },
        sent: match action {
            WriterActionView::Send { sequence, commands, .. } => Some(
                Acknowledged { sequence, commands },
            ),
            _ => None,
        },
        acknowledged: match (sys.sent, event) {
            (Some(sent), WriterEventView::Sent { accepted: true }) => sys.acknowledged.push(sent),
            _ => sys.acknowledged,
        },
        uncommitted: match (sys.state, event) {
            (
                WriterState::Committing { sequence },
                WriterEventView::Committed { stored: false },
            ) => sys.uncommitted.push(sequence),
            _ => sys.uncommitted,
        },
        dirty: writer_dirty(sys.dirty, event),
    }
}

/// How often a number stands in a sequence.
pub open spec fn occurrences(numbers: Seq<u64>, n: u64) -> nat
    decreases numbers.len(),
{
    if numbers.len() == 0 {
        0
    } else {
        occurrences(numbers.drop_last(), n) + if numbers.last() == n {
            1nat
        } else {
            0
        }
    }
}

/// One more number.
proof fn lemma_occurrences_push(numbers: Seq<u64>, added: u64, n: u64)
    ensures
        occurrences(numbers.push(added), n) == occurrences(numbers, n) + if added == n {
            1nat
        } else {
            0
        },
{
    assert(numbers.push(added).drop_last() =~= numbers);
}

/// The sequence numbers of transactions.
pub open spec fn sequences(acknowledged: Seq<Acknowledged>) -> Seq<u64> {
    acknowledged.map_values(|a: Acknowledged| a.sequence)
}

/// One more transaction.
proof fn lemma_sequences_push(acknowledged: Seq<Acknowledged>, added: Acknowledged)
    ensures
        sequences(acknowledged.push(added)) == sequences(acknowledged).push(added.sequence),
{
    assert(sequences(acknowledged.push(added)) =~= sequences(acknowledged).push(added.sequence));
}

/// How many transactions are accounted for by what the task is doing: one that Redis has carried
/// out and that is being committed.
pub open spec fn being_committed(state: WriterState) -> nat {
    match state {
        WriterState::Committing { .. } => 1,
        _ => 0,
    }
}

/// Whether Redis carried out an operation again only where its commit failed: once for its commit,
/// once for each commit of it that failed, and once where it is being committed.
pub open spec fn repeats_explained(start: u64, sys: WriterSystem) -> bool {
    &&& sys.acknowledged.len() == sys.wal.last - start + sys.uncommitted.len() + being_committed(
        sys.state,
    )
    &&& forall|n: u64| #[trigger]
        occurrences(sequences(sys.acknowledged), n) == occurrences(sys.uncommitted, n) + (
        if start < n <= sys.wal.last {
            1nat
        } else {
            0
        }) + (if sys.state == (WriterState::Committing { sequence: n }) {
            1nat
        } else {
            0
        })
}

/// What holds of the task, the log and Redis at any time, where `start` is the sequence number that
/// was last committed before the task began.
pub open spec fn writer_ok(trader_key: Seq<char>, start: u64, sys: WriterSystem) -> bool {
    &&& in_order(trader_key, start, sys.wal, sys.acknowledged)
    &&& repeats_explained(start, sys)
    &&& !sys.dirty ==> sys.wal.next_uncommitted() is None
    &&& match sys.state {
        WriterState::Appending => sys.appending matches Some(message)
            && !message.committed_to_redis,
        WriterState::Sending { sequence } => {
            &&& sys.wal.next_uncommitted() == Some((sequence, sys.wal.operations[sequence]))
            &&& sys.sent matches Some(sent) && sent.sequence == sequence && carries_out(
                trader_key,
                sys.wal.operations[sequence],
                sent.commands,
            )
        },
        WriterState::Committing { sequence } => {
            &&& sys.wal.next_uncommitted() == Some((sequence, sys.wal.operations[sequence]))
            &&& sys.acknowledged.len() > 0
            &&& sys.acknowledged.last().sequence == sequence
        },
        _ => true,
    }
}

/// An event keeps what holds of the task: an operation is committed only after Redis has carried
/// out its transaction, the transactions are carried out in the order of the sequence numbers, one
/// is carried out again only where its commit failed, and the flag is clear only where nothing
/// waits in the log.
pub proof fn law_writer_event_keeps_order(
    trader_key: Seq<char>,
    start: u64,
    sys: WriterSystem,
    event: WriterEventView,
)
    requires
        writer_ok(trader_key, start, sys),
        writer_event_happens(sys, event),
    ensures
        writer_ok(trader_key, start, writer_after(trader_key, sys, event)),
{
    match (sys.state, event) {
        (WriterState::Appending, WriterEventView::AppendFinished { stored: true }) => {
            lemma_order_after_append(
                trader_key,
                start,
                sys.wal,
                sys.acknowledged,
                logged(sys.appending->0),
            );
        },
        (WriterState::Sending { sequence }, WriterEventView::Sent { accepted: true }) => {
            lemma_sequences_push(sys.acknowledged, sys.sent->0);
            assert forall|n: u64| #[trigger]
                occurrences(sequences(sys.acknowledged.push(sys.sent->0)), n) == occurrences(
                sequences(sys.acknowledged),
                n,
            ) + (if sequence == n {
                1nat
            } else {
                0
            }) by {
                lemma_occurrences_push(sequences(sys.acknowledged), sequence, n);
            }
            lemma_order_after_acknowledgement(
                trader_key,
                start,
                sys.wal,
                sys.acknowledged,
                sequence,
                sys.sent->0.commands,
            );
        },
        (WriterState::Committing { sequence }, WriterEventView::Committed { stored: true }) => {
            law_commit_advances(sys.wal);
            lemma_order_after_commit(trader_key, start, sys.wal, sys.acknowledged, sequence);
        },
        (WriterState::Committing { sequence }, WriterEventView::Committed { stored: false }) => {
            let after = writer_after(trader_key, sys, event);
            assert forall|n: u64| #[trigger]
                occurrences(sequences(after.acknowledged), n) == occurrences(
                after.uncommitted,
                n,
            ) + (if start < n <= after.wal.last {
                1nat
            } else {
                0
            }) by {
                lemma_occurrences_push(sys.uncommitted, sequence, n);
            }
        },
        _ => {},
    }
}

/// The task, the log and Redis after events.
pub open spec fn writer_run(
    trader_key: Seq<char>,
    sys: WriterSystem,
    events: Seq<WriterEventView>,
) -> WriterSystem
    decreases events.len(),
{
    if events.len() == 0 {
        sys
    } else {
        writer_after(
            trader_key,
            writer_run(trader_key, sys, events.drop_last()),
            events.last(),
        )
    }
}

/// Whether events can happen one after the other.
pub open spec fn writer_events_happen(
    trader_key: Seq<char>,
    sys: WriterSystem,
    events: Seq<WriterEventView>,
) -> bool
    decreases events.len(),
{
    events.len() > 0 ==> {
        &&& writer_events_happen(trader_key, sys, events.drop_last())
        &&& writer_event_happens(
            writer_run(trader_key, sys, events.drop_last()),
            events.last(),
        )
    }
}

/// How many commits failed.
pub open spec fn failed_commits(events: Seq<WriterEventView>) -> nat
    decreases events.len(),
{
    if events.len() == 0 {
        0
    } else {
        failed_commits(events.drop_last()) + if events.last() == (WriterEventView::Committed {
            stored: false,
        }) {
            1nat
        } else {
            0
        }
    }
}

/// Whatever happens to the task, the order holds: every operation that was committed since the
/// start was carried out by Redis, with the commands of the message that was appended, and in the
/// order in which the messages were appended; an operation is carried out again only where its
/// commit failed, before any later one, so that Redis has carried out one transaction for each
/// operation that was committed, one for each commit that failed, and one that is being committed.
pub proof fn law_writer_delivers_in_order(
    trader_key: Seq<char>,
    wal: Wal,
    dirty: bool,
    events: Seq<WriterEventView>,
)
    requires
        wal.well_formed(),
        !dirty ==> wal.next_uncommitted() is None,
        writer_events_happen(trader_key, writer_started(wal, dirty), events),
    ensures
        ({
            let sys = writer_run(trader_key, writer_started(wal, dirty), events);
            &&& writer_ok(trader_key, wal.last, sys)
            &&& sys.uncommitted.len() == failed_commits(events)
            &&& sys.acknowledged.len() == sys.wal.last - wal.last + failed_commits(events)
                + being_committed(sys.state)
        }),
    decreases events.len(),
{
    let sys = writer_started(wal, dirty);
    if events.len() == 0 {
        lemma_order_begins(trader_key, wal);
    } else {
        law_writer_delivers_in_order(trader_key, wal, dirty, events.drop_last());
        law_writer_event_keeps_order(
            trader_key,
            wal.last,
            writer_run(trader_key, sys, events.drop_last()),
            events.last(),
        );
    }
}

/// The command that closes the database ends the task at once: it is not appended, nothing of the
/// log changes, and nothing can happen to the task after it, so that no command that follows is
/// appended or sent.
pub proof fn law_close_ends_task(
    trader_key: Seq<char>,
    sys: WriterSystem,
    events: Seq<WriterEventView>,
    i: int,
    message: CommandView,
)
    requires
        writer_events_happen(trader_key, sys, events),
        0 <= i < events.len(),
        events[i] == WriterEventView::Received(message),
        message.op_type == DatabaseOperation::Close,
    ensures
        i == events.len() - 1,
        writer_run(trader_key, sys, events).state == WriterState::Stopped,
        writer_run(trader_key, sys, events).wal == writer_run(
            trader_key,
            sys,
            events.drop_last(),
        ).wal,
        writer_run(trader_key, sys, events).acknowledged == writer_run(
            trader_key,
            sys,
            events.drop_last(),
        ).acknowledged,
        writer_run(trader_key, sys, events).dirty == writer_run(
            trader_key,
            sys,
            events.drop_last(),
        ).dirty,
    decreases events.len(),
{
    let before = events.drop_last();
    if i < events.len() - 1 {
        assert(before[i] == events[i]);
        law_close_ends_task(trader_key, sys, before, i, message);
    }
}

/// An append that failed changes nothing: the log, what Redis has carried out and the flag stay as
/// they were, and the task waits for what comes next.
pub proof fn law_failed_append_changes_nothing(trader_key: Seq<char>, sys: WriterSystem)
    ensures
        ({
            let event = WriterEventView::AppendFinished { stored: false };
            let after = writer_after(trader_key, sys, event);
            &&& after.state == WriterState::Waiting
            &&& after.wal == sys.wal
            &&& after.acknowledged == sys.acknowledged
            &&& after.dirty == sys.dirty
        }),
{
}

/// The drain before a read, with the log that it alone writes to and what Redis has carried out.
pub struct DrainSystem {
    pub state: DrainStateView,
    pub wal: Wal,
    /// The transaction that is with Redis.
    pub sent: Option<Acknowledged>,
    pub acknowledged: Seq<Acknowledged>,
    pub dirty: bool,
}

/// The drain at its start, on a log.
pub open spec fn drain_started(wal: Wal, dirty: bool) -> DrainSystem {
    DrainSystem {
        state: DrainStateView::ReadingNext,
        wal,
        sent: None,
        acknowledged: Seq::empty(),
        dirty,
    }
}

/// Whether an event can happen: what is read is what the log holds.
pub open spec fn drain_event_happens(sys: DrainSystem, event: DrainEventView) -> bool {
    &&& drain_expects(sys.state, event)
    &&& match event {
        DrainEventView::NextRead { next } => reads_next(sys.wal, next),
        _ => true,
    }
}

/// The drain, the log and Redis after an event.
pub open spec fn drain_after(trader_key: Seq<char>, sys: DrainSystem, event: DrainEventView) ->
    DrainSystem {
    let (state, action) = drain_step(trader_key, sys.state, event);
    DrainSystem {
        state,
        wal: match (sys.state, event) {
            (
                DrainStateView::Committing { sequence },
                DrainEventView::Committed { stored: true },
            ) => sys.wal.commit(sequence),
            _ => sys.wal,
        },
        sent: match action {
            DrainActionView::Send { sequence, commands, .. } => Some(
                Acknowledged { sequence, commands },
            ),
            _ => None,
        },
        acknowledged: match (sys.sent, event) {
            (Some(sent), DrainEventView::Sent { accepted: true }) => sys.acknowledged.push(sent),
            _ => sys.acknowledged,
        },
        dirty: drain_dirty(sys.dirty, event),
    }
}

/// Whether an operation that the drain holds is the next one of the log.
pub open spec fn holds_next(wal: Wal, sequence: u64, message: CommandView) -> bool {
    &&& wal.next_uncommitted() == Some((sequence, wal.operations[sequence]))
    &&& unlogged(wal.operations[sequence]) == Some(message)
}

/// Whether Redis carried out each operation once: the transactions have the sequence numbers behind
/// `start`, one behind the other, up to the last committed one or, where an operation is being
/// committed or the drain ended because its commit failed, up to the one behind it.
pub open spec fn each_once(start: u64, sys: DrainSystem) -> bool {
    &&& forall|i: int|
        0 <= i < sys.acknowledged.len() ==> (#[trigger] sys.acknowledged[i]).sequence == start + 1
            + i
    &&& match sys.state {
        DrainStateView::Committing { .. } => sys.acknowledged.len() == sys.wal.last - start + 1,
        DrainStateView::Finished => {
            ||| sys.acknowledged.len() == sys.wal.last - start
            ||| sys.acknowledged.len() == sys.wal.last - start + 1
                && sys.wal.next_uncommitted() is Some
        },
        _ => sys.acknowledged.len() == sys.wal.last - start,
    }
}

/// What holds of the drain, the log and Redis at any time, where `start` is the sequence number
/// that was last committed before the drain began.
pub open spec fn drain_ok(trader_key: Seq<char>, start: u64, sys: DrainSystem) -> bool {
    &&& in_order(trader_key, start, sys.wal, sys.acknowledged)
    &&& each_once(start, sys)
    &&& !sys.dirty ==> sys.wal.next_uncommitted() is None
    &&& match sys.state {
        DrainStateView::CheckingConnection { sequence, message }
        | DrainStateView::Reconnecting { sequence, message }
        | DrainStateView::Pausing { sequence, message } => holds_next(sys.wal, sequence, message),
        DrainStateView::Sending { sequence, message } => {
            &&& holds_next(sys.wal, sequence, message)
            &&& sys.sent matches Some(sent) && sent.sequence == sequence && carries_out(
                trader_key,
                sys.wal.operations[sequence],
                sent.commands,
            )
        },
        DrainStateView::Committing { sequence } => {
            &&& sys.wal.next_uncommitted() == Some((sequence, sys.wal.operations[sequence]))
            &&& sys.acknowledged.len() > 0
            &&& sys.acknowledged.last().sequence == sequence
        },
        _ => true,
    }
}

/// An event keeps what holds of the drain: an operation is committed only after Redis has carried
/// out its transaction, the transactions are carried out in the order of the sequence numbers and
/// each once, and the flag is clear only where nothing waits in the log.
pub proof fn law_drain_event_keeps_order(
    trader_key: Seq<char>,
    start: u64,
    sys: DrainSystem,
    event: DrainEventView,
)
    requires
        drain_ok(trader_key, start, sys),
        drain_event_happens(sys, event),
    ensures
        drain_ok(trader_key, start, drain_after(trader_key, sys, event)),
{
    match (sys.state, event) {
        (DrainStateView::Sending { sequence, .. }, DrainEventView::Sent { accepted: true }) => {
            law_commit_advances(sys.wal);
            lemma_order_after_acknowledgement(
                trader_key,
                start,
                sys.wal,
                sys.acknowledged,
                sequence,
                sys.sent->0.commands,
            );
        },
        (
            DrainStateView::Committing { sequence },
            DrainEventView::Committed { stored: true },
        ) => {
            law_commit_advances(sys.wal);
            lemma_order_after_commit(trader_key, start, sys.wal, sys.acknowledged, sequence);
        },
        _ => {},
    }
}

/// The drain, the log and Redis after events.
pub open spec fn drain_run(
    trader_key: Seq<char>,
    sys: DrainSystem,
    events: Seq<DrainEventView>,
) -> DrainSystem
    decreases events.len(),
{
    if events.len() == 0 {
        sys
    } else {
        drain_after(trader_key, drain_run(trader_key, sys, events.drop_last()), events.last())
    }
}

/// Whether events can happen one after the other.
pub open spec fn drain_events_happen(
    trader_key: Seq<char>,
    sys: DrainSystem,
    events: Seq<DrainEventView>,
) -> bool
    decreases events.len(),
{
    events.len() > 0 ==> {
        &&& drain_events_happen(trader_key, sys, events.drop_last())
        &&& drain_event_happens(drain_run(trader_key, sys, events.drop_last()), events.last())
    }
}

/// Whatever happens to the drain, the order holds: every operation that was committed since the
/// start was carried out by Redis, with the commands of the message that was appended, once, and in
/// the order in which the messages were appended.
pub proof fn law_drain_delivers_in_order(
    trader_key: Seq<char>,
    wal: Wal,
    dirty: bool,
    events: Seq<DrainEventView>,
)
    requires
        wal.well_formed(),
        !dirty ==> wal.next_uncommitted() is None,
        drain_events_happen(trader_key, drain_started(wal, dirty), events),
    ensures
        drain_ok(
            trader_key,
            wal.last,
            drain_run(trader_key, drain_started(wal, dirty), events),
        ),
    decreases events.len(),
{
    let sys = drain_started(wal, dirty);
    if events.len() == 0 {
        lemma_order_begins(trader_key, wal);
    } else {
        law_drain_delivers_in_order(trader_key, wal, dirty, events.drop_last());
        law_drain_event_keeps_order(
            trader_key,
            wal.last,
            drain_run(trader_key, sys, events.drop_last()),
            events.last(),
        );
    }
}

/// A command that is appended while the drain runs does not disturb it: what held of the drain
/// holds on, and the flag, which the append sets, says that there is more to do.
pub proof fn law_append_during_drain(
    trader_key: Seq<char>,
    start: u64,
    sys: DrainSystem,
    message: CommandView,
)
    requires
        drain_ok(trader_key, start, sys),
        sys.wal.next < u64::MAX,
        !message.committed_to_redis,
    ensures
        drain_ok(
            trader_key,
            start,
            (DrainSystem { wal: sys.wal.append(logged(message)), dirty: true, ..sys }),
        ),
{
    lemma_order_after_append(trader_key, start, sys.wal, sys.acknowledged, logged(message));
}

/// A drain that leaves the flag clear has had Redis carry out every operation of the log behind the
/// first that was waiting, each once: a read that follows sees them all.
pub proof fn law_clear_flag_means_drained(
    trader_key: Seq<char>,
    wal: Wal,
    dirty: bool,
    events: Seq<DrainEventView>,
)
    requires
        wal.well_formed(),
        !dirty ==> wal.next_uncommitted() is None,
        drain_events_happen(trader_key, drain_started(wal, dirty), events),
    ensures
        ({
            let sys = drain_run(trader_key, drain_started(wal, dirty), events);
            !sys.dirty ==> {
                &&& forall|n: u64|
                    1 <= n < sys.wal.next ==> (
                    #[trigger] sys.wal.operations[n]).committed_to_redis
                &&& forall|n: u64|
                    wal.last < n < sys.wal.next ==> #[trigger] was_acknowledged(
                        sys.acknowledged,
                        n,
                    )
                &&& sys.acknowledged.len() == sys.wal.last - wal.last
                &&& forall|i: int|
                    0 <= i < sys.acknowledged.len() ==> (
                    #[trigger] sys.acknowledged[i]).sequence == wal.last + 1 + i
            }
        }),
{
    law_drain_delivers_in_order(trader_key, wal, dirty, events);
    let sys = drain_run(trader_key, drain_started(wal, dirty), events);
    if !sys.dirty && sys.wal.last + 1 < sys.wal.next {
        let n = (sys.wal.last + 1) as u64;
        assert(sys.wal.operations.contains_key(n));
        assert(!sys.wal.operations[n].committed_to_redis);
    }
}

} // verus!
