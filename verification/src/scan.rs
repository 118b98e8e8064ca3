//! Collecting the keys that match a pattern.
use redis::Cmd;
use vstd::prelude::*;

use crate::text::{
    decimal, decimal_string, lemma_decimal_injective, lemma_utf8_injective, utf8,
};
use crate::wire::{cmd, cmd_arg, cmd_cursor_arg, command_args};

verus! {

/// How many keys Redis is asked to look at in one round.
pub const REDIS_SCAN_BATCH_SIZE: u64 = 100;

/// A scan for keys: each round gives a batch of keys and the cursor of the next round.
#[derive(Clone, Debug)]
pub struct KeyScan {
    /// The pattern that the keys match.
    pub pattern: String,
    /// The cursor of the next round.
    pub cursor: u64,
    /// The keys that were found so far.
    pub keys: Vec<String>,
    /// Whether the last round was the final one.
    pub done: bool,
}

/// How a search for keys that is to see what waits in the log goes on.
#[derive(Debug)]
pub enum ScanStep {
    /// Carry out what waits in the log, and go on with the search.
    Drain,
    /// Scan for the keys.
    Scan(KeyScan),
}

/// Whether a search for the keys that match a pattern scans for them, where `drained` says whether
/// what waits in the log has been carried out for it.
pub open spec fn scans(step: ScanStep, drained: bool, pattern: Seq<char>) -> bool {
    match step {
        ScanStep::Drain => !drained,
        ScanStep::Scan(scan) => {
            &&& drained
            &&& progress(scan) == scan_started(pattern)
        },
    }
}

/// The arguments of the command of a round.
pub open spec fn scan_args(pattern: Seq<char>, cursor: u64) -> Seq<Seq<u8>> {
    seq![
        utf8("SCAN"@),
        utf8(decimal(cursor as nat)),
        utf8("MATCH"@),
        utf8(pattern),
        utf8("COUNT"@),
        utf8(decimal(REDIS_SCAN_BATCH_SIZE as nat)),
    ]
}

/// Begins a scan for the keys that match a pattern.
pub fn scan_keys(pattern: String) -> (r: KeyScan)
    ensures
        progress(r) == scan_started(pattern@),
        r.pattern == pattern,
        r.cursor == 0,
        r.keys@.len() == 0,
        !r.done,
{
    KeyScan { pattern, cursor: 0, keys: Vec::new(), done: false }
}

impl KeyScan {
    /// The command of the next round.
    pub fn command(&self) -> (r: Cmd)
        ensures
            command_args(r) == scan_args(self.pattern@, self.cursor),
            command_args(r) == seq![
                utf8("SCAN"@),
                utf8(decimal(self.cursor as nat)),
                utf8("MATCH"@),
                utf8(self.pattern@),
                utf8("COUNT"@),
                utf8(decimal(100)),
            ],
    {
        let mut command = cmd("SCAN");
        cmd_cursor_arg(&mut command, self.cursor);
        cmd_arg(&mut command, "MATCH".as_bytes_vec().as_slice());
        cmd_arg(&mut command, self.pattern.as_str().as_bytes_vec().as_slice());
        cmd_arg(&mut command, "COUNT".as_bytes_vec().as_slice());
        let size = decimal_string(REDIS_SCAN_BATCH_SIZE);
        cmd_arg(&mut command, size.as_str().as_bytes_vec().as_slice());
        proof {
            assert(command_args(command) =~= scan_args(self.pattern@, self.cursor));
        }
        command
    }

    /// Takes the reply of a round: the keys are collected, and the scan is done where the cursor is
    /// zero.
    pub fn absorb(&mut self, cursor: u64, batch: Vec<String>)
        requires
            !old(self).done,
        ensures
            progress(*final(self)) == scan_absorbed(
                progress(*old(self)),
                (ScanReply { cursor, batch: batch@ }),
            ),
            final(self).pattern == old(self).pattern,
            final(self).keys@ == old(self).keys@ + batch@,
            final(self).cursor == cursor,
            final(self).done <==> cursor == 0,
    {
        let mut batch = batch;
        self.keys.append(&mut batch);
        self.cursor = cursor;
        self.done = cursor == 0;
    }
}

/// What stands between two rounds of a scan.
pub struct ScanProgress {
    pub pattern: Seq<char>,
    pub cursor: u64,
    pub keys: Seq<String>,
    pub done: bool,
}

/// The reply of a round.
pub struct ScanReply {
    pub cursor: u64,
    pub batch: Seq<String>,
}

/// What a scan has come to.
pub open spec fn progress(scan: KeyScan) -> ScanProgress {
    ScanProgress {
        pattern: scan.pattern@,
        cursor: scan.cursor,
        keys: scan.keys@,
        done: scan.done,
    }
}

/// A scan for a pattern before the first round.
pub open spec fn scan_started(pattern: Seq<char>) -> ScanProgress {
    ScanProgress { pattern, cursor: 0, keys: Seq::empty(), done: false }
}

/// What a scan has come to after one more reply: the keys are collected, and the scan is done where
/// the cursor is zero.
pub open spec fn scan_absorbed(before: ScanProgress, reply: ScanReply) -> ScanProgress {
    ScanProgress {
        pattern: before.pattern,
        cursor: reply.cursor,
        keys: before.keys + reply.batch,
        done: reply.cursor == 0,
    }
}

/// What a scan has come to after the replies of some rounds.
pub open spec fn scan_after(pattern: Seq<char>, replies: Seq<ScanReply>) -> ScanProgress
    decreases replies.len(),
{
    if replies.len() == 0 {
        scan_started(pattern)
    } else {
        scan_absorbed(scan_after(pattern, replies.drop_last()), replies.last())
    }
}

/// A scan ends at the first reply with a zero cursor, and has then collected the batches of all
/// replies, one behind the other; until then each round asks for the same pattern with the cursor
/// of the last reply.
pub proof fn law_scan_collects_all_batches(pattern: Seq<char>, replies: Seq<ScanReply>)
    requires
        forall|i: int| 0 <= i < replies.len() - 1 ==> (#[trigger] replies[i]).cursor != 0,
    ensures
        scan_after(pattern, replies).pattern == pattern,
        scan_after(pattern, replies).keys == replies.map_values(|r: ScanReply| r.batch).flatten(),
        scan_after(pattern, replies).done <==> replies.len() > 0 && replies.last().cursor == 0,
        scan_after(pattern, replies).cursor == (if replies.len() == 0 {
            0
        } else {
            replies.last().cursor
        }),
        forall|i: int| 0 <= i < replies.len() ==> !scan_after(
            pattern,
            #[trigger] replies.take(i),
        ).done,
    decreases replies.len(),
{
    let batches = replies.map_values(|r: ScanReply| r.batch);
    assert forall|i: int| 0 <= i < replies.len() implies !scan_after(
        pattern,
        #[trigger] replies.take(i),
    ).done by {
        let before = replies.take(i);
        if i > 0 {
            assert(before.last() == replies[i - 1]);
        }
    }
    if replies.len() > 0 {
        let rest = replies.drop_last();
        law_scan_collects_all_batches(pattern, rest);
        assert(batches.drop_last() =~= rest.map_values(|r: ScanReply| r.batch));
        assert(batches.last() == replies.last().batch);
        batches.lemma_flatten_and_flatten_alt_are_equivalent();
        batches.drop_last().lemma_flatten_and_flatten_alt_are_equivalent();
    }
}

/// The command of a round asks for the pattern of the scan and from its cursor: the arguments
/// behind `SCAN`, `MATCH` and `COUNT` are the cursor in decimal notation, the pattern as it is and
/// one hundred, so that rounds that ask for different patterns or from different cursors send
/// different commands.
pub proof fn law_scan_asks_for_its_pattern(
    pattern: Seq<char>,
    cursor: u64,
    other_pattern: Seq<char>,
    other_cursor: u64,
)
    ensures
        scan_args(pattern, cursor).len() == 6,
        scan_args(pattern, cursor)[0] == utf8("SCAN"@),
        scan_args(pattern, cursor)[1] == utf8(decimal(cursor as nat)),
        scan_args(pattern, cursor)[2] == utf8("MATCH"@),
        scan_args(pattern, cursor)[3] == utf8(pattern),
        scan_args(pattern, cursor)[4] == utf8("COUNT"@),
        scan_args(pattern, cursor)[5] == utf8("100"@),
        scan_args(pattern, cursor) == scan_args(other_pattern, other_cursor) <==> pattern
            == other_pattern && cursor == other_cursor,
{
    reveal_strlit("100");
    reveal_with_fuel(decimal, 4);
    assert(decimal(100) =~= "100"@);
    if scan_args(pattern, cursor) == scan_args(other_pattern, other_cursor) {
        assert(scan_args(pattern, cursor)[3] == scan_args(other_pattern, other_cursor)[3]);
        assert(scan_args(pattern, cursor)[1] == scan_args(other_pattern, other_cursor)[1]);
        lemma_utf8_injective(pattern, other_pattern);
        lemma_utf8_injective(decimal(cursor as nat), decimal(other_cursor as nat));
        lemma_decimal_injective(cursor as nat, other_cursor as nat);
    }
}

/// A scan begins without keys and from cursor zero, a reply adds its batch behind the keys that
/// were found and sets the cursor, and the scan is done exactly where that cursor is zero; the
/// pattern stays.
pub proof fn law_scan_takes_replies(scan: KeyScan, pattern: Seq<char>, reply: ScanReply)
    ensures
        progress(scan).pattern == scan.pattern@,
        progress(scan).cursor == scan.cursor,
        progress(scan).keys == scan.keys@,
        progress(scan).done == scan.done,
        scan_started(pattern).pattern == pattern,
        scan_started(pattern).cursor == 0,
        scan_started(pattern).keys.len() == 0,
        !scan_started(pattern).done,
        scan_absorbed(progress(scan), reply).pattern == scan.pattern@,
        scan_absorbed(progress(scan), reply).keys == scan.keys@ + reply.batch,
        scan_absorbed(progress(scan), reply).cursor == reply.cursor,
        scan_absorbed(progress(scan), reply).done <==> reply.cursor == 0,
{
}

/// A search for keys drains first, and scans for its pattern from the start once that is done.
pub proof fn law_search_drains_first(step: ScanStep, drained: bool, pattern: Seq<char>)
    requires
        scans(step, drained, pattern),
    ensures
        step is Drain <==> !drained,
        step matches ScanStep::Scan(scan) ==> scan.pattern@ == pattern && scan.cursor == 0
            && scan.keys@.len() == 0 && !scan.done,
{
}

} // verus!
