//! Per-record attempt lifecycle and the final decision between reset and
//! exit.
//!
//! The caller drives the machine: it asks for the next action, performs it
//! (stages a capsule, writes a record back, waits, resets) and reports the
//! outcome of each apply step.
//!
//! The run ends in a reset when at least one record was admitted, whether or
//! not any of them still needed an attempt. With no admitted record it waits
//! and exits with "nothing to do", and no reset is made.
//!
//! Retry policy: a record whose attempted flag is set is never applied
//! again, whether its last attempt succeeded or failed. Each record gets one
//! attempt, and recording that attempt sets the flag.
use crate::record::{
    encoding, Timestamp, STATUS_ATTEMPTED, STATUS_FAILED, STATUS_SUCCEEDED, UpdateInfoView,
};
use crate::registry::UpdateEntry;
use vstd::prelude::*;

verus! {

/// Wait before exiting when there was nothing to do, in microseconds.
pub const NOTHING_TO_DO_STALL_US: u64 = 10_000_000;

/// Wait before the reset, in microseconds.
pub const RESET_STALL_US: u64 = 5_000_000;

/// Further wait before the reset when output is verbose, in microseconds.
pub const VERBOSE_RESET_STALL_US: u64 = 30_000_000;

#[derive(Clone, Copy, Debug, PartialEq, Eq, Structural)]
pub enum Action {
    /// Stage the capsule of entry `index`, then report with `record_outcome`,
    /// or with `leave_pending` where the apply step could not be started.
    Apply { index: usize },
    /// No record was admitted: wait, then exit with the "nothing to do"
    /// status. No reset follows.
    Exit { stall_us: u64 },
    /// Wait, then reset the machine.
    Reset { stall_us: u64 },
    /// The run has already ended.
    Done,
}

pub struct Orchestrator {
    pub entries: Vec<UpdateEntry>,
    /// First entry not yet visited.
    pub next: usize,
    /// Records applied so far.
    pub processed: usize,
    /// An apply step is awaiting its outcome.
    pub applying: bool,
    /// Exit or reset has been handed out.
    pub finished: bool,
    pub verbose: bool,
}

pub open spec fn is_attempted(status: u32) -> bool {
    status & STATUS_ATTEMPTED != 0
}

/// Status after an attempt: attempted set, one result bit set, the other
/// result bit cleared, every other bit kept.
pub open spec fn outcome_status(status: u32, succeeded: bool) -> u32 {
    (status & !(STATUS_SUCCEEDED | STATUS_FAILED)) | STATUS_ATTEMPTED | (if succeeded {
        STATUS_SUCCEEDED
    } else {
        STATUS_FAILED
    })
}

/// Record after an attempt at `now`.
pub open spec fn after_attempt(v: UpdateInfoView, succeeded: bool, now: Timestamp) -> UpdateInfoView {
    UpdateInfoView { status: outcome_status(v.status, succeeded), time_attempted: now, ..v }
}

/// Position of the first record from `from` on whose attempted flag is
/// clear, or the number of records if there is none.
pub open spec fn next_pending(entries: Seq<UpdateEntry>, from: int) -> int
    decreases entries.len() - from,
{
    if from >= entries.len() {
        entries.len() as int
    } else if !is_attempted(entries[from].info.status) {
        from
    } else {
        next_pending(entries, from + 1)
    }
}

pub open spec fn reset_stall(verbose: bool) -> u64 {
    if verbose {
        (RESET_STALL_US + VERBOSE_RESET_STALL_US) as u64
    } else {
        RESET_STALL_US
    }
}

/// What the run ends with once every record has been visited, given the
/// number of admitted records.
pub open spec fn final_action(admitted: nat, verbose: bool) -> Action {
    if admitted == 0 {
        Action::Exit { stall_us: NOTHING_TO_DO_STALL_US }
    } else {
        Action::Reset { stall_us: reset_stall(verbose) }
    }
}

proof fn lemma_next_pending(entries: Seq<UpdateEntry>, from: int)
    requires
        0 <= from <= entries.len(),
    ensures
        from <= next_pending(entries, from) <= entries.len(),
        next_pending(entries, from) < entries.len() ==> !is_attempted(
            entries[next_pending(entries, from)].info.status,
        ),
        forall|k: int| from <= k < next_pending(entries, from) ==> is_attempted(#[trigger] entries[k].info.status),
    decreases entries.len() - from,
{
    if from < entries.len() && is_attempted(entries[from].info.status) {
        lemma_next_pending(entries, from + 1);
    }
}

/// One attempt per record: recording an outcome sets the attempted flag,
/// and a run over records that all carry the flag applies none of them.
pub proof fn lemma_attempt_is_final(
    status: u32,
    succeeded: bool,
    entries: Seq<UpdateEntry>,
    from: int,
)
    requires
        0 <= from <= entries.len(),
    ensures
        is_attempted(outcome_status(status, succeeded)),
        (forall|k: int| 0 <= k < entries.len() ==> is_attempted(#[trigger] entries[k].info.status))
            ==> next_pending(entries, from) == entries.len(),
{
    lemma_outcome_bits(status, succeeded);
    lemma_next_pending(entries, from);
}

proof fn lemma_outcome_bits(status: u32, succeeded: bool)
    ensures
        is_attempted(outcome_status(status, succeeded)),
        succeeded ==> outcome_status(status, succeeded) & STATUS_SUCCEEDED != 0,
        succeeded ==> outcome_status(status, succeeded) & STATUS_FAILED == 0,
        !succeeded ==> outcome_status(status, succeeded) & STATUS_FAILED != 0,
        !succeeded ==> outcome_status(status, succeeded) & STATUS_SUCCEEDED == 0,
{
    assert(((status & !(4u32 | 8u32)) | 2u32 | 4u32) & 2u32 != 0) by (bit_vector);
    assert(((status & !(4u32 | 8u32)) | 2u32 | 4u32) & 4u32 != 0) by (bit_vector);
    assert(((status & !(4u32 | 8u32)) | 2u32 | 4u32) & 8u32 == 0) by (bit_vector);
    assert(((status & !(4u32 | 8u32)) | 2u32 | 8u32) & 2u32 != 0) by (bit_vector);
    assert(((status & !(4u32 | 8u32)) | 2u32 | 8u32) & 8u32 != 0) by (bit_vector);
    assert(((status & !(4u32 | 8u32)) | 2u32 | 8u32) & 4u32 == 0) by (bit_vector);
}

impl Orchestrator {
    pub open spec fn wf(&self) -> bool {
        &&& self.next <= self.entries@.len()
        &&& self.processed <= self.next
        &&& self.applying ==> !self.finished && self.next < self.entries@.len()
    }

    /// Starts a run over the admitted records.
    pub fn new(entries: Vec<UpdateEntry>, verbose: bool) -> (r: Orchestrator)
        ensures
            r.wf(),
            r.entries@ == entries@,
            r.next == 0,
            r.processed == 0,
            !r.applying,
            !r.finished,
            r.verbose == verbose,
    {
        Orchestrator { entries, next: 0, processed: 0, applying: false, finished: false, verbose }
    }

    /// Hands out the next step: the next record to apply, skipping those
    /// already attempted, and once none is left the exit or the reset.
    pub fn next_action(&mut self) -> (r: Action)
        requires
            old(self).wf(),
            !old(self).applying,
        ensures
            final(self).wf(),
            final(self).entries@ == old(self).entries@,
            final(self).verbose == old(self).verbose,
            final(self).processed == old(self).processed,
            old(self).finished ==> r == Action::Done && *final(self) == *old(self),
            !old(self).finished ==> {
                let j = next_pending(old(self).entries@, old(self).next as int);
                if j < old(self).entries@.len() {
                    &&& r == (Action::Apply { index: j as usize })
                    &&& final(self).next == j
                    &&& final(self).applying
                    &&& !final(self).finished
                } else {
                    &&& r == final_action(old(self).entries@.len() as nat, old(self).verbose)
                    &&& final(self).next == old(self).entries@.len()
                    &&& !final(self).applying
                    &&& final(self).finished
                }
            },
    {
        if self.finished {
            return Action::Done;
        }
        proof {
            lemma_next_pending(self.entries@, self.next as int);
        }
        while self.next < self.entries.len() && is_attempted_status(
            self.entries[self.next].info.status,
        )
            invariant
                self.wf(),
                !self.applying,
                !self.finished,
                self.entries@ == old(self).entries@,
                self.verbose == old(self).verbose,
                self.processed == old(self).processed,
                old(self).next <= self.next,
                next_pending(self.entries@, self.next as int) == next_pending(
                    old(self).entries@,
                    old(self).next as int,
                ),
            decreases self.entries@.len() - self.next,
        {
            self.next = self.next + 1;
        }
        if self.next < self.entries.len() {
            self.applying = true;
            Action::Apply { index: self.next }
        } else {
            self.finished = true;
            if self.entries.len() == 0 {
                Action::Exit { stall_us: NOTHING_TO_DO_STALL_US }
            } else if self.verbose {
                Action::Reset { stall_us: RESET_STALL_US + VERBOSE_RESET_STALL_US }
            } else {
                Action::Reset { stall_us: RESET_STALL_US }
            }
        }
    }

    /// Ends the apply step handed out last without an attempt, where the
    /// platform could not start it: the record stays pending, unchanged, and
    /// nothing is to be written back.
    pub fn leave_pending(&mut self)
        requires
            old(self).wf(),
            old(self).applying,
        ensures
            final(self).wf(),
            !final(self).applying,
            !final(self).finished,
            final(self).verbose == old(self).verbose,
            final(self).entries@ == old(self).entries@,
            final(self).next == old(self).next + 1,
            final(self).processed == old(self).processed,
    {
        let len = self.entries.len();
        assert(self.next < len);
        self.next = self.next + 1;
        self.applying = false;
    }

    /// Records the outcome of the apply step handed out last: sets the
    /// attempted flag and the result bit, stamps the time, and returns the
    /// bytes to write back to the record's variable.
    pub fn record_outcome(&mut self, succeeded: bool, now: Timestamp) -> (r: Vec<u8>)
        requires
            old(self).wf(),
            old(self).applying,
        ensures
            final(self).wf(),
            !final(self).applying,
            !final(self).finished,
            final(self).verbose == old(self).verbose,
            final(self).next == old(self).next + 1,
            final(self).processed == old(self).processed + 1,
            final(self).entries@.len() == old(self).entries@.len(),
            forall|k: int|
                0 <= k < old(self).entries@.len() && k != old(self).next
                    ==> #[trigger] final(self).entries@[k] == old(self).entries@[k],
            final(self).entries@[old(self).next as int].name == old(self).entries@[old(self).next as int].name,
            final(self).entries@[old(self).next as int].attributes == old(self).entries@[old(self).next as int].attributes,
            final(self).entries@[old(self).next as int].info@ == after_attempt(
                old(self).entries@[old(self).next as int].info@, succeeded, now),
            r@ == encoding(after_attempt(old(self).entries@[old(self).next as int].info@, succeeded, now)),
    {
        let i = self.next;
        let len = self.entries.len();
        assert(i < len);
        let mut entry = self.entries.remove(i);
        entry.info.status = status_after_attempt(entry.info.status, succeeded);
        entry.info.time_attempted = now;
        let bytes = entry.info.encode();
        self.entries.insert(i, entry);
        self.next = i + 1;
        self.processed = self.processed + 1;
        self.applying = false;
        bytes
    }
}

/// Whether a status carries the attempted flag.
pub fn is_attempted_status(status: u32) -> (r: bool)
    ensures
        r == is_attempted(status),
{
    status & STATUS_ATTEMPTED != 0
}

/// Status to store after an attempt.
pub fn status_after_attempt(status: u32, succeeded: bool) -> (r: u32)
    ensures
        r == outcome_status(status, succeeded),
{
    let result_bit = if succeeded {
        STATUS_SUCCEEDED
    } else {
        STATUS_FAILED
    };
    (status & !(STATUS_SUCCEEDED | STATUS_FAILED)) | STATUS_ATTEMPTED | result_bit
}

} // verus!
