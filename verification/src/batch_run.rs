//! The record of a batch export as it runs: one report line per item in input order,
//! the counts shown to the user, and the items worth retrying.
//!
//! The application drives the loop (writing files, checking for cancellation) and tells
//! the record what happened to each item.

use vstd::prelude::*;

use crate::ui_message::{BatchItemOutcome, BatchItemResult, ErrorKind, UiMessage};
use crate::workspace::{batch_item_name, name_views, spec_batch_item_name};

verus! {

/// What writing one output file gave.
#[derive(Debug, Clone, Copy, PartialEq, Eq, Structural)]
pub enum PublishResult {
    /// The file was written.
    Written,
    /// The collision policy left the file out.
    Skipped,
    /// Writing failed.
    Failed(ErrorKind),
}

/// How many report lines are successes, failures and cancellations.
pub open spec fn tally(lines: Seq<BatchItemOutcome>) -> (nat, nat, nat)
    decreases lines.len(),
{
    if lines.len() == 0 {
        (0, 0, 0)
    } else {
        let (s, f, c) = tally(lines.drop_last());
        match lines.last() {
            BatchItemOutcome::Success => (s + 1, f, c),
            BatchItemOutcome::Failure(_) => (s, f + 1, c),
            BatchItemOutcome::Cancelled => (s, f, c + 1),
        }
    }
}

/// Number of successful lines.
pub open spec fn count_successes(lines: Seq<BatchItemOutcome>) -> nat {
    tally(lines).0
}

/// Number of failed lines.
pub open spec fn count_failures(lines: Seq<BatchItemOutcome>) -> nat {
    tally(lines).1
}

/// Number of cancelled lines.
pub open spec fn count_cancelled(lines: Seq<BatchItemOutcome>) -> nat {
    tally(lines).2
}

/// Whether an item with this outcome is offered for a retry: it failed for a reason
/// other than the collision policy.
pub open spec fn is_retryable(o: BatchItemOutcome) -> bool {
    o matches BatchItemOutcome::Failure(k) && k != ErrorKind::Skipped
}

/// The indices of the retryable lines, in order.
pub open spec fn retry_indices(lines: Seq<BatchItemOutcome>) -> Seq<usize>
    decreases lines.len(),
{
    if lines.len() == 0 {
        Seq::empty()
    } else if is_retryable(lines.last()) {
        retry_indices(lines.drop_last()).push((lines.len() - 1) as usize)
    } else {
        retry_indices(lines.drop_last())
    }
}

/// The outcomes of report lines.
pub open spec fn outcomes(lines: Seq<BatchItemResult>) -> Seq<BatchItemOutcome> {
    lines.map_values(|l: BatchItemResult| l.outcome)
}

/// The running record of one batch export.
pub struct BatchRun {
    total: usize,
    successes: usize,
    failures: usize,
    cancelled: bool,
    lines: Vec<BatchItemResult>,
    retry: Vec<usize>,
}

impl BatchRun {
    /// The record is consistent: counts match the report lines and retries are exactly
    /// the retryable lines.
    pub closed spec fn wf(&self) -> bool {
        &&& self.lines.len() <= self.total
        &&& self.successes == count_successes(outcomes(self.lines@))
        &&& self.failures == count_failures(outcomes(self.lines@))
        &&& self.retry@ == retry_indices(outcomes(self.lines@))
        &&& self.cancelled ==> self.lines.len() == self.total
        &&& !self.cancelled ==> count_cancelled(outcomes(self.lines@)) == 0
    }

    /// The report lines so far.
    pub closed spec fn spec_lines(&self) -> Seq<BatchItemResult> {
        self.lines@
    }

    /// Number of items in the batch.
    pub closed spec fn spec_total(&self) -> nat {
        self.total as nat
    }

    /// Whether the rest of the batch was cancelled.
    pub closed spec fn spec_cancelled(&self) -> bool {
        self.cancelled
    }

    /// A record for a batch of `total` items, nothing done yet.
    pub fn new(total: usize) -> (run: BatchRun)
        ensures
            run.wf(),
            run.spec_total() == total,
            run.spec_lines().len() == 0,
            !run.spec_cancelled(),
    {
        BatchRun { total, successes: 0, failures: 0, cancelled: false, lines: Vec::new(), retry: Vec::new() }
    }

    /// The index of the next item to report.
    pub fn next_index(&self) -> (index: usize)
        requires
            self.wf(),
        ensures
            index == self.spec_lines().len(),
    {
        self.lines.len()
    }

    /// Whether every item has a report line.
    pub fn is_finished(&self) -> (done: bool)
        requires
            self.wf(),
        ensures
            done == (self.spec_lines().len() == self.spec_total()),
    {
        self.lines.len() == self.total
    }

    proof fn lemma_push(lines: Seq<BatchItemResult>, line: BatchItemResult)
        ensures
            outcomes(lines.push(line)) == outcomes(lines).push(line.outcome),
            outcomes(lines.push(line)).drop_last() == outcomes(lines),
    {
        assert(outcomes(lines.push(line)) =~= outcomes(lines).push(line.outcome));
        assert(outcomes(lines.push(line)).drop_last() =~= outcomes(lines));
    }

    fn push_line(&mut self, line: BatchItemResult)
        requires
            old(self).wf(),
            !old(self).cancelled,
            old(self).lines.len() < old(self).total,
            !(line.outcome is Cancelled),
        ensures
            final(self).wf(),
            final(self).lines@ == old(self).lines@.push(line),
            final(self).total == old(self).total,
            !final(self).cancelled,
    {
        let ghost before = self.lines@;
        let index = self.lines.len();
        proof {
            law_batch_counts_add_up(outcomes(before));
        }
        match line.outcome {
            BatchItemOutcome::Success => {
                self.successes = self.successes + 1;
            },
            BatchItemOutcome::Failure(kind) => {
                self.failures = self.failures + 1;
                if kind != ErrorKind::Skipped {
                    self.retry.push(index);
                }
            },
            BatchItemOutcome::Cancelled => {},
        }
        self.lines.push(line);
        proof {
            Self::lemma_push(before, line);
        }
    }

    /// Records an item whose processing failed (the failure is not the collision policy).
    pub fn record_failed_item(&mut self, name: String, kind: ErrorKind)
        requires
            old(self).wf(),
            !old(self).spec_cancelled(),
            old(self).spec_lines().len() < old(self).spec_total(),
            kind != ErrorKind::Skipped,
        ensures
            final(self).wf(),
            final(self).spec_total() == old(self).spec_total(),
            !final(self).spec_cancelled(),
            final(self).spec_lines() == old(self).spec_lines().push(
                BatchItemResult {
                    name,
                    width: None,
                    height: None,
                    bytes: None,
                    outcome: BatchItemOutcome::Failure(kind),
                },
            ),
    {
        self.push_line(
            BatchItemResult {
                name,
                width: None,
                height: None,
                bytes: None,
                outcome: BatchItemOutcome::Failure(kind),
            },
        );
    }

    /// Records an item that was processed into a `width`×`height` output of `bytes`
    /// bytes, and what writing it gave (`None`: the plan gave it no destination).
    pub fn record_output(
        &mut self,
        name: String,
        width: u32,
        height: u32,
        bytes: usize,
        written: Option<PublishResult>,
    )
        requires
            old(self).wf(),
            !old(self).spec_cancelled(),
            old(self).spec_lines().len() < old(self).spec_total(),
            written matches Some(PublishResult::Failed(k)) ==> k != ErrorKind::Skipped,
        ensures
            final(self).wf(),
            final(self).spec_total() == old(self).spec_total(),
            !final(self).spec_cancelled(),
            final(self).spec_lines() == old(self).spec_lines().push(
                BatchItemResult {
                    name,
                    width: Some(width),
                    height: Some(height),
                    bytes: Some(bytes),
                    outcome: match written {
                        Some(PublishResult::Written) => BatchItemOutcome::Success,
                        Some(PublishResult::Failed(k)) => BatchItemOutcome::Failure(k),
                        _ => BatchItemOutcome::Failure(ErrorKind::Skipped),
                    },
                },
            ),
    {
        let outcome = match written {
            Some(PublishResult::Written) => BatchItemOutcome::Success,
            Some(PublishResult::Failed(k)) => BatchItemOutcome::Failure(k),
            _ => BatchItemOutcome::Failure(ErrorKind::Skipped),
        };
        self.push_line(
            BatchItemResult { name, width: Some(width), height: Some(height), bytes: Some(bytes), outcome },
        );
    }

    /// Marks every item without a report line as cancelled, naming each as
    /// [`batch_item_name`] does.
    pub fn cancel_rest(&mut self, names: &Vec<String>)
        requires
            old(self).wf(),
            !old(self).spec_cancelled(),
            old(self).spec_total() < u64::MAX,
        ensures
            final(self).wf(),
            final(self).spec_cancelled(),
            final(self).spec_total() == old(self).spec_total(),
            final(self).spec_lines().len() == old(self).spec_total(),
            final(self).spec_lines().take(old(self).spec_lines().len() as int) == old(self).spec_lines(),
            forall|i: int|
                old(self).spec_lines().len() <= i < old(self).spec_total() ==> {
                    let line = #[trigger] final(self).spec_lines()[i];
                    &&& line.name@ == spec_batch_item_name(name_views(names@), i as nat)
                    &&& line.width is None && line.height is None && line.bytes is None
                    &&& line.outcome is Cancelled
                },
    {
        let ghost start = self.lines@;
        let ghost succ = self.successes;
        let ghost fail = self.failures;
        while self.lines.len() < self.total
            invariant
                start.len() <= self.lines.len() <= self.total,
                self.total < u64::MAX,
                self.total == old(self).total,
                self.lines@.take(start.len() as int) == start,
                start == old(self).lines@,
                self.successes == succ && self.failures == fail,
                succ == count_successes(outcomes(self.lines@)),
                fail == count_failures(outcomes(self.lines@)),
                self.retry@ == retry_indices(outcomes(self.lines@)),
                forall|i: int|
                    start.len() <= i < self.lines.len() ==> {
                        let line = #[trigger] self.lines@[i];
                        &&& line.name@ == spec_batch_item_name(name_views(names@), i as nat)
                        &&& line.width is None && line.height is None && line.bytes is None
                        &&& line.outcome is Cancelled
                    },
            decreases self.total - self.lines.len(),
        {
            let index = self.lines.len();
            let line = BatchItemResult {
                name: batch_item_name(names, index),
                width: None,
                height: None,
                bytes: None,
                outcome: BatchItemOutcome::Cancelled,
            };
            let ghost before = self.lines@;
            self.lines.push(line);
            proof {
                Self::lemma_push(before, line);
                assert(self.lines@.take(start.len() as int) =~= before.take(start.len() as int));
            }
        }
        self.cancelled = true;
    }

    /// The status line of the finished (or cancelled) batch.
    pub fn status(&self) -> (message: UiMessage)
        requires
            self.wf(),
        ensures
            message == (if self.spec_cancelled() {
                UiMessage::BatchCancelled {
                    successes: count_successes(outcomes(self.spec_lines())) as usize,
                    total: self.spec_total() as usize,
                }
            } else {
                UiMessage::BatchComplete {
                    successes: count_successes(outcomes(self.spec_lines())) as usize,
                    failures: count_failures(outcomes(self.spec_lines())) as usize,
                    total: self.spec_total() as usize,
                }
            }),
    {
        if self.cancelled {
            UiMessage::BatchCancelled { successes: self.successes, total: self.total }
        } else {
            UiMessage::BatchComplete { successes: self.successes, failures: self.failures, total: self.total }
        }
    }

    /// The report lines, in input order.
    pub fn lines(&self) -> (lines: &Vec<BatchItemResult>)
        ensures
            lines@ == self.spec_lines(),
    {
        &self.lines
    }

    /// The indices of the items to offer for a retry, in order.
    pub fn retry_indices(&self) -> (indices: &Vec<usize>)
        requires
            self.wf(),
        ensures
            indices@ == retry_indices(outcomes(self.spec_lines())),
    {
        &self.retry
    }
}

/// Every line is a success, a failure or a cancellation, so the three counts add up to
/// the number of lines.
pub proof fn law_batch_counts_add_up(lines: Seq<BatchItemOutcome>)
    ensures
        count_successes(lines) + count_failures(lines) + count_cancelled(lines) == lines.len(),
    decreases lines.len(),
{
    if lines.len() > 0 {
        law_batch_counts_add_up(lines.drop_last());
    }
}

/// A batch that was not cancelled and has a line for every item reports a success or a
/// failure for each: successes and failures add up to the total.
pub proof fn law_finished_batch_accounts_for_every_item(run: BatchRun)
    requires
        run.wf(),
        !run.spec_cancelled(),
        run.spec_lines().len() == run.spec_total(),
    ensures
        count_successes(outcomes(run.spec_lines())) + count_failures(outcomes(run.spec_lines()))
            == run.spec_total(),
{
    law_batch_counts_add_up(outcomes(run.spec_lines()));
}

} // verus!
