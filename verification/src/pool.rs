//! The books of the two worker pools.
//!
//! A pool counts the tasks that were handed to it and are not yet complete. A
//! task counts from the moment it is added until its worker has done all of it,
//! so a pool whose count is zero has nothing queued and nothing in work.

use vstd::prelude::*;
use crate::path::RelPath;
use crate::scan::{Phase, ScanJob, ScanTask};
use crate::stats::{lemma_apply_short, lemma_counters_monotone, Stats, Tally};

verus! {

/// Workers of each pool, unless told otherwise.
pub const DEFAULT_THREADS: usize = 8;

/// How many entries the copy queue holds before adding to it has to wait.
pub const COPY_QUEUE_CAPACITY: usize = 4096;

/// Seconds between two looks at a pool's count while waiting for it to drain.
pub const JOIN_POLL_SECS: u64 = 2;

/// Seconds that a worker waits for a task before it looks whether to stop.
pub const RECEIVE_TIMEOUT_SECS: u64 = 5;

/// What a worker does when no task came in time.
#[derive(Clone, Copy, Debug, PartialEq, Eq, Structural)]
pub enum IdleAction {
    /// Wait for a task again.
    Wait,
    /// Leave.
    Exit,
}

/// A worker that got no task leaves if it was asked to stop, and waits on if
/// not.
pub fn on_receive_timeout(stop_requested: bool) -> (action: IdleAction)
    ensures
        action == (if stop_requested {
            IdleAction::Exit
        } else {
            IdleAction::Wait
        }),
{
    if stop_requested {
        IdleAction::Exit
    } else {
        IdleAction::Wait
    }
}

/// The books of the pool that scans directories.
#[derive(Debug)]
pub struct DirScanPool {
    enqueued: usize,
}

impl View for DirScanPool {
    type V = nat;

    /// The tasks added and not yet complete.
    closed spec fn view(&self) -> nat {
        self.enqueued as nat
    }
}

impl DirScanPool {
    /// A pool without tasks.
    pub fn new() -> (pool: DirScanPool)
        ensures
            pool@ == 0,
    {
        DirScanPool { enqueued: 0 }
    }

    /// Counts a directory in, to be compared entry by entry with the target,
    /// and gives the task to queue.
    pub fn add(&mut self, path: RelPath) -> (task: ScanTask)
        requires
            old(self)@ < usize::MAX,
        ensures
            final(self)@ == old(self)@ + 1,
            task.dir@ == path@,
            task.check_target,
    {
        self.enqueued = self.enqueued + 1;
        ScanTask { dir: path, check_target: true }
    }

    /// Counts a directory in that was just made on the target, so that nothing
    /// in it needs comparing, and gives the task to queue.
    pub fn add_no_check(&mut self, path: RelPath) -> (task: ScanTask)
        requires
            old(self)@ < usize::MAX,
        ensures
            final(self)@ == old(self)@ + 1,
            task.dir@ == path@,
            !task.check_target,
    {
        self.enqueued = self.enqueued + 1;
        ScanTask { dir: path, check_target: false }
    }

    /// Counts out the task of a job that has finished. Whatever the job had to
    /// add to the queues was added before, since a finished job asks for nothing.
    pub fn complete(&mut self, job: ScanJob)
        requires
            old(self)@ > 0,
            job@.phase == Phase::Finished,
        ensures
            final(self)@ == old(self)@ - 1,
    {
        self.enqueued = self.enqueued - 1;
    }

    /// The tasks added and not yet complete.
    pub fn enqueued(&self) -> (count: usize)
        ensures
            count == self@,
    {
        self.enqueued
    }

    /// Whether nothing is queued or in work, so that waiting for the pool can end.
    pub fn join(&self) -> (quiescent: bool)
        ensures
            quiescent == (self@ == 0),
    {
        self.enqueued == 0
    }
}

/// What came of copying one entry.
#[derive(Clone, Copy, Debug, PartialEq, Eq, Structural)]
pub enum CopyOutcome {
    /// The entry could not be copied.
    Failed,
    /// The entry was copied; `bytes` bytes of contents went over.
    Copied { bytes: u64 },
}

/// What a copy adds to the counters: an entry in any case, with an error where
/// it failed and with its bytes where it did not.
pub open spec fn copy_tallies(outcome: CopyOutcome) -> Seq<Tally> {
    match outcome {
        CopyOutcome::Failed => seq![Tally::Errors(1), Tally::Copied(1, 0)],
        CopyOutcome::Copied { bytes } => seq![Tally::Copied(1, bytes)],
    }
}

/// The books of the pool that copies files and links.
#[derive(Debug)]
pub struct FileCopyPool {
    enqueued: usize,
}

impl View for FileCopyPool {
    type V = nat;

    /// The entries added and not yet complete.
    closed spec fn view(&self) -> nat {
        self.enqueued as nat
    }
}

impl FileCopyPool {
    /// A pool without tasks.
    pub fn new() -> (pool: FileCopyPool)
        ensures
            pool@ == 0,
    {
        FileCopyPool { enqueued: 0 }
    }

    /// Counts an entry in, also as queued for copy, and gives the path to queue.
    pub fn add(&mut self, path: RelPath, stats: &mut Stats) -> (task: RelPath)
        requires
            old(self)@ < usize::MAX,
        ensures
            final(self)@ == old(self)@ + 1,
            task@ == path@,
            final(stats)@ == old(stats)@.add_queued_copy(1),
            old(stats)@.at_most(final(stats)@),
    {
        self.enqueued = self.enqueued + 1;
        stats.add_queued_copy_entries(1);
        path
    }

    /// Counts what came of copying an entry, and counts the entry out.
    pub fn complete(&mut self, outcome: CopyOutcome, stats: &mut Stats)
        requires
            old(self)@ > 0,
        ensures
            final(self)@ == old(self)@ - 1,
            final(stats)@ == old(stats)@.apply_all(copy_tallies(outcome)),
            old(stats)@.at_most(final(stats)@),
    {
        proof {
            stats.lemma_in_range();
            lemma_counters_monotone(stats@, copy_tallies(outcome));
        }
        match outcome {
            CopyOutcome::Failed => {
                proof {
                    lemma_apply_short(stats@, Tally::Errors(1), Tally::Copied(1, 0));
                }
                stats.add_errors(1);
                stats.add_copied(1, 0);
            },
            CopyOutcome::Copied { bytes } => {
                proof {
                    lemma_apply_short(stats@, Tally::Copied(1, bytes), Tally::Copied(1, bytes));
                }
                stats.add_copied(1, bytes);
            },
        }
        self.enqueued = self.enqueued - 1;
    }

    /// The entries added and not yet complete.
    pub fn enqueued(&self) -> (count: usize)
        ensures
            count == self@,
    {
        self.enqueued
    }

    /// Whether nothing is queued or in work, so that waiting for the pool can end.
    pub fn join(&self) -> (quiescent: bool)
        ensures
            quiescent == (self@ == 0),
    {
        self.enqueued == 0
    }
}

} // verus!
