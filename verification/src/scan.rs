//! Bringing one directory up to date.
//!
//! A [`ScanJob`] works through one [`ScanTask`]. It never touches the
//! filesystem: it says what has to be done next ([`ScanJob::command`]), the
//! worker does it and reports what came of it ([`ScanJob::advance`]).

use vstd::prelude::*;
use crate::entry::{metadata_equal, same_metadata, EntryKind, EntryMeta};
use crate::names::NameSet;
use crate::path::RelPath;
use crate::stats::{lemma_apply_short, lemma_counters_monotone, Stats, Tally};

verus! {

/// A directory to bring up to date.
#[derive(Debug)]
pub struct ScanTask {
    /// The directory, below both roots.
    pub dir: RelPath,
    /// Whether its entries have to be compared with what the target holds. It is
    /// `false` only for a directory that was just created on the target.
    pub check_target: bool,
}

/// What the worker has to do next. Every command but `NextSource`, `NextTarget`
/// and `Finish` is about the entry at [`ScanJob::child`].
#[derive(Clone, Copy, Debug, PartialEq, Eq, Structural)]
pub enum Command {
    /// Read the next entry of the source directory, with its metadata.
    NextSource,
    /// Read the metadata of the entry on the target, without following links.
    Probe,
    /// Remove the entry from the target: a whole tree if `recursive`, else one name.
    Remove { recursive: bool },
    /// Make the entry a directory on the target and give it the source's metadata.
    CopyDirectory,
    /// Hand the entry to the copy queue.
    EnqueueCopy,
    /// Hand the entry to the scan queue.
    EnqueueScan { check_target: bool },
    /// Read the name of the next entry of the target directory.
    NextTarget,
    /// Nothing is left to do: the task is complete.
    Finish,
}

/// What came of reading the source directory once more.
#[derive(Debug)]
pub enum SourceItem {
    /// The directory, the entry or its metadata could not be read.
    Failed,
    /// No entry is left.
    End,
    /// The next entry.
    Entry { name: Vec<u8>, meta: EntryMeta },
}

/// What came of reading the target directory once more.
#[derive(Debug)]
pub enum TargetItem {
    /// The directory or the entry could not be read.
    Failed,
    /// No entry is left.
    End,
    /// The next entry.
    Entry { name: Vec<u8> },
}

/// What came of reading an entry's metadata on the target.
#[derive(Clone, Copy, Debug, PartialEq, Eq, Structural)]
pub enum ProbeResult {
    /// There is no such entry.
    Missing,
    /// The metadata could not be read.
    Failed,
    /// The entry is there.
    Found(EntryMeta),
}

/// What came of removing an entry from the target.
#[derive(Clone, Copy, Debug, PartialEq, Eq, Structural)]
pub enum Removal {
    /// The entry could not be removed.
    Failed,
    /// The entry is gone, and with it everything below it: `entries` entries
    /// in all, of `bytes` bytes together.
    Done { entries: usize, bytes: u64 },
}

/// What the worker reports.
#[derive(Debug)]
pub enum Event {
    /// The answer to `NextSource`.
    Source(SourceItem),
    /// The answer to `NextTarget`.
    Target(TargetItem),
    /// The answer to `Probe`.
    Probed(ProbeResult),
    /// The answer to `Remove`.
    Removed(Removal),
    /// The answer to `CopyDirectory`.
    DirectoryCopied { ok: bool },
    /// The answer to `EnqueueCopy` and to `EnqueueScan`.
    Enqueued,
}

/// Where a job stands. The phases from `Probing` to `QueueingScan` are about one
/// entry of the source directory, whose metadata they hold; `ProbingOrphan` and
/// `RemovingOrphan` are about an entry that only the target has.
#[derive(Clone, Copy, Debug, PartialEq, Eq, Structural)]
pub enum Phase {
    /// Walking through the source directory.
    Listing,
    /// Waiting for the target's metadata of the entry.
    Probing { source: EntryMeta },
    /// Waiting for the target's entry, which is of another type, to be removed.
    Replacing { source: EntryMeta, recursive: bool },
    /// Waiting for a directory that the target lacks to be made.
    Creating { source: EntryMeta },
    /// Waiting for a directory that the target has to get the source's metadata.
    Refreshing { source: EntryMeta },
    /// Waiting for the entry to be handed to the copy queue.
    QueueingCopy { source: EntryMeta },
    /// Waiting for the entry to be handed to the scan queue.
    QueueingScan { source: EntryMeta, check_target: bool },
    /// Walking through the target directory.
    Pruning,
    /// Waiting for the metadata of an entry that the source lacks.
    ProbingOrphan,
    /// Waiting for an entry that the source lacks to be removed.
    RemovingOrphan { recursive: bool },
    /// Done.
    Finished,
}

/// What is done about a source entry that the target lacks.
pub open spec fn materialize(source: EntryMeta) -> Phase {
    if source.kind == EntryKind::Directory {
        Phase::Creating { source }
    } else {
        Phase::QueueingCopy { source }
    }
}

/// What is done about a source entry that the target has as `target`.
pub open spec fn reconcile(source: EntryMeta, target: EntryMeta) -> Phase {
    if source.kind != target.kind {
        Phase::Replacing { source, recursive: target.kind == EntryKind::Directory }
    } else if source.kind == EntryKind::Directory {
        if same_metadata(source, target) {
            Phase::QueueingScan { source, check_target: true }
        } else {
            Phase::Refreshing { source }
        }
    } else if same_metadata(source, target) {
        Phase::Listing
    } else {
        Phase::QueueingCopy { source }
    }
}

/// A job, as mathematics.
pub struct JobState {
    /// The directory that the job is about.
    pub dir: Seq<Seq<u8>>,
    /// Whether its entries are compared with the target's.
    pub check_target: bool,
    /// The names that the source directory was seen to hold.
    pub seen: Set<Seq<u8>>,
    /// The entry in hand; the directory itself while there is none.
    pub child: Seq<Seq<u8>>,
    /// Where the job stands.
    pub phase: Phase,
}

impl JobState {
    /// The job at its beginning.
    pub open spec fn start(dir: Seq<Seq<u8>>, check_target: bool) -> JobState {
        JobState { dir, check_target, seen: Set::empty(), child: dir, phase: Phase::Listing }
    }

    /// What the worker has to do in this state.
    pub open spec fn command(self) -> Command {
        match self.phase {
            Phase::Listing => Command::NextSource,
            Phase::Probing { .. } => Command::Probe,
            Phase::Replacing { recursive, .. } => Command::Remove { recursive },
            Phase::Creating { .. } => Command::CopyDirectory,
            Phase::Refreshing { .. } => Command::CopyDirectory,
            Phase::QueueingCopy { .. } => Command::EnqueueCopy,
            Phase::QueueingScan { check_target, .. } => Command::EnqueueScan { check_target },
            Phase::Pruning => Command::NextTarget,
            Phase::ProbingOrphan => Command::Probe,
            Phase::RemovingOrphan { recursive } => Command::Remove { recursive },
            Phase::Finished => Command::Finish,
        }
    }

    /// The state after `event`. An event that does not answer the command of
    /// this state changes nothing.
    pub open spec fn next(self, event: Event) -> JobState {
        match (self.phase, event) {
            (Phase::Listing, Event::Source(SourceItem::Failed)) => JobState {
                phase: Phase::Finished,
                ..self
            },
            (Phase::Listing, Event::Source(SourceItem::End)) => JobState {
                phase: Phase::Pruning,
                ..self
            },
            (Phase::Listing, Event::Source(SourceItem::Entry { name, meta })) => JobState {
                seen: self.seen.insert(name@),
                child: self.dir.push(name@),
                phase: if self.check_target {
                    Phase::Probing { source: meta }
                } else {
                    materialize(meta)
                },
                ..self
            },
            (Phase::Probing { source }, Event::Probed(ProbeResult::Missing)) => JobState {
                phase: materialize(source),
                ..self
            },
            (Phase::Probing { source }, Event::Probed(ProbeResult::Failed)) => JobState {
                phase: Phase::Listing,
                ..self
            },
            (Phase::Probing { source }, Event::Probed(ProbeResult::Found(target))) => JobState {
                phase: reconcile(source, target),
                ..self
            },
            (Phase::Replacing { source, .. }, Event::Removed(Removal::Failed)) => JobState {
                phase: Phase::Listing,
                ..self
            },
            (Phase::Replacing { source, .. }, Event::Removed(Removal::Done { .. })) => JobState {
                phase: materialize(source),
                ..self
            },
            (Phase::Creating { source }, Event::DirectoryCopied { ok }) => JobState {
                phase: if ok {
                    Phase::QueueingScan { source, check_target: false }
                } else {
                    Phase::Listing
                },
                ..self
            },
            (Phase::Refreshing { source }, Event::DirectoryCopied { ok }) => JobState {
                phase: if ok {
                    Phase::QueueingScan { source, check_target: true }
                } else {
                    Phase::Listing
                },
                ..self
            },
            (Phase::QueueingCopy { .. }, Event::Enqueued) => JobState {
                phase: Phase::Listing,
                ..self
            },
            (Phase::QueueingScan { .. }, Event::Enqueued) => JobState {
                phase: Phase::Listing,
                ..self
            },
            (Phase::Pruning, Event::Target(TargetItem::Failed)) => JobState {
                phase: Phase::Finished,
                ..self
            },
            (Phase::Pruning, Event::Target(TargetItem::End)) => JobState {
                phase: Phase::Finished,
                ..self
            },
            (Phase::Pruning, Event::Target(TargetItem::Entry { name })) => if self.seen.contains(
                name@,
            ) {
                self
            } else {
                JobState { child: self.dir.push(name@), phase: Phase::ProbingOrphan, ..self }
            },
            (Phase::ProbingOrphan, Event::Probed(ProbeResult::Found(target))) => JobState {
                phase: Phase::RemovingOrphan { recursive: target.kind == EntryKind::Directory },
                ..self
            },
            (Phase::ProbingOrphan, Event::Probed(_)) => JobState { phase: Phase::Finished, ..self },
            (Phase::RemovingOrphan { .. }, Event::Removed(_)) => JobState {
                phase: Phase::Pruning,
                ..self
            },
            _ => self,
        }
    }

    /// The entry in hand is an entry of the directory: its path is the
    /// directory's with one more name.
    pub open spec fn child_in_dir(self) -> bool {
        &&& self.child.len() == self.dir.len() + 1
        &&& self.child.drop_last() == self.dir
    }

    /// What every state that a job reaches has: the entry in hand is an entry of
    /// the directory, seen in the source unless the job is pruning; a directory
    /// is made, refreshed and scanned only for a source entry that is a
    /// directory, and the copy queue gets none.
    pub open spec fn consistent(self) -> bool {
        match self.phase {
            Phase::Listing => true,
            Phase::Pruning => true,
            Phase::Finished => true,
            Phase::Probing { .. } => self.child_in_dir() && self.seen.contains(self.child.last()),
            Phase::Replacing { .. } => self.child_in_dir() && self.seen.contains(
                self.child.last(),
            ),
            Phase::Creating { source } => {
                &&& self.child_in_dir()
                &&& self.seen.contains(self.child.last())
                &&& source.kind == EntryKind::Directory
            },
            Phase::Refreshing { source } => {
                &&& self.child_in_dir()
                &&& self.seen.contains(self.child.last())
                &&& source.kind == EntryKind::Directory
            },
            Phase::QueueingCopy { source } => {
                &&& self.child_in_dir()
                &&& self.seen.contains(self.child.last())
                &&& source.kind != EntryKind::Directory
            },
            Phase::QueueingScan { source, .. } => {
                &&& self.child_in_dir()
                &&& self.seen.contains(self.child.last())
                &&& source.kind == EntryKind::Directory
            },
            Phase::ProbingOrphan => self.child_in_dir() && !self.seen.contains(self.child.last()),
            Phase::RemovingOrphan { .. } => self.child_in_dir() && !self.seen.contains(
                self.child.last(),
            ),
        }
    }

    /// What `event` adds to the counters, in order.
    pub open spec fn tallies(self, event: Event) -> Seq<Tally> {
        match (self.phase, event) {
            (Phase::Listing, Event::Source(SourceItem::Failed)) => seq![Tally::Errors(1)],
            (Phase::Probing { .. }, Event::Probed(ProbeResult::Failed)) => seq![Tally::Errors(1)],
            (Phase::Probing { source }, Event::Probed(ProbeResult::Found(target))) => {
                if same_metadata(source, target) {
                    if source.kind == EntryKind::Directory {
                        seq![Tally::Skipped(1)]
                    } else {
                        seq![Tally::Skipped(1), Tally::Scanned(1)]
                    }
                } else {
                    Seq::empty()
                }
            },
            (Phase::Replacing { .. }, Event::Removed(Removal::Failed)) => seq![Tally::Errors(1)],
            (Phase::Replacing { .. }, Event::Removed(Removal::Done { entries, bytes })) => seq![
                Tally::Removed(entries, bytes),
            ],
            (Phase::Creating { .. }, Event::DirectoryCopied { ok }) => if ok {
                Seq::empty()
            } else {
                seq![Tally::Errors(1), Tally::Scanned(1)]
            },
            (Phase::Refreshing { .. }, Event::DirectoryCopied { ok }) => if ok {
                Seq::empty()
            } else {
                seq![Tally::Errors(1)]
            },
            (Phase::QueueingCopy { .. }, Event::Enqueued) => seq![Tally::Scanned(1)],
            (Phase::QueueingScan { .. }, Event::Enqueued) => seq![Tally::Scanned(1)],
            (Phase::Pruning, Event::Target(TargetItem::Failed)) => seq![Tally::Errors(1)],
            (Phase::ProbingOrphan, Event::Probed(ProbeResult::Found(_))) => Seq::empty(),
            (Phase::ProbingOrphan, Event::Probed(_)) => seq![Tally::Errors(1)],
            (Phase::RemovingOrphan { .. }, Event::Removed(Removal::Failed)) => seq![
                Tally::Errors(1),
            ],
            (Phase::RemovingOrphan { .. }, Event::Removed(Removal::Done { entries, bytes })) => seq![
                Tally::Removed(entries, bytes),
            ],
            _ => Seq::empty(),
        }
    }
}

/// One directory on its way to being up to date.
#[derive(Debug)]
pub struct ScanJob {
    dir: RelPath,
    check_target: bool,
    seen: NameSet,
    child: RelPath,
    phase: Phase,
}

impl View for ScanJob {
    type V = JobState;

    closed spec fn view(&self) -> JobState {
        JobState {
            dir: self.dir@,
            check_target: self.check_target,
            seen: self.seen@,
            child: self.child@,
            phase: self.phase,
        }
    }
}

fn materialize_phase(source: EntryMeta) -> (phase: Phase)
    ensures
        phase == materialize(source),
{
    if source.kind == EntryKind::Directory {
        Phase::Creating { source }
    } else {
        Phase::QueueingCopy { source }
    }
}

impl ScanJob {
    /// A job for `task`, with nothing done yet.
    pub fn new(task: ScanTask) -> (job: ScanJob)
        ensures
            job@ == JobState::start(task.dir@, task.check_target),
    {
        let child = task.dir.duplicate();
        ScanJob {
            dir: task.dir,
            check_target: task.check_target,
            seen: NameSet::new(),
            child,
            phase: Phase::Listing,
        }
    }

    /// What the worker has to do next.
    pub fn command(&self) -> (command: Command)
        ensures
            command == self@.command(),
    {
        match self.phase {
            Phase::Listing => Command::NextSource,
            Phase::Probing { .. } => Command::Probe,
            Phase::Replacing { recursive, .. } => Command::Remove { recursive },
            Phase::Creating { .. } => Command::CopyDirectory,
            Phase::Refreshing { .. } => Command::CopyDirectory,
            Phase::QueueingCopy { .. } => Command::EnqueueCopy,
            Phase::QueueingScan { check_target, .. } => Command::EnqueueScan { check_target },
            Phase::Pruning => Command::NextTarget,
            Phase::ProbingOrphan => Command::Probe,
            Phase::RemovingOrphan { recursive } => Command::Remove { recursive },
            Phase::Finished => Command::Finish,
        }
    }

    /// The directory that the job is about.
    pub fn dir(&self) -> (dir: &RelPath)
        ensures
            dir@ == self@.dir,
    {
        &self.dir
    }

    /// The entry that the command is about.
    pub fn child(&self) -> (child: &RelPath)
        ensures
            child@ == self@.child,
    {
        &self.child
    }

    /// Where the job stands.
    pub fn phase(&self) -> (phase: Phase)
        ensures
            phase == self@.phase,
    {
        self.phase
    }

    /// Whether the task is complete.
    pub fn is_finished(&self) -> (done: bool)
        ensures
            done == (self@.phase == Phase::Finished),
    {
        match self.phase {
            Phase::Finished => true,
            _ => false,
        }
    }

    /// Takes in what the worker reports and counts what there is to count.
    pub fn advance(&mut self, event: Event, stats: &mut Stats)
        ensures
            final(self)@ == old(self)@.next(event),
            final(stats)@ == old(stats)@.apply_all(old(self)@.tallies(event)),
            old(stats)@.at_most(final(stats)@),
    {
        proof {
            stats.lemma_in_range();
            lemma_counters_monotone(stats@, self@.tallies(event));
            lemma_apply_short(stats@, Tally::Errors(1), Tally::Scanned(1));
            lemma_apply_short(stats@, Tally::Skipped(1), Tally::Scanned(1));
            lemma_apply_short(stats@, Tally::Scanned(1), Tally::Scanned(1));
        }
        let phase = self.phase;
        match phase {
            Phase::Listing => match event {
                Event::Source(SourceItem::Failed) => {
                    stats.add_errors(1);
                    self.phase = Phase::Finished;
                },
                Event::Source(SourceItem::End) => {
                    self.phase = Phase::Pruning;
                },
                Event::Source(SourceItem::Entry { name, meta }) => {
                    self.seen.insert(name.as_slice());
                    self.child = self.dir.join(name.as_slice());
                    if self.check_target {
                        self.phase = Phase::Probing { source: meta };
                    } else {
                        self.phase = materialize_phase(meta);
                    }
                },
                _ => {},
            },
            Phase::Probing { source } => match event {
                Event::Probed(ProbeResult::Missing) => {
                    self.phase = materialize_phase(source);
                },
                Event::Probed(ProbeResult::Failed) => {
                    stats.add_errors(1);
                    self.phase = Phase::Listing;
                },
                Event::Probed(ProbeResult::Found(target)) => {
                    if source.kind != target.kind {
                        self.phase = Phase::Replacing {
                            source,
                            recursive: target.kind == EntryKind::Directory,
                        };
                    } else if source.kind == EntryKind::Directory {
                        if metadata_equal(&source, &target) {
                            stats.add_skipped_entries(1);
                            self.phase = Phase::QueueingScan { source, check_target: true };
                        } else {
                            self.phase = Phase::Refreshing { source };
                        }
                    } else if metadata_equal(&source, &target) {
                        stats.add_skipped_entries(1);
                        stats.add_scanned_entries(1);
                        self.phase = Phase::Listing;
                    } else {
                        self.phase = Phase::QueueingCopy { source };
                    }
                },
                _ => {},
            },
            Phase::Replacing { source, .. } => match event {
                Event::Removed(Removal::Failed) => {
                    stats.add_errors(1);
                    self.phase = Phase::Listing;
                },
                Event::Removed(Removal::Done { entries, bytes }) => {
                    proof {
                        lemma_apply_short(
                            stats@,
                            Tally::Removed(entries, bytes),
                            Tally::Scanned(1),
                        );
                    }
                    stats.add_removed(entries, bytes);
                    self.phase = materialize_phase(source);
                },
                _ => {},
            },
            Phase::Creating { source } => match event {
                Event::DirectoryCopied { ok } => {
                    if ok {
                        self.phase = Phase::QueueingScan { source, check_target: false };
                    } else {
                        stats.add_errors(1);
                        stats.add_scanned_entries(1);
                        self.phase = Phase::Listing;
                    }
                },
                _ => {},
            },
            Phase::Refreshing { source } => match event {
                Event::DirectoryCopied { ok } => {
                    if ok {
                        self.phase = Phase::QueueingScan { source, check_target: true };
                    } else {
                        stats.add_errors(1);
                        self.phase = Phase::Listing;
                    }
                },
                _ => {},
            },
            Phase::QueueingCopy { .. } => match event {
                Event::Enqueued => {
                    stats.add_scanned_entries(1);
                    self.phase = Phase::Listing;
                },
                _ => {},
            },
            Phase::QueueingScan { .. } => match event {
                Event::Enqueued => {
                    stats.add_scanned_entries(1);
                    self.phase = Phase::Listing;
                },
                _ => {},
            },
            Phase::Pruning => match event {
                Event::Target(TargetItem::Failed) => {
                    stats.add_errors(1);
                    self.phase = Phase::Finished;
                },
                Event::Target(TargetItem::End) => {
                    self.phase = Phase::Finished;
                },
                Event::Target(TargetItem::Entry { name }) => {
                    if !self.seen.contains(name.as_slice()) {
                        self.child = self.dir.join(name.as_slice());
                        self.phase = Phase::ProbingOrphan;
                    }
                },
                _ => {},
            },
            Phase::ProbingOrphan => match event {
                Event::Probed(ProbeResult::Found(target)) => {
                    self.phase = Phase::RemovingOrphan {
                        recursive: target.kind == EntryKind::Directory,
                    };
                },
                Event::Probed(_) => {
                    stats.add_errors(1);
                    self.phase = Phase::Finished;
                },
                _ => {},
            },
            Phase::RemovingOrphan { .. } => match event {
                Event::Removed(Removal::Failed) => {
                    stats.add_errors(1);
                    self.phase = Phase::Pruning;
                },
                Event::Removed(Removal::Done { entries, bytes }) => {
                    proof {
                        lemma_apply_short(
                            stats@,
                            Tally::Removed(entries, bytes),
                            Tally::Scanned(1),
                        );
                    }
                    stats.add_removed(entries, bytes);
                    self.phase = Phase::Pruning;
                },
                _ => {},
            },
            Phase::Finished => {},
        }
    }
}

/// A job starts in a consistent state.
pub proof fn lemma_start_is_consistent(dir: Seq<Seq<u8>>, check_target: bool)
    ensures
        JobState::start(dir, check_target).consistent(),
        JobState::start(dir, check_target).command() == Command::NextSource,
{
}

/// Whatever is reported, a job stays in a consistent state, about the same
/// directory.
pub proof fn lemma_next_is_consistent(state: JobState, event: Event)
    requires
        state.consistent(),
    ensures
        state.next(event).consistent(),
        state.next(event).dir == state.dir,
        state.next(event).check_target == state.check_target,
{
    let after = state.next(event);
    match (state.phase, event) {
        (Phase::Listing, Event::Source(SourceItem::Entry { name, meta })) => {
            assert(after.child.drop_last() =~= state.dir);
        },
        (Phase::Pruning, Event::Target(TargetItem::Entry { name })) => {
            if !state.seen.contains(name@) {
                assert(after.child.drop_last() =~= state.dir);
            }
        },
        _ => {},
    }
}

/// The copy queue never gets a directory: where a job asks for an entry to be
/// handed to it, the source entry is no directory.
pub proof fn lemma_copy_queue_gets_no_directory(state: JobState)
    requires
        state.consistent(),
        state.command() == Command::EnqueueCopy,
    ensures
        state.phase matches Phase::QueueingCopy { source } && source.kind != EntryKind::Directory,
{
}

/// A directory goes to the scan queue for an unchecked scan only as the very
/// next thing after the job has made it on the target; every other directory
/// that goes there is compared with the target.
pub proof fn lemma_unchecked_only_after_creation(state: JobState, event: Event)
    requires
        state.next(event).command() == (Command::EnqueueScan { check_target: false }),
        state.next(event) != state,
    ensures
        state.phase is Creating,
        event == (Event::DirectoryCopied { ok: true }),
        state.next(event).child == state.child,
{
}

/// A directory that the target has is scanned only after its metadata is in
/// order: either it was found equal to the source's, or it was set anew, and
/// that went well.
pub proof fn lemma_checked_scan_follows_metadata(state: JobState, event: Event)
    requires
        state.next(event).command() == (Command::EnqueueScan { check_target: true }),
        state.next(event) != state,
    ensures
        (state.phase is Refreshing && event == (Event::DirectoryCopied { ok: true })) || (
        state.phase matches Phase::Probing { source } && event matches Event::Probed(
            ProbeResult::Found(target),
        ) && same_metadata(source, target)),
{
}

/// A finished job stays finished: it asks for nothing more, so nothing is
/// handed to a queue after the task is reported complete, and it counts nothing.
pub proof fn lemma_finished_is_final(state: JobState, event: Event)
    requires
        state.phase is Finished,
    ensures
        state.next(event) == state,
        state.command() == Command::Finish,
        state.tallies(event) == Seq::<Tally>::empty(),
{
}

/// The names seen are the names that the source listing gave, whatever became
/// of the entries: a name enters when its entry is read, and nothing else
/// changes the set.
pub proof fn lemma_seen_as_observed(state: JobState, event: Event)
    ensures
        state.next(event).seen == (if state.phase is Listing {
            match event {
                Event::Source(SourceItem::Entry { name, .. }) => state.seen.insert(name@),
                _ => state.seen,
            }
        } else {
            state.seen
        }),
{
}

/// While pruning, an entry of the target is taken up for removal exactly if its
/// name was not seen in the source.
pub proof fn lemma_orphans_are_the_unseen(state: JobState, name: Vec<u8>)
    requires
        state.phase is Pruning,
    ensures
        ({
            let after = state.next(Event::Target(TargetItem::Entry { name }));
            if state.seen.contains(name@) {
                after == state
            } else {
                after.phase is ProbingOrphan && after.child == state.dir.push(name@)
            }
        }),
{
}

/// An orphan is removed as what it is: a directory with all below it, anything
/// else as one name. A failed removal is counted and pruning goes on.
pub proof fn lemma_orphan_removal(state: JobState, target: EntryMeta, removal: Removal)
    requires
        state.phase is ProbingOrphan,
    ensures
        ({
            let probed = state.next(Event::Probed(ProbeResult::Found(target)));
            let removed = probed.next(Event::Removed(removal));
            &&& probed.command() == (Command::Remove {
                recursive: target.kind == EntryKind::Directory,
            })
            &&& probed.child == state.child
            &&& removed.command() == Command::NextTarget
            &&& probed.tallies(Event::Removed(removal)) == match removal {
                Removal::Failed => seq![Tally::Errors(1)],
                Removal::Done { entries, bytes } => seq![Tally::Removed(entries, bytes)],
            }
        }),
{
}

/// Where the target has an entry of another type than the source, the target's
/// entry is removed first, as what it is, and the source's entry is then brought
/// over as if the target had had none.
pub proof fn lemma_type_clash_is_replaced(
    state: JobState,
    source: EntryMeta,
    target: EntryMeta,
    entries: usize,
    bytes: u64,
)
    requires
        state.phase == (Phase::Probing { source }),
        source.kind != target.kind,
    ensures
        ({
            let probed = state.next(Event::Probed(ProbeResult::Found(target)));
            let removed = probed.next(Event::Removed(Removal::Done { entries, bytes }));
            &&& probed.command() == (Command::Remove {
                recursive: target.kind == EntryKind::Directory,
            })
            &&& removed.phase == state.next(Event::Probed(ProbeResult::Missing)).phase
            &&& removed.phase == materialize(source)
            &&& removed.child == state.child
        }),
{
}

/// An entry that the target has with the same metadata is left alone: it is
/// counted as skipped, nothing is removed or copied, and only a directory is
/// looked into.
pub proof fn lemma_up_to_date_is_skipped(state: JobState, source: EntryMeta, target: EntryMeta)
    requires
        state.phase == (Phase::Probing { source }),
        same_metadata(source, target),
    ensures
        ({
            let event = Event::Probed(ProbeResult::Found(target));
            let after = state.next(event);
            &&& state.tallies(event)[0] == Tally::Skipped(1)
            &&& after.command() == if source.kind == EntryKind::Directory {
                Command::EnqueueScan { check_target: true }
            } else {
                Command::NextSource
            }
        }),
{
}

/// An event that does not answer what the job asked for changes nothing.
pub proof fn lemma_stray_event_is_ignored(state: JobState, event: Event)
    requires
        !answers(state.command(), event),
    ensures
        state.next(event) == state,
        state.tallies(event) == Seq::<Tally>::empty(),
{
}

/// Whether `event` is an answer to `command`.
pub open spec fn answers(command: Command, event: Event) -> bool {
    match command {
        Command::NextSource => event is Source,
        Command::NextTarget => event is Target,
        Command::Probe => event is Probed,
        Command::Remove { .. } => event is Removed,
        Command::CopyDirectory => event is DirectoryCopied,
        Command::EnqueueCopy => event is Enqueued,
        Command::EnqueueScan { .. } => event is Enqueued,
        Command::Finish => false,
    }
}

} // verus!
