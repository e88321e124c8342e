//! The counters of one run.

use vstd::prelude::*;

verus! {

/// The values of the counters, as mathematical numbers.
pub struct Counters {
    pub scanned_entries: nat,
    pub skipped_entries: nat,
    pub queued_copy_entries: nat,
    pub copied_entries: nat,
    pub copied_bytes: nat,
    pub removed_entries: nat,
    pub removed_bytes: nat,
    pub errors: nat,
}

/// One update of the counters.
pub enum Tally {
    Scanned(usize),
    Skipped(usize),
    QueuedCopy(usize),
    Copied(usize, u64),
    Removed(usize, u64),
    Errors(usize),
}

/// `value + count`, held at `limit` where the sum would pass it.
pub open spec fn capped_sum(value: nat, count: nat, limit: nat) -> nat {
    if value + count <= limit {
        value + count
    } else {
        limit
    }
}

impl Counters {
    /// All counters at zero.
    pub open spec fn zero() -> Counters {
        Counters {
            scanned_entries: 0,
            skipped_entries: 0,
            queued_copy_entries: 0,
            copied_entries: 0,
            copied_bytes: 0,
            removed_entries: 0,
            removed_bytes: 0,
            errors: 0,
        }
    }

    /// Every counter of `self` is at most the same counter of `later`.
    pub open spec fn at_most(self, later: Counters) -> bool {
        &&& self.scanned_entries <= later.scanned_entries
        &&& self.skipped_entries <= later.skipped_entries
        &&& self.queued_copy_entries <= later.queued_copy_entries
        &&& self.copied_entries <= later.copied_entries
        &&& self.copied_bytes <= later.copied_bytes
        &&& self.removed_entries <= later.removed_entries
        &&& self.removed_bytes <= later.removed_bytes
        &&& self.errors <= later.errors
    }

    /// No counter is beyond what its machine type holds.
    pub open spec fn in_range(self) -> bool {
        &&& self.scanned_entries <= usize::MAX
        &&& self.skipped_entries <= usize::MAX
        &&& self.queued_copy_entries <= usize::MAX
        &&& self.copied_entries <= usize::MAX
        &&& self.copied_bytes <= u64::MAX
        &&& self.removed_entries <= usize::MAX
        &&& self.removed_bytes <= u64::MAX
        &&& self.errors <= usize::MAX
    }

    pub open spec fn add_scanned(self, count: nat) -> Counters {
        Counters {
            scanned_entries: capped_sum(self.scanned_entries, count, usize::MAX as nat),
            ..self
        }
    }

    pub open spec fn add_skipped(self, count: nat) -> Counters {
        Counters {
            skipped_entries: capped_sum(self.skipped_entries, count, usize::MAX as nat),
            ..self
        }
    }

    pub open spec fn add_queued_copy(self, count: nat) -> Counters {
        Counters {
            queued_copy_entries: capped_sum(self.queued_copy_entries, count, usize::MAX as nat),
            ..self
        }
    }

    pub open spec fn add_copied(self, count: nat, bytes: nat) -> Counters {
        Counters {
            copied_entries: capped_sum(self.copied_entries, count, usize::MAX as nat),
            copied_bytes: capped_sum(self.copied_bytes, bytes, u64::MAX as nat),
            ..self
        }
    }

    pub open spec fn add_removed(self, count: nat, bytes: nat) -> Counters {
        Counters {
            removed_entries: capped_sum(self.removed_entries, count, usize::MAX as nat),
            removed_bytes: capped_sum(self.removed_bytes, bytes, u64::MAX as nat),
            ..self
        }
    }

    pub open spec fn add_errors(self, count: nat) -> Counters {
        Counters { errors: capped_sum(self.errors, count, usize::MAX as nat), ..self }
    }

    /// The counters after one update.
    pub open spec fn apply(self, tally: Tally) -> Counters {
        match tally {
            Tally::Scanned(n) => self.add_scanned(n as nat),
            Tally::Skipped(n) => self.add_skipped(n as nat),
            Tally::QueuedCopy(n) => self.add_queued_copy(n as nat),
            Tally::Copied(n, bytes) => self.add_copied(n as nat, bytes as nat),
            Tally::Removed(n, bytes) => self.add_removed(n as nat, bytes as nat),
            Tally::Errors(n) => self.add_errors(n as nat),
        }
    }

    /// The counters after a run of updates, applied first to last.
    pub open spec fn apply_all(self, tallies: Seq<Tally>) -> Counters
        decreases tallies.len(),
    {
        if tallies.len() == 0 {
            self
        } else {
            self.apply_all(tallies.drop_last()).apply(tallies.last())
        }
    }
}

/// The counters of one run. They start at zero and only ever grow; one that has
/// reached the largest value of its type stays there.
#[derive(Debug)]
pub struct Stats {
    scanned_entries: usize,
    skipped_entries: usize,
    queued_copy_entries: usize,
    copied_entries: usize,
    copied_bytes: u64,
    removed_entries: usize,
    removed_bytes: u64,
    errors: usize,
}

impl View for Stats {
    type V = Counters;

    closed spec fn view(&self) -> Counters {
        Counters {
            scanned_entries: self.scanned_entries as nat,
            skipped_entries: self.skipped_entries as nat,
            queued_copy_entries: self.queued_copy_entries as nat,
            copied_entries: self.copied_entries as nat,
            copied_bytes: self.copied_bytes as nat,
            removed_entries: self.removed_entries as nat,
            removed_bytes: self.removed_bytes as nat,
            errors: self.errors as nat,
        }
    }
}

fn grow(value: usize, count: usize) -> (sum: usize)
    ensures
        sum == capped_sum(value as nat, count as nat, usize::MAX as nat),
{
    if count > usize::MAX - value {
        usize::MAX
    } else {
        value + count
    }
}

fn grow_bytes(value: u64, count: u64) -> (sum: u64)
    ensures
        sum == capped_sum(value as nat, count as nat, u64::MAX as nat),
{
    if count > u64::MAX - value {
        u64::MAX
    } else {
        value + count
    }
}

impl Stats {
    /// Fresh counters, all at zero.
    pub fn new() -> (stats: Stats)
        ensures
            stats@ == Counters::zero(),
    {
        Stats {
            scanned_entries: 0,
            skipped_entries: 0,
            queued_copy_entries: 0,
            copied_entries: 0,
            copied_bytes: 0,
            removed_entries: 0,
            removed_bytes: 0,
            errors: 0,
        }
    }

    /// Counts `count` more source entries as looked at.
    pub fn add_scanned_entries(&mut self, count: usize)
        ensures
            final(self)@ == old(self)@.add_scanned(count as nat),
            old(self)@.at_most(final(self)@),
    {
        self.scanned_entries = grow(self.scanned_entries, count);
    }

    /// Counts `count` more entries as found up to date.
    pub fn add_skipped_entries(&mut self, count: usize)
        ensures
            final(self)@ == old(self)@.add_skipped(count as nat),
            old(self)@.at_most(final(self)@),
    {
        self.skipped_entries = grow(self.skipped_entries, count);
    }

    /// Counts `count` more entries as handed to the copy queue.
    pub fn add_queued_copy_entries(&mut self, count: usize)
        ensures
            final(self)@ == old(self)@.add_queued_copy(count as nat),
            old(self)@.at_most(final(self)@),
    {
        self.queued_copy_entries = grow(self.queued_copy_entries, count);
    }

    /// Counts `count` more entries, of `bytes` bytes together, as copied.
    pub fn add_copied(&mut self, count: usize, bytes: u64)
        ensures
            final(self)@ == old(self)@.add_copied(count as nat, bytes as nat),
            old(self)@.at_most(final(self)@),
    {
        self.copied_entries = grow(self.copied_entries, count);
        self.copied_bytes = grow_bytes(self.copied_bytes, bytes);
    }

    /// Counts `count` more entries, of `bytes` bytes together, as removed.
    pub fn add_removed(&mut self, count: usize, bytes: u64)
        ensures
            final(self)@ == old(self)@.add_removed(count as nat, bytes as nat),
            old(self)@.at_most(final(self)@),
    {
        self.removed_entries = grow(self.removed_entries, count);
        self.removed_bytes = grow_bytes(self.removed_bytes, bytes);
    }

    /// Counts `count` more errors.
    pub fn add_errors(&mut self, count: usize)
        ensures
            final(self)@ == old(self)@.add_errors(count as nat),
            old(self)@.at_most(final(self)@),
    {
        self.errors = grow(self.errors, count);
    }

    /// Applies one update.
    pub fn record(&mut self, tally: Tally)
        ensures
            final(self)@ == old(self)@.apply(tally),
            old(self)@.at_most(final(self)@),
    {
        match tally {
            Tally::Scanned(n) => self.add_scanned_entries(n),
            Tally::Skipped(n) => self.add_skipped_entries(n),
            Tally::QueuedCopy(n) => self.add_queued_copy_entries(n),
            Tally::Copied(n, bytes) => self.add_copied(n, bytes),
            Tally::Removed(n, bytes) => self.add_removed(n, bytes),
            Tally::Errors(n) => self.add_errors(n),
        }
    }

    pub fn scanned_entries(&self) -> (n: usize)
        ensures
            n == self@.scanned_entries,
    {
        self.scanned_entries
    }

    pub fn skipped_entries(&self) -> (n: usize)
        ensures
            n == self@.skipped_entries,
    {
        self.skipped_entries
    }

    pub fn queued_copy_entries(&self) -> (n: usize)
        ensures
            n == self@.queued_copy_entries,
    {
        self.queued_copy_entries
    }

    pub fn copied_entries(&self) -> (n: usize)
        ensures
            n == self@.copied_entries,
    {
        self.copied_entries
    }

    pub fn copied_bytes(&self) -> (n: u64)
        ensures
            n == self@.copied_bytes,
    {
        self.copied_bytes
    }

    pub fn removed_entries(&self) -> (n: usize)
        ensures
            n == self@.removed_entries,
    {
        self.removed_entries
    }

    pub fn removed_bytes(&self) -> (n: u64)
        ensures
            n == self@.removed_bytes,
    {
        self.removed_bytes
    }

    pub fn errors(&self) -> (n: usize)
        ensures
            n == self@.errors,
    {
        self.errors
    }

    /// What the counters hold is always within their machine types.
    pub proof fn lemma_in_range(&self)
        ensures
            self@.in_range(),
    {
    }
}

/// No update lowers a counter, and none takes one out of its machine type.
pub proof fn lemma_update_never_lowers(before: Counters, tally: Tally)
    requires
        before.in_range(),
    ensures
        before.at_most(before.apply(tally)),
        before.apply(tally).in_range(),
{
}

/// Counters read later are at least what was read earlier: whatever updates
/// came between two readings, none of the counters went down.
pub proof fn lemma_counters_monotone(earlier: Counters, updates: Seq<Tally>)
    requires
        earlier.in_range(),
    ensures
        earlier.at_most(earlier.apply_all(updates)),
        earlier.apply_all(updates).in_range(),
    decreases updates.len(),
{
    if updates.len() > 0 {
        lemma_counters_monotone(earlier, updates.drop_last());
        lemma_update_never_lowers(earlier.apply_all(updates.drop_last()), updates.last());
    }
}

/// A run of no updates changes nothing; a run of one or two updates is their
/// application in order.
pub proof fn lemma_apply_short(before: Counters, first: Tally, second: Tally)
    ensures
        before.apply_all(Seq::<Tally>::empty()) == before,
        before.apply_all(seq![first]) == before.apply(first),
        before.apply_all(seq![first, second]) == before.apply(first).apply(second),
{
    assert(seq![first].drop_last() =~= Seq::<Tally>::empty());
    assert(seq![first, second].drop_last() =~= seq![first]);
    assert(before.apply_all(seq![first]) == before.apply_all(Seq::<Tally>::empty()).apply(first));
    assert(before.apply_all(seq![first, second]) == before.apply_all(seq![first]).apply(second));
}

/// Below the largest value of its type a counter grows by exactly what is added.
pub proof fn lemma_update_is_additive(before: Counters, count: usize)
    requires
        before.scanned_entries + count <= usize::MAX,
        before.skipped_entries + count <= usize::MAX,
        before.queued_copy_entries + count <= usize::MAX,
        before.errors + count <= usize::MAX,
    ensures
        before.add_scanned(count as nat).scanned_entries == before.scanned_entries + count,
        before.add_skipped(count as nat).skipped_entries == before.skipped_entries + count,
        before.add_queued_copy(count as nat).queued_copy_entries == before.queued_copy_entries
            + count,
        before.add_errors(count as nat).errors == before.errors + count,
{
}

} // verus!
