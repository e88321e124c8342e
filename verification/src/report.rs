//! The counters as a table on the terminal: a header now and then, and one line
//! for each reading.

use vstd::prelude::*;
use crate::stats::{Counters, Stats};
use crate::text::{ascii, decimal, push_right_aligned, push_text, right_aligned};

verus! {

/// Seconds between two readings.
pub const PRINT_INTERVAL_SECS: u64 = 10;

/// After this many readings the header is printed again.
pub const READINGS_PER_HEADER: u8 = 30;

/// The width of a column of numbers.
pub const COLUMN_WIDTH: usize = 10;

/// The header line, without the line end.
pub open spec fn header_text() -> Seq<u8> {
    ascii("SCANNED     SKIPPED     QUEUED      COPIED      REMOVED     ERRORS"@)
}

/// The line for `counters`, without the line end: scanned, skipped, queued,
/// copied and removed entries and errors, each right-aligned in ten columns,
/// two spaces between them.
pub open spec fn line_text(counters: Counters) -> Seq<u8> {
    right_aligned(decimal(counters.scanned_entries), 10) + ascii("  "@) + right_aligned(
        decimal(counters.skipped_entries),
        10,
    ) + ascii("  "@) + right_aligned(decimal(counters.queued_copy_entries), 10) + ascii("  "@)
        + right_aligned(decimal(counters.copied_entries), 10) + ascii("  "@) + right_aligned(
        decimal(counters.removed_entries),
        10,
    ) + ascii("  "@) + right_aligned(decimal(counters.errors), 10)
}

/// The header line.
pub fn stats_header() -> (line: Vec<u8>)
    ensures
        line@ == header_text(),
{
    proof {
        reveal_strlit("SCANNED     SKIPPED     QUEUED      COPIED      REMOVED     ERRORS");
    }
    let mut line: Vec<u8> = Vec::new();
    push_text(&mut line, "SCANNED     SKIPPED     QUEUED      COPIED      REMOVED     ERRORS");
    assert(line@ =~= header_text());
    line
}

/// The line for a reading of `stats`.
pub fn stats_line(stats: &Stats) -> (line: Vec<u8>)
    ensures
        line@ == line_text(stats@),
{
    proof {
        reveal_strlit("  ");
    }
    let mut line: Vec<u8> = Vec::new();
    push_right_aligned(&mut line, stats.scanned_entries() as u64, COLUMN_WIDTH);
    push_text(&mut line, "  ");
    push_right_aligned(&mut line, stats.skipped_entries() as u64, COLUMN_WIDTH);
    push_text(&mut line, "  ");
    push_right_aligned(&mut line, stats.queued_copy_entries() as u64, COLUMN_WIDTH);
    push_text(&mut line, "  ");
    push_right_aligned(&mut line, stats.copied_entries() as u64, COLUMN_WIDTH);
    push_text(&mut line, "  ");
    push_right_aligned(&mut line, stats.removed_entries() as u64, COLUMN_WIDTH);
    push_text(&mut line, "  ");
    push_right_aligned(&mut line, stats.errors() as u64, COLUMN_WIDTH);
    assert(line@ =~= line_text(stats@));
    line
}

/// Keeps track of when the header is due.
#[derive(Debug)]
pub struct StatsPrinter {
    since_header: u8,
}

impl View for StatsPrinter {
    type V = nat;

    /// How many readings were printed since the last header was due, modulo
    /// thirty.
    closed spec fn view(&self) -> nat {
        self.since_header as nat
    }
}

/// Where a printer stands after `readings` readings.
pub open spec fn position_after(readings: nat) -> nat {
    readings % 30
}

impl StatsPrinter {
    #[verifier::type_invariant]
    closed spec fn in_cycle(&self) -> bool {
        self.since_header < 30
    }

    /// A printer that has printed nothing yet.
    pub fn new() -> (printer: StatsPrinter)
        ensures
            printer@ == position_after(0),
    {
        StatsPrinter { since_header: 0 }
    }

    /// Counts one more reading and says whether the header goes before it.
    pub fn header_due(&mut self) -> (due: bool)
        ensures
            due == (old(self)@ == 0),
            final(self)@ == (old(self)@ + 1) % 30,
            old(self)@ < 30,
    {
        proof {
            use_type_invariant(&*self);
        }
        let due = self.since_header == 0;
        if self.since_header == 29 {
            self.since_header = 0;
        } else {
            self.since_header = self.since_header + 1;
        }
        due
    }
}

/// The header goes before the first reading and then before every thirtieth:
/// a printer that stands where `readings` readings lead, prints the header
/// exactly if `readings` is a multiple of thirty, and then stands where
/// `readings + 1` readings lead.
pub proof fn lemma_header_every_thirty(readings: nat)
    ensures
        (position_after(readings) == 0) == (readings % 30 == 0),
        (position_after(readings) + 1) % 30 == position_after(readings + 1),
{
}

} // verus!
