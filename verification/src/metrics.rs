//! The counters in the text format that Prometheus reads.

use vstd::prelude::*;
use vstd::utf8::is_ascii_chars;
use crate::stats::{Counters, Stats};
use crate::text::{ascii, decimal, push_decimal, push_text};

verus! {

/// The path under which the counters are served.
pub const METRICS_PATH: &'static str = "metrics";

/// The three lines of one counter: what it means, that it is a counter, and
/// its value.
pub open spec fn metric(name: Seq<char>, help: Seq<char>, value: nat) -> Seq<u8> {
    ascii("# HELP "@) + ascii(name) + ascii(" "@) + ascii(help) + ascii("\n# TYPE "@) + ascii(name)
        + ascii(" counter\n"@) + ascii(name) + ascii(" "@) + decimal(value) + ascii("\n"@)
}

/// The whole text for `counters`: the eight counters, each with its three lines.
pub open spec fn exposition(counters: Counters) -> Seq<u8> {
    metric("sync_scanned_entries"@, "Total number of entries scanned."@, counters.scanned_entries)
        + metric(
        "sync_skipped_entries"@,
        "Total number of entries skipped because they were up-to-date."@,
        counters.skipped_entries,
    ) + metric(
        "sync_queued_copy_entries"@,
        "Total number of entries added to the queue for copy."@,
        counters.queued_copy_entries,
    ) + metric("sync_copied_entries"@, "Total number of files copied."@, counters.copied_entries)
        + metric("sync_copied_bytes"@, "Total size of files copied."@, counters.copied_bytes)
        + metric(
        "sync_removed_entries"@,
        "Total number of entries deleted."@,
        counters.removed_entries,
    ) + metric("sync_removed_bytes"@, "Total size of files deleted."@, counters.removed_bytes)
        + metric(
        "sync_errors"@,
        "Total number of errors during this sync operation."@,
        counters.errors,
    )
}

fn push_metric(out: &mut Vec<u8>, name: &str, help: &str, value: u64)
    requires
        is_ascii_chars(name@),
        is_ascii_chars(help@),
    ensures
        final(out)@ == old(out)@ + metric(name@, help@, value as nat),
{
    proof {
        reveal_strlit("# HELP ");
        reveal_strlit(" ");
        reveal_strlit("\n# TYPE ");
        reveal_strlit(" counter\n");
        reveal_strlit("\n");
    }
    let ghost start = out@;
    push_text(out, "# HELP ");
    push_text(out, name);
    push_text(out, " ");
    push_text(out, help);
    push_text(out, "\n# TYPE ");
    push_text(out, name);
    push_text(out, " counter\n");
    push_text(out, name);
    push_text(out, " ");
    push_decimal(out, value);
    push_text(out, "\n");
    assert(out@ =~= start + metric(name@, help@, value as nat));
}

impl Stats {
    /// The text to serve for a request at [`METRICS_PATH`]: the counters as they
    /// stand.
    pub fn serve_prometheus(&self) -> (text: Vec<u8>)
        ensures
            text@ == exposition(self@),
    {
        render(self)
    }
}

fn render(stats: &Stats) -> (text: Vec<u8>)
    ensures
        text@ == exposition(stats@),
{
    proof {
        reveal_strlit("sync_scanned_entries");
        reveal_strlit("Total number of entries scanned.");
        reveal_strlit("sync_skipped_entries");
        reveal_strlit("Total number of entries skipped because they were up-to-date.");
        reveal_strlit("sync_queued_copy_entries");
        reveal_strlit("Total number of entries added to the queue for copy.");
        reveal_strlit("sync_copied_entries");
        reveal_strlit("Total number of files copied.");
        reveal_strlit("sync_copied_bytes");
        reveal_strlit("Total size of files copied.");
        reveal_strlit("sync_removed_entries");
        reveal_strlit("Total number of entries deleted.");
        reveal_strlit("sync_removed_bytes");
        reveal_strlit("Total size of files deleted.");
        reveal_strlit("sync_errors");
        reveal_strlit("Total number of errors during this sync operation.");
    }
    let mut text: Vec<u8> = Vec::new();
    push_metric(
        &mut text,
        "sync_scanned_entries",
        "Total number of entries scanned.",
        stats.scanned_entries() as u64,
    );
    push_metric(
        &mut text,
        "sync_skipped_entries",
        "Total number of entries skipped because they were up-to-date.",
        stats.skipped_entries() as u64,
    );
    push_metric(
        &mut text,
        "sync_queued_copy_entries",
        "Total number of entries added to the queue for copy.",
        stats.queued_copy_entries() as u64,
    );
    push_metric(
        &mut text,
        "sync_copied_entries",
        "Total number of files copied.",
        stats.copied_entries() as u64,
    );
    push_metric(&mut text, "sync_copied_bytes", "Total size of files copied.", stats.copied_bytes());
    push_metric(
        &mut text,
        "sync_removed_entries",
        "Total number of entries deleted.",
        stats.removed_entries() as u64,
    );
    push_metric(
        &mut text,
        "sync_removed_bytes",
        "Total size of files deleted.",
        stats.removed_bytes(),
    );
    push_metric(
        &mut text,
        "sync_errors",
        "Total number of errors during this sync operation.",
        stats.errors() as u64,
    );
    assert(text@ =~= exposition(stats@));
    text
}

} // verus!
