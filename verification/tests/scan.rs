use fast_local_sync::entry::{EntryKind, EntryMeta, Timestamp};
use fast_local_sync::path::RelPath;
use fast_local_sync::scan::{
    Command, Event, Phase, ProbeResult, Removal, ScanJob, ScanTask, SourceItem, TargetItem,
};
use fast_local_sync::stats::Stats;

fn meta(kind: EntryKind, secs: i64) -> EntryMeta {
    EntryMeta { kind, size: 4, mode: 0o644, uid: 1, gid: 1, mtime: Timestamp { secs, nanos: 0 } }
}

fn job(check_target: bool) -> ScanJob {
    let dir = RelPath::root().join(b"top");
    ScanJob::new(ScanTask { dir, check_target })
}

fn entry(name: &str, kind: EntryKind) -> Event {
    Event::Source(SourceItem::Entry { name: name.as_bytes().to_vec(), meta: meta(kind, 10) })
}

fn path_of(job: &ScanJob) -> Vec<Vec<u8>> {
    let child = job.child();
    (0..child.depth()).map(|i| child.component(i).to_vec()).collect()
}

fn counts(stats: &Stats) -> (usize, usize, usize, usize) {
    (stats.scanned_entries(), stats.skipped_entries(), stats.removed_entries(), stats.errors())
}

/// A job that has read `name` and waits for the target's metadata of it.
fn probing(name: &str, kind: EntryKind, stats: &mut Stats) -> ScanJob {
    let mut job = job(true);
    job.advance(entry(name, kind), stats);
    assert_eq!(job.command(), Command::Probe);
    job
}

#[test]
fn a_job_begins_by_listing_the_source() {
    let job = job(true);
    assert_eq!(job.command(), Command::NextSource);
    assert_eq!(job.phase(), Phase::Listing);
    assert!(!job.is_finished());
    assert_eq!(path_of(&job), vec![b"top".to_vec()]);
    assert_eq!(job.dir().depth(), 1);
}

#[test]
fn unreadable_source_ends_the_task_without_pruning() {
    let mut stats = Stats::new();
    let mut job = job(true);
    job.advance(Event::Source(SourceItem::Failed), &mut stats);
    assert_eq!(job.command(), Command::Finish);
    assert!(job.is_finished());
    assert_eq!(counts(&stats), (0, 0, 0, 1));
}

#[test]
fn unchecked_entries_are_brought_over_at_once() {
    let mut stats = Stats::new();
    let mut job = job(false);
    job.advance(entry("f", EntryKind::Regular), &mut stats);
    assert_eq!(job.command(), Command::EnqueueCopy);
    assert_eq!(path_of(&job), vec![b"top".to_vec(), b"f".to_vec()]);
    job.advance(Event::Enqueued, &mut stats);
    assert_eq!(job.command(), Command::NextSource);
    assert_eq!(counts(&stats), (1, 0, 0, 0));

    job.advance(entry("l", EntryKind::Symlink), &mut stats);
    assert_eq!(job.command(), Command::EnqueueCopy);
    job.advance(Event::Enqueued, &mut stats);
    job.advance(entry("p", EntryKind::Other), &mut stats);
    assert_eq!(job.command(), Command::EnqueueCopy);
    job.advance(Event::Enqueued, &mut stats);

    job.advance(entry("d", EntryKind::Directory), &mut stats);
    assert_eq!(job.command(), Command::CopyDirectory);
    assert_eq!(path_of(&job), vec![b"top".to_vec(), b"d".to_vec()]);
    job.advance(Event::DirectoryCopied { ok: true }, &mut stats);
    assert_eq!(job.command(), Command::EnqueueScan { check_target: false });
    job.advance(Event::Enqueued, &mut stats);
    assert_eq!(job.command(), Command::NextSource);
    assert_eq!(counts(&stats), (4, 0, 0, 0));
}

#[test]
fn a_directory_that_cannot_be_made_is_not_scanned() {
    let mut stats = Stats::new();
    let mut job = job(false);
    job.advance(entry("d", EntryKind::Directory), &mut stats);
    job.advance(Event::DirectoryCopied { ok: false }, &mut stats);
    assert_eq!(job.command(), Command::NextSource);
    assert_eq!(counts(&stats), (1, 0, 0, 1));
}

#[test]
fn a_missing_target_entry_is_brought_over() {
    let mut stats = Stats::new();
    let mut job = probing("f", EntryKind::Regular, &mut stats);
    job.advance(Event::Probed(ProbeResult::Missing), &mut stats);
    assert_eq!(job.command(), Command::EnqueueCopy);
    let mut job = probing("d", EntryKind::Directory, &mut stats);
    job.advance(Event::Probed(ProbeResult::Missing), &mut stats);
    assert_eq!(job.command(), Command::CopyDirectory);
    job.advance(Event::DirectoryCopied { ok: true }, &mut stats);
    assert_eq!(job.command(), Command::EnqueueScan { check_target: false });
    assert_eq!(counts(&stats), (0, 0, 0, 0));
}

#[test]
fn an_unreadable_target_entry_is_counted_and_passed_over() {
    let mut stats = Stats::new();
    let mut job = probing("f", EntryKind::Regular, &mut stats);
    job.advance(Event::Probed(ProbeResult::Failed), &mut stats);
    assert_eq!(job.command(), Command::NextSource);
    assert_eq!(counts(&stats), (0, 0, 0, 1));
}

#[test]
fn an_up_to_date_file_is_skipped() {
    let mut stats = Stats::new();
    let mut job = probing("f", EntryKind::Regular, &mut stats);
    job.advance(Event::Probed(ProbeResult::Found(meta(EntryKind::Regular, 10))), &mut stats);
    assert_eq!(job.command(), Command::NextSource);
    assert_eq!(counts(&stats), (1, 1, 0, 0));
}

#[test]
fn a_changed_file_is_copied_again() {
    let mut stats = Stats::new();
    let mut job = probing("f", EntryKind::Regular, &mut stats);
    job.advance(Event::Probed(ProbeResult::Found(meta(EntryKind::Regular, 11))), &mut stats);
    assert_eq!(job.command(), Command::EnqueueCopy);
    job.advance(Event::Enqueued, &mut stats);
    assert_eq!(counts(&stats), (1, 0, 0, 0));
}

#[test]
fn an_up_to_date_directory_is_skipped_and_looked_into() {
    let mut stats = Stats::new();
    let mut job = probing("d", EntryKind::Directory, &mut stats);
    job.advance(Event::Probed(ProbeResult::Found(meta(EntryKind::Directory, 10))), &mut stats);
    assert_eq!(job.command(), Command::EnqueueScan { check_target: true });
    job.advance(Event::Enqueued, &mut stats);
    assert_eq!(job.command(), Command::NextSource);
    assert_eq!(counts(&stats), (1, 1, 0, 0));
}

#[test]
fn a_changed_directory_is_adjusted_in_place() {
    let mut stats = Stats::new();
    let mut job = probing("d", EntryKind::Directory, &mut stats);
    job.advance(Event::Probed(ProbeResult::Found(meta(EntryKind::Directory, 99))), &mut stats);
    assert_eq!(job.command(), Command::CopyDirectory);
    job.advance(Event::DirectoryCopied { ok: true }, &mut stats);
    assert_eq!(job.command(), Command::EnqueueScan { check_target: true });
    job.advance(Event::Enqueued, &mut stats);
    assert_eq!(counts(&stats), (1, 0, 0, 0));

    let mut job = probing("d", EntryKind::Directory, &mut stats);
    job.advance(Event::Probed(ProbeResult::Found(meta(EntryKind::Directory, 99))), &mut stats);
    job.advance(Event::DirectoryCopied { ok: false }, &mut stats);
    assert_eq!(job.command(), Command::NextSource);
    assert_eq!(counts(&stats), (1, 0, 0, 1));
}

#[test]
fn another_type_is_removed_first() {
    let mut stats = Stats::new();
    let mut job = probing("x", EntryKind::Regular, &mut stats);
    job.advance(Event::Probed(ProbeResult::Found(meta(EntryKind::Directory, 10))), &mut stats);
    assert_eq!(job.command(), Command::Remove { recursive: true });
    job.advance(Event::Removed(Removal::Done { entries: 5, bytes: 50 }), &mut stats);
    assert_eq!(job.command(), Command::EnqueueCopy);
    assert_eq!(stats.removed_entries(), 5);
    assert_eq!(stats.removed_bytes(), 50);

    let mut job = probing("x", EntryKind::Directory, &mut stats);
    job.advance(Event::Probed(ProbeResult::Found(meta(EntryKind::Symlink, 10))), &mut stats);
    assert_eq!(job.command(), Command::Remove { recursive: false });
    job.advance(Event::Removed(Removal::Done { entries: 1, bytes: 0 }), &mut stats);
    assert_eq!(job.command(), Command::CopyDirectory);

    let mut job = probing("x", EntryKind::Symlink, &mut stats);
    job.advance(Event::Probed(ProbeResult::Found(meta(EntryKind::Other, 10))), &mut stats);
    assert_eq!(job.command(), Command::Remove { recursive: false });
    job.advance(Event::Removed(Removal::Failed), &mut stats);
    assert_eq!(job.command(), Command::NextSource);
    assert_eq!(counts(&stats), (0, 0, 6, 1));
}

#[test]
fn target_only_entries_are_pruned() {
    let mut stats = Stats::new();
    let mut job = job(true);
    job.advance(entry("kept", EntryKind::Regular), &mut stats);
    job.advance(Event::Probed(ProbeResult::Failed), &mut stats);
    job.advance(Event::Source(SourceItem::End), &mut stats);
    assert_eq!(job.command(), Command::NextTarget);

    job.advance(Event::Target(TargetItem::Entry { name: b"kept".to_vec() }), &mut stats);
    assert_eq!(job.command(), Command::NextTarget);

    job.advance(Event::Target(TargetItem::Entry { name: b"old".to_vec() }), &mut stats);
    assert_eq!(job.command(), Command::Probe);
    assert_eq!(path_of(&job), vec![b"top".to_vec(), b"old".to_vec()]);
    job.advance(Event::Probed(ProbeResult::Found(meta(EntryKind::Directory, 1))), &mut stats);
    assert_eq!(job.command(), Command::Remove { recursive: true });
    job.advance(Event::Removed(Removal::Done { entries: 2, bytes: 9 }), &mut stats);
    assert_eq!(job.command(), Command::NextTarget);

    job.advance(Event::Target(TargetItem::Entry { name: b"older".to_vec() }), &mut stats);
    job.advance(Event::Probed(ProbeResult::Found(meta(EntryKind::Regular, 1))), &mut stats);
    assert_eq!(job.command(), Command::Remove { recursive: false });
    job.advance(Event::Removed(Removal::Failed), &mut stats);
    assert_eq!(job.command(), Command::NextTarget);

    job.advance(Event::Target(TargetItem::End), &mut stats);
    assert_eq!(job.command(), Command::Finish);
    assert_eq!(counts(&stats), (0, 0, 2, 2));
    assert_eq!(stats.removed_bytes(), 9);
}

#[test]
fn pruning_stops_where_the_target_cannot_be_read() {
    let mut stats = Stats::new();
    let mut job = job(true);
    job.advance(Event::Source(SourceItem::End), &mut stats);
    job.advance(Event::Target(TargetItem::Failed), &mut stats);
    assert!(job.is_finished());
    assert_eq!(counts(&stats), (0, 0, 0, 1));

    let mut job = fresh_pruning(&mut stats);
    job.advance(Event::Target(TargetItem::Entry { name: b"o".to_vec() }), &mut stats);
    job.advance(Event::Probed(ProbeResult::Failed), &mut stats);
    assert!(job.is_finished());
    let mut job = fresh_pruning(&mut stats);
    job.advance(Event::Target(TargetItem::Entry { name: b"o".to_vec() }), &mut stats);
    job.advance(Event::Probed(ProbeResult::Missing), &mut stats);
    assert!(job.is_finished());
    assert_eq!(counts(&stats), (0, 0, 0, 3));
}

fn fresh_pruning(stats: &mut Stats) -> ScanJob {
    let mut job = job(false);
    job.advance(Event::Source(SourceItem::End), stats);
    job
}

#[test]
fn events_that_answer_nothing_are_ignored() {
    let mut stats = Stats::new();
    let mut job = job(true);
    let strays = || {
        vec![
            Event::Target(TargetItem::End),
            Event::Probed(ProbeResult::Missing),
            Event::Removed(Removal::Done { entries: 1, bytes: 1 }),
            Event::DirectoryCopied { ok: false },
            Event::Enqueued,
        ]
    };
    for event in strays() {
        job.advance(event, &mut stats);
        assert_eq!(job.phase(), Phase::Listing);
    }
    job.advance(Event::Source(SourceItem::Failed), &mut stats);
    for event in strays() {
        job.advance(event, &mut stats);
        assert_eq!(job.command(), Command::Finish);
    }
    job.advance(entry("late", EntryKind::Regular), &mut stats);
    assert_eq!(job.command(), Command::Finish);
    assert_eq!(counts(&stats), (0, 0, 0, 1));
}
