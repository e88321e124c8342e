use fast_local_sync::bytes::{
    bytes_equal, contains_name, copy_bytes, place_of, starts_with, Place,
};
use fast_local_sync::names::NameSet;
use fast_local_sync::path::RelPath;
use fast_local_sync::pool::{
    on_receive_timeout, CopyOutcome, DirScanPool, FileCopyPool, IdleAction, COPY_QUEUE_CAPACITY,
    DEFAULT_THREADS,
};
use fast_local_sync::run::{exit_code, Ending, Run, Stage};
use fast_local_sync::scan::{Event, ScanJob, SourceItem};
use fast_local_sync::stats::Stats;

fn finished_job(task: fast_local_sync::scan::ScanTask) -> ScanJob {
    let mut job = ScanJob::new(task);
    let mut stats = Stats::new();
    job.advance(Event::Source(SourceItem::Failed), &mut stats);
    job
}

#[test]
fn scan_pool_counts_tasks_in_and_out() {
    let mut pool = DirScanPool::new();
    assert!(pool.join());
    let first = pool.add(RelPath::root().join(b"a"));
    assert!(first.check_target);
    assert_eq!(first.dir.depth(), 1);
    assert_eq!(first.dir.component(0), b"a");
    let second = pool.add_no_check(RelPath::root().join(b"a").join(b"b"));
    assert!(!second.check_target);
    assert_eq!(second.dir.depth(), 2);
    assert_eq!(second.dir.component(1), b"b");
    assert_eq!(pool.enqueued(), 2);
    assert!(!pool.join());
    pool.complete(finished_job(first));
    assert_eq!(pool.enqueued(), 1);
    assert!(!pool.join());
    pool.complete(finished_job(second));
    assert!(pool.join());
}

#[test]
fn copy_pool_counts_entries_and_outcomes() {
    let mut stats = Stats::new();
    let mut pool = FileCopyPool::new();
    assert!(pool.join());
    let path = pool.add(RelPath::root().join(b"f"), &mut stats);
    assert_eq!(path.component(0), b"f");
    pool.add(RelPath::root().join(b"g"), &mut stats);
    assert_eq!(pool.enqueued(), 2);
    assert_eq!(stats.queued_copy_entries(), 2);
    pool.complete(CopyOutcome::Copied { bytes: 100 }, &mut stats);
    assert!(!pool.join());
    assert_eq!((stats.copied_entries(), stats.copied_bytes(), stats.errors()), (1, 100, 0));
    pool.complete(CopyOutcome::Failed, &mut stats);
    assert!(pool.join());
    assert_eq!((stats.copied_entries(), stats.copied_bytes(), stats.errors()), (2, 100, 1));
}

#[test]
fn pool_settings() {
    assert_eq!(DEFAULT_THREADS, 8);
    assert_eq!(COPY_QUEUE_CAPACITY, 4096);
    assert_eq!(on_receive_timeout(false), IdleAction::Wait);
    assert_eq!(on_receive_timeout(true), IdleAction::Exit);
}

#[test]
fn exit_codes() {
    assert_eq!(exit_code(Ending::Completed), 0);
    assert_eq!(exit_code(Ending::HelpShown), 0);
    assert_eq!(exit_code(Ending::MissingDestination), 1);
    assert_eq!(exit_code(Ending::BadUsage), 2);
}

#[test]
fn a_run_needs_its_destination() {
    let mut run = Run::new();
    assert_eq!(run.stage(), Stage::Starting);
    assert!(run.start(false).is_none());
    assert_eq!(run.stage(), Stage::Ended(Ending::MissingDestination));
    assert!(run.start(true).is_none());
    assert_eq!(run.poll(&DirScanPool::new(), &FileCopyPool::new()), Stage::Ended(Ending::MissingDestination));
}

#[test]
fn a_run_waits_for_scans_and_then_for_copies() {
    let mut stats = Stats::new();
    let mut scans = DirScanPool::new();
    let mut copies = FileCopyPool::new();
    let mut run = Run::new();
    assert_eq!(run.poll(&scans, &copies), Stage::Starting);
    let first = run.start(true).unwrap();
    assert_eq!(first.depth(), 0);
    let task = scans.add(first);
    assert_eq!(run.poll(&scans, &copies), Stage::Scanning);
    copies.add(RelPath::root().join(b"f"), &mut stats);
    assert_eq!(run.poll(&scans, &copies), Stage::Scanning);
    scans.complete(finished_job(task));
    assert_eq!(run.poll(&scans, &copies), Stage::Copying);
    // what the scan pool does from here on is not looked at again
    let late = scans.add(RelPath::root());
    assert_eq!(run.poll(&scans, &copies), Stage::Copying);
    copies.complete(CopyOutcome::Copied { bytes: 0 }, &mut stats);
    assert_eq!(run.poll(&scans, &copies), Stage::Ended(Ending::Completed));
    scans.complete(finished_job(late));
    assert_eq!(run.poll(&scans, &copies), Stage::Ended(Ending::Completed));
}

#[test]
fn a_run_with_nothing_to_copy_ends_with_the_scans() {
    let mut scans = DirScanPool::new();
    let copies = FileCopyPool::new();
    let mut run = Run::new();
    let task = scans.add(run.start(true).unwrap());
    scans.complete(finished_job(task));
    assert_eq!(run.poll(&scans, &copies), Stage::Ended(Ending::Completed));
}

#[test]
fn paths_grow_by_names() {
    let root = RelPath::root();
    assert_eq!(root.depth(), 0);
    let a = root.join(b"a");
    let ab = a.join(b"b c");
    assert_eq!(root.depth(), 0);
    assert_eq!(a.depth(), 1);
    assert_eq!(ab.depth(), 2);
    assert_eq!(ab.component(0), b"a");
    assert_eq!(ab.component(1), b"b c");
    let copy = ab.duplicate();
    assert_eq!(copy.depth(), 2);
    assert_eq!(copy.component(1), b"b c");
    let odd = root.join(&[0xff, 0xfe]);
    assert_eq!(odd.component(0), &[0xff, 0xfe]);
}

#[test]
fn name_sets() {
    let mut set = NameSet::new();
    assert!(!set.contains(b"a"));
    set.insert(b"a");
    set.insert(b"b");
    set.insert(b"a");
    assert!(set.contains(b"a"));
    assert!(set.contains(b"b"));
    assert!(!set.contains(b"c"));
    assert!(!set.contains(b""));
    assert!(!set.contains(b"ab"));
    set.insert(b"");
    assert!(set.contains(b""));
    assert_eq!(set.len(), 3);
}

#[test]
fn name_sets_hold_many_names_in_any_order() {
    let mut set = NameSet::new();
    let mut n: u32 = 7;
    let mut put = Vec::new();
    for _ in 0..500 {
        n = n.wrapping_mul(1_103_515_245).wrapping_add(12345);
        let name = format!("file-{}", n % 300).into_bytes();
        assert_eq!(set.contains(&name), put.contains(&name));
        set.insert(&name);
        if !put.contains(&name) {
            put.push(name);
        }
        assert_eq!(set.len(), put.len());
    }
    for i in 0..300 {
        let name = format!("file-{}", i).into_bytes();
        assert_eq!(set.contains(&name), put.contains(&name));
    }
    assert!(!set.contains(b"file-"));
    assert!(!set.contains(b"file-3000"));
}

#[test]
fn byte_strings_in_order() {
    assert_eq!(place_of(b"a", b"b"), Place::Before);
    assert_eq!(place_of(b"b", b"a"), Place::After);
    assert_eq!(place_of(b"a", b"a"), Place::Same);
    assert_eq!(place_of(b"", b""), Place::Same);
    assert_eq!(place_of(b"", b"a"), Place::Before);
    assert_eq!(place_of(b"ab", b"a"), Place::After);
    assert_eq!(place_of(b"ab", b"b"), Place::Before);
    assert_eq!(place_of(&[0xff], &[0x00, 0x01]), Place::After);
    let mut words: Vec<&[u8]> = vec![b"pear", b"", b"apple", b"app", b"z", b"apples"];
    let sorted = {
        let mut copy = words.clone();
        copy.sort();
        copy
    };
    for i in 0..words.len() {
        for j in 0..words.len() - 1 - i {
            if place_of(words[j], words[j + 1]) == Place::After {
                words.swap(j, j + 1);
            }
        }
    }
    assert_eq!(words, sorted);
}

#[test]
fn byte_strings() {
    assert!(bytes_equal(b"abc", b"abc"));
    assert!(bytes_equal(b"", b""));
    assert!(!bytes_equal(b"abc", b"abd"));
    assert!(!bytes_equal(b"abc", b"ab"));
    assert!(!bytes_equal(b"", b"a"));
    assert_eq!(copy_bytes(b"xyz"), b"xyz".to_vec());
    assert_eq!(copy_bytes(b""), Vec::<u8>::new());
    assert!(starts_with(b"system.x", b"system."));
    assert!(starts_with(b"abc", b""));
    assert!(starts_with(b"abc", b"abc"));
    assert!(!starts_with(b"ab", b"abc"));
    assert!(!starts_with(b"xbc", b"a"));
    let list = vec![b"one".to_vec(), b"two".to_vec()];
    assert!(contains_name(&list, b"two"));
    assert!(!contains_name(&list, b"three"));
    assert!(!contains_name(&Vec::new(), b"one"));
}
