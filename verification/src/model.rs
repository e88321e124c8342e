//! What a whole run comes to, on a tree of entries held as mathematics.
//!
//! The model follows the decisions of the scan, [`materialize`] and
//! [`reconcile`], and takes every operation that they lead to as done: a copy
//! puts the source's entry at the target, a removal takes the target's entry
//! away, and a directory handed to the scan queue is brought up to date in
//! turn. Of directories it keeps the metadata that is compared; their sizes are
//! not modelled.

use vstd::prelude::*;
use crate::copy::copyable;
use crate::entry::{same_metadata, EntryKind, EntryMeta};
use crate::scan::{
    materialize, reconcile, Command, Event, JobState, Phase, ProbeResult, Removal, SourceItem,
};

verus! {

/// An entry with all that is below it.
pub enum Node {
    /// A file, a link or another entry that holds no entries; `body` is the
    /// contents of a file and the text of a link.
    Leaf { meta: EntryMeta, body: Seq<u8> },
    /// A directory.
    Dir { meta: EntryMeta, entries: Map<Seq<u8>, Node> },
}

impl Node {
    /// The metadata of the entry itself.
    pub open spec fn meta(self) -> EntryMeta {
        match self {
            Node::Leaf { meta, .. } => meta,
            Node::Dir { meta, .. } => meta,
        }
    }

    /// The entries of a directory; a leaf has none.
    pub open spec fn entries(self) -> Map<Seq<u8>, Node> {
        match self {
            Node::Leaf { .. } => Map::empty(),
            Node::Dir { entries, .. } => entries,
        }
    }

    /// The entry called `name`, if there is one.
    pub open spec fn entry(self, name: Seq<u8>) -> Option<Node> {
        if self.entries().dom().contains(name) {
            Some(self.entries()[name])
        } else {
            None
        }
    }

    /// The tree is one that a filesystem can hold: directories, and only they,
    /// are of the directory type, and each holds finitely many entries.
    pub open spec fn well_formed(self) -> bool
        decreases self,
    {
        match self {
            Node::Leaf { meta, .. } => meta.kind != EntryKind::Directory,
            Node::Dir { meta, entries } => {
                &&& meta.kind == EntryKind::Directory
                &&& entries.dom().finite()
                &&& forall|name: Seq<u8>|
                    entries.dom().contains(name) ==> (#[trigger] entries[name]).well_formed()
            },
        }
    }

    /// Whether all that the tree holds beside directories can be copied:
    /// regular files and links.
    pub open spec fn all_copyable(self) -> bool
        decreases self,
    {
        match self {
            Node::Leaf { meta, .. } => copyable(meta.kind),
            Node::Dir { entries, .. } => entries.dom().finite() ==> forall|name: Seq<u8>|
                entries.dom().contains(name) ==> (#[trigger] entries[name]).all_copyable(),
        }
    }
}

/// What the scan begins with for a source entry, given what the target has in
/// its place; a target entry of another type is taken as removed, and the work
/// goes on as with none.
pub open spec fn first_phase(source: EntryMeta, check_target: bool, target: Option<Node>) -> Phase {
    if !check_target {
        materialize(source)
    } else {
        match target {
            None => materialize(source),
            Some(found) => match reconcile(source, found.meta()) {
                Phase::Replacing { source, .. } => materialize(source),
                phase => phase,
            },
        }
    }
}

/// What is left at the target of what it had, when the work on the entry
/// begins: nothing, where it had nothing or something of another type.
pub open spec fn remaining(source: EntryMeta, check_target: bool, target: Option<Node>) -> Option<
    Node,
> {
    match target {
        Some(found) if check_target && source.kind == found.meta().kind => target,
        _ => None,
    }
}

/// What the target has in place of `source` after the run, where it had
/// `target` before.
pub open spec fn synced(source: Node, check_target: bool, target: Option<Node>) -> Option<Node>
    decreases source, 2int,
{
    let before = remaining(source.meta(), check_target, target);
    match first_phase(source.meta(), check_target, target) {
        Phase::QueueingCopy { .. } => if copyable(source.meta().kind) {
            Some(source)
        } else {
            before
        },
        Phase::Creating { .. } => Some(
            Node::Dir {
                meta: source.meta(),
                entries: synced_entries(source, false, Map::empty()),
            },
        ),
        Phase::Refreshing { .. } => Some(
            Node::Dir {
                meta: source.meta(),
                entries: synced_entries(source, true, before.unwrap().entries()),
            },
        ),
        Phase::QueueingScan { .. } => Some(
            Node::Dir {
                meta: before.unwrap().meta(),
                entries: synced_entries(source, true, before.unwrap().entries()),
            },
        ),
        _ => before,
    }
}

/// What the target directory holds after the scan of the directory `source`,
/// where it held `target` before: for each entry of the source, and for no
/// other name, what the run puts in its place.
pub open spec fn synced_entries(source: Node, check_target: bool, target: Map<Seq<u8>, Node>) -> Map<
    Seq<u8>,
    Node,
>
    decreases source, 1int,
{
    match source {
        Node::Leaf { .. } => Map::empty(),
        Node::Dir { entries, .. } => Map::new(
            |name: Seq<u8>|
                entries.dom().finite() && entries.dom().contains(name) && synced_entry(
                    source,
                    name,
                    check_target,
                    target,
                ) is Some,
            |name: Seq<u8>| synced_entry(source, name, check_target, target).unwrap(),
        ),
    }
}

/// What the target has under `name` after the scan of the directory `source`.
pub open spec fn synced_entry(
    source: Node,
    name: Seq<u8>,
    check_target: bool,
    target: Map<Seq<u8>, Node>,
) -> Option<Node>
    decreases source, 0int,
{
    match source {
        Node::Dir { entries, .. } if entries.dom().finite() && entries.dom().contains(name) => {
            synced(
                entries[name],
                check_target,
                if target.dom().contains(name) {
                    Some(target[name])
                } else {
                    None
                },
            )
        },
        _ => None,
    }
}

/// The model begins the work on an entry where a job does: once the job has
/// read the entry, has learnt what the target has in its place if it compares,
/// and has had a target entry of another type removed, it stands in the phase
/// that the model takes as the first, with the entry in hand.
pub proof fn lemma_model_follows_the_scan(
    state: JobState,
    name: Vec<u8>,
    source: EntryMeta,
    target: Option<Node>,
    entries: usize,
    bytes: u64,
)
    requires
        state.phase is Listing,
    ensures
        ({
            let read = state.next(Event::Source(SourceItem::Entry { name, meta: source }));
            let probed = if !state.check_target {
                read
            } else {
                read.next(
                    Event::Probed(
                        match target {
                            None => ProbeResult::Missing,
                            Some(found) => ProbeResult::Found(found.meta()),
                        },
                    ),
                )
            };
            let cleared = if probed.phase is Replacing {
                probed.next(Event::Removed(Removal::Done { entries, bytes }))
            } else {
                probed
            };
            &&& cleared.phase == first_phase(source, state.check_target, target)
            &&& cleared.child == state.dir.push(name@)
            &&& cleared.seen == state.seen.insert(name@)
            &&& read.command() == if state.check_target {
                Command::Probe
            } else {
                cleared.command()
            }
        }),
{
}

/// The work that the model takes as done is the work that a job asks for: a
/// directory that is made is then scanned without comparing, one that is
/// refreshed is then scanned with comparing, and after an entry was handed to
/// a queue the job reads on.
pub proof fn lemma_model_follows_the_work(state: JobState)
    ensures
        state.phase is Creating ==> state.command() == Command::CopyDirectory && state.next(
            Event::DirectoryCopied { ok: true },
        ).command() == (Command::EnqueueScan { check_target: false }),
        state.phase is Refreshing ==> state.command() == Command::CopyDirectory && state.next(
            Event::DirectoryCopied { ok: true },
        ).command() == (Command::EnqueueScan { check_target: true }),
        state.phase matches Phase::QueueingScan { check_target, .. } ==> state.command() == (
        Command::EnqueueScan { check_target }) && state.next(Event::Enqueued).phase
            == Phase::Listing,
        state.phase is QueueingCopy ==> state.command() == Command::EnqueueCopy && state.next(
            Event::Enqueued,
        ).phase == Phase::Listing,
{
}

/// What the target had under `name` in the directory `target`, if that is one.
pub open spec fn child_of(target: Option<Node>, name: Seq<u8>) -> Option<Node> {
    match target {
        Some(found) => found.entry(name),
        None => None,
    }
}

/// `result` stands for `source`: it is of the same type and has the same
/// metadata; a directory holds the same names, and what it holds under each
/// stands for what the source holds under it; a file has the source's
/// contents and a link its text, unless it is what `target` had there before,
/// with metadata that agreed.
pub open spec fn replicates(result: Node, source: Node, target: Option<Node>) -> bool
    decreases source,
{
    &&& same_metadata(source.meta(), result.meta())
    &&& match source {
        Node::Leaf { body, .. } => {
            &&& result is Leaf
            &&& (result->body == body || target == Some(result))
        },
        Node::Dir { entries, .. } => {
            &&& result is Dir
            &&& result.entries().dom() == entries.dom()
            &&& entries.dom().finite() ==> forall|name: Seq<u8>|
                entries.dom().contains(name) ==> replicates(
                    #[trigger] result.entries()[name],
                    entries[name],
                    child_of(target, name),
                )
        },
    }
}

/// Whatever the target held, after the run it holds a replica of the source:
/// the same names in every directory, each entry of the source's type and with
/// its metadata. What only the target had is gone, and what was of another
/// type is replaced.
pub proof fn lemma_run_converges(source: Node, check_target: bool, target: Option<Node>)
    requires
        source.well_formed(),
        source.all_copyable(),
        check_target || target is None,
        target matches Some(found) ==> found.well_formed(),
    ensures
        synced(source, check_target, target) matches Some(result) && replicates(
            result,
            source,
            target,
        ) && result.well_formed(),
    decreases source,
{
    let before = remaining(source.meta(), check_target, target);
    let phase = first_phase(source.meta(), check_target, target);
    match source {
        Node::Leaf { meta, body } => {
            match phase {
                Phase::QueueingCopy { .. } => {},
                Phase::Listing => {
                    assert(before == target);
                },
                _ => {},
            }
        },
        Node::Dir { meta, entries } => {
            let held = match phase {
                Phase::Creating { .. } => Map::<Seq<u8>, Node>::empty(),
                _ => before.unwrap().entries(),
            };
            let check = !(phase is Creating);
            assert(phase is Creating || phase is Refreshing || phase is QueueingScan);
            let result = synced(source, check_target, target).unwrap();
            assert(result.entries() == synced_entries(source, check, held));
            assert forall|name: Seq<u8>| entries.dom().contains(name) implies ({
                &&& #[trigger] result.entries().dom().contains(name)
                &&& replicates(result.entries()[name], entries[name], child_of(target, name))
                &&& result.entries()[name].well_formed()
            }) by {
                let below = if held.dom().contains(name) {
                    Some(held[name])
                } else {
                    None
                };
                if phase is Creating {
                    assert(below is None);
                } else {
                    assert(before == target);
                    assert(below == child_of(target, name));
                    if below is Some {
                        assert(target.unwrap().well_formed());
                        assert(target.unwrap().entries()[name].well_formed());
                    }
                }
                lemma_run_converges(entries[name], check, below);
                assert(synced_entry(source, name, check, held) == synced(
                    entries[name],
                    check,
                    below,
                ));
                if phase is Creating {
                    lemma_unchanged_counts_for_nothing(
                        result.entries()[name],
                        entries[name],
                        child_of(target, name),
                    );
                }
            }
            assert(result.entries().dom() =~= entries.dom());
        },
    }
}

/// What stands for the source given that the target had nothing, stands for
/// it whatever the target had.
proof fn lemma_unchanged_counts_for_nothing(result: Node, source: Node, target: Option<Node>)
    requires
        replicates(result, source, None),
    ensures
        replicates(result, source, target),
    decreases source,
{
    match source {
        Node::Leaf { .. } => {},
        Node::Dir { entries, .. } => {
            if entries.dom().finite() {
                assert forall|name: Seq<u8>| entries.dom().contains(name) implies replicates(
                    #[trigger] result.entries()[name],
                    entries[name],
                    child_of(target, name),
                ) by {
                    assert(child_of(None, name) is None);
                    lemma_unchanged_counts_for_nothing(
                        result.entries()[name],
                        entries[name],
                        child_of(target, name),
                    );
                }
            }
        },
    }
}

/// Onto a target that holds nothing, the run puts the source tree itself:
/// every entry with its type, metadata, contents and link text.
pub proof fn lemma_replicates_into_nothing(source: Node, check_target: bool)
    requires
        source.well_formed(),
        source.all_copyable(),
    ensures
        synced(source, check_target, None) == Some(source),
    decreases source,
{
    match source {
        Node::Leaf { .. } => {},
        Node::Dir { meta, entries } => {
            let made = synced_entries(source, false, Map::empty());
            assert forall|name: Seq<u8>| #[trigger]
                entries.dom().contains(name) implies made.dom().contains(name) && made[name]
                == entries[name] by {
                lemma_replicates_into_nothing(entries[name], false);
                assert(synced_entry(source, name, false, Map::empty()) == synced(
                    entries[name],
                    false,
                    None,
                ));
            }
            assert(made =~= entries);
        },
    }
}

/// A second run right after the first changes nothing: what the first run
/// left is what the second leaves.
pub proof fn lemma_second_run_changes_nothing(
    source: Node,
    check_target: bool,
    target: Option<Node>,
    once: Node,
)
    requires
        source.well_formed(),
        source.all_copyable(),
        check_target || target is None,
        target matches Some(found) ==> found.well_formed(),
        synced(source, check_target, target) == Some(once),
    ensures
        synced(source, true, Some(once)) == Some(once),
    decreases source,
{
    lemma_run_converges(source, check_target, target);
    match source {
        Node::Leaf { .. } => {},
        Node::Dir { meta, entries } => {
            let before = remaining(source.meta(), check_target, target);
            let phase = first_phase(source.meta(), check_target, target);
            let held = match phase {
                Phase::Creating { .. } => Map::<Seq<u8>, Node>::empty(),
                _ => before.unwrap().entries(),
            };
            let check = !(phase is Creating);
            assert(phase is Creating || phase is Refreshing || phase is QueueingScan);
            assert(once.entries() == synced_entries(source, check, held));
            let again = synced_entries(source, true, once.entries());
            assert forall|name: Seq<u8>| entries.dom().contains(name) implies again.dom().contains(
                name,
            ) && #[trigger] again[name] == once.entries()[name] by {
                let below = if held.dom().contains(name) {
                    Some(held[name])
                } else {
                    None
                };
                if !(phase is Creating) {
                    assert(before == target);
                    if below is Some {
                        assert(target.unwrap().entries()[name].well_formed());
                    }
                }
                assert(synced_entry(source, name, check, held) == synced(
                    entries[name],
                    check,
                    below,
                ));
                lemma_run_converges(entries[name], check, below);
                assert(once.entries().dom().contains(name));
                lemma_second_run_changes_nothing(
                    entries[name],
                    check,
                    below,
                    once.entries()[name],
                );
                assert(synced_entry(source, name, true, once.entries()) == synced(
                    entries[name],
                    true,
                    Some(once.entries()[name]),
                ));
            }
            assert(once.entries().dom() =~= entries.dom());
            assert(again =~= once.entries());
        },
    }
}

} // verus!
