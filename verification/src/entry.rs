//! What the synchroniser knows about one filesystem entry.

use vstd::prelude::*;

verus! {

/// The type of a filesystem entry, as far as the synchroniser tells types apart.
#[derive(Clone, Copy, Debug, PartialEq, Eq, Structural)]
pub enum EntryKind {
    /// A regular file.
    Regular,
    /// A symbolic link; it is never followed.
    Symlink,
    /// A directory.
    Directory,
    /// Anything else: a device, a fifo, a socket.
    Other,
}

/// A modification time: whole seconds since the epoch and the nanoseconds within the second.
#[derive(Clone, Copy, Debug, PartialEq, Eq, Structural)]
pub struct Timestamp {
    pub secs: i64,
    pub nanos: u32,
}

/// The metadata of one entry, read without following symbolic links.
#[derive(Clone, Copy, Debug, PartialEq, Eq, Structural)]
pub struct EntryMeta {
    pub kind: EntryKind,
    /// Length in bytes; it only counts for regular files.
    pub size: u64,
    pub mode: u32,
    pub uid: u32,
    pub gid: u32,
    pub mtime: Timestamp,
}

/// Two entries are up to date with each other when type, mode, owner, group and
/// modification time agree, and, for regular files, the length as well.
pub open spec fn same_metadata(a: EntryMeta, b: EntryMeta) -> bool {
    &&& a.kind == b.kind
    &&& (a.kind == EntryKind::Regular ==> a.size == b.size)
    &&& a.mode == b.mode
    &&& a.uid == b.uid
    &&& a.gid == b.gid
    &&& a.mtime == b.mtime
}

/// Decides whether `b` can stand for `a` without being copied again.
pub fn metadata_equal(a: &EntryMeta, b: &EntryMeta) -> (equal: bool)
    ensures
        equal == same_metadata(*a, *b),
{
    if a.kind != b.kind {
        return false;
    }
    if a.kind == EntryKind::Regular && a.size != b.size {
        return false;
    }
    if a.mode != b.mode {
        return false;
    }
    if a.uid != b.uid {
        return false;
    }
    if a.gid != b.gid {
        return false;
    }
    if a.mtime.secs != b.mtime.secs || a.mtime.nanos != b.mtime.nanos {
        return false;
    }
    true
}

} // verus!
