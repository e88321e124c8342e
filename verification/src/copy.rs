//! Making one entry of the target a replica of its source entry.
//!
//! The functions here turn the metadata of a source entry into the operations
//! to perform on the target, in order. Whoever performs them stops at the first
//! operation that fails, unless [`tolerates`] says that the failure is none.

use vstd::prelude::*;
use crate::entry::{EntryKind, EntryMeta, Timestamp};

verus! {

/// What is replicated beyond owner, mode and times.
#[derive(Clone, Copy, Debug, PartialEq, Eq, Structural)]
pub struct Features {
    /// Access control lists.
    pub acl: bool,
    /// Extended attributes.
    pub xattr: bool,
}

/// One operation on the target entry. None of them follows a symbolic link at
/// the target.
#[derive(Clone, Copy, Debug, PartialEq, Eq, Structural)]
pub enum FsOp {
    /// Read the text of the source link.
    ReadLink,
    /// Remove what stands at the target.
    RemoveTarget,
    /// Make the target a link with the text that was read.
    CreateSymlink,
    /// Copy the bytes of the source file to the target, replacing what it held.
    CopyContents,
    /// Make the target a directory.
    CreateDirectory,
    /// Give the target this owner and group.
    SetOwner { uid: u32, gid: u32 },
    /// Give the target these mode bits.
    SetMode { mode: u32 },
    /// Give the target these access and modification times.
    SetTimes { accessed: Timestamp, modified: Timestamp },
    /// Give the target the access ACL of the source.
    CopyAccessAcl,
    /// Give the target the default ACL of the source.
    CopyDefaultAcl,
    /// Make the extended attributes of the target those of the source.
    SyncXattrs,
}

/// Why an operation failed, as far as it matters here.
#[derive(Clone, Copy, Debug, PartialEq, Eq, Structural)]
pub enum Failure {
    /// What was to be removed or read is not there.
    NotFound,
    /// What was to be made is there already.
    AlreadyExists,
    /// Any other reason.
    Other,
}

/// Why an entry cannot be copied.
#[derive(Clone, Copy, Debug, PartialEq, Eq, Structural)]
pub enum CopyError {
    /// The source entry is neither a regular file nor a symbolic link.
    UnsupportedKind,
}

/// The entries that [`copy_file`] copies: regular files and symbolic links.
pub open spec fn copyable(kind: EntryKind) -> bool {
    kind == EntryKind::Regular || kind == EntryKind::Symlink
}

/// The operations that bring ACLs and extended attributes over.
pub open spec fn extended_steps(is_dir: bool, features: Features) -> Seq<FsOp> {
    let acl = if !features.acl {
        Seq::<FsOp>::empty()
    } else if is_dir {
        seq![FsOp::CopyAccessAcl, FsOp::CopyDefaultAcl]
    } else {
        seq![FsOp::CopyAccessAcl]
    };
    let xattr = if features.xattr {
        seq![FsOp::SyncXattrs]
    } else {
        Seq::<FsOp>::empty()
    };
    acl + xattr
}

/// The operations that bring the metadata of `source` over: owner and group;
/// the mode, but not to a link; the modification time, as both times of the
/// target; then ACLs and extended attributes.
pub open spec fn metadata_steps(source: EntryMeta, features: Features) -> Seq<FsOp> {
    let owner = seq![FsOp::SetOwner { uid: source.uid, gid: source.gid }];
    let mode = if source.kind == EntryKind::Symlink {
        Seq::<FsOp>::empty()
    } else {
        seq![FsOp::SetMode { mode: source.mode }]
    };
    let times = seq![FsOp::SetTimes { accessed: source.mtime, modified: source.mtime }];
    owner + mode + times + extended_steps(source.kind == EntryKind::Directory, features)
}

/// The operations that put a copy of the source entry itself at the target.
pub open spec fn content_steps(kind: EntryKind) -> Seq<FsOp> {
    match kind {
        EntryKind::Symlink => seq![FsOp::ReadLink, FsOp::RemoveTarget, FsOp::CreateSymlink],
        EntryKind::Regular => seq![FsOp::CopyContents],
        _ => Seq::<FsOp>::empty(),
    }
}

/// Whether operation `op` counts as done although it failed with `failure`:
/// removing what is not there, and making a directory that is there.
pub open spec fn tolerated(op: FsOp, failure: Failure) -> bool {
    ||| op == FsOp::RemoveTarget && failure == Failure::NotFound
    ||| op == FsOp::CreateDirectory && failure == Failure::AlreadyExists
}

/// Whether to go on after `op` failed with `failure`.
pub fn tolerates(op: FsOp, failure: Failure) -> (go_on: bool)
    ensures
        go_on == tolerated(op, failure),
{
    match op {
        FsOp::RemoveTarget => match failure {
            Failure::NotFound => true,
            _ => false,
        },
        FsOp::CreateDirectory => match failure {
            Failure::AlreadyExists => true,
            _ => false,
        },
        _ => false,
    }
}

fn append_ops(ops: &mut Vec<FsOp>, more: &Vec<FsOp>)
    ensures
        final(ops)@ == old(ops)@ + more@,
{
    let n = more.len();
    let mut i: usize = 0;
    while i < n
        invariant
            n == more@.len(),
            i <= n,
            ops@ == old(ops)@ + more@.subrange(0, i as int),
        decreases n - i,
    {
        ops.push(more[i]);
        i = i + 1;
    }
    assert(more@.subrange(0, n as int) =~= more@);
}

/// The operations that bring ACLs and extended attributes over to an entry that
/// is a directory or not, as far as `features` asks for them.
pub fn copy_extended_metadata(is_dir: bool, features: Features) -> (ops: Vec<FsOp>)
    ensures
        ops@ == extended_steps(is_dir, features),
{
    let mut ops: Vec<FsOp> = Vec::new();
    if features.acl {
        ops.push(FsOp::CopyAccessAcl);
        if is_dir {
            ops.push(FsOp::CopyDefaultAcl);
        }
    }
    if features.xattr {
        ops.push(FsOp::SyncXattrs);
    }
    assert(ops@ =~= extended_steps(is_dir, features));
    ops
}

/// The operations that give the target the metadata of `source`.
pub fn copy_metadata(source: &EntryMeta, features: Features) -> (ops: Vec<FsOp>)
    ensures
        ops@ == metadata_steps(*source, features),
{
    let mut ops: Vec<FsOp> = Vec::new();
    ops.push(FsOp::SetOwner { uid: source.uid, gid: source.gid });
    if source.kind != EntryKind::Symlink {
        ops.push(FsOp::SetMode { mode: source.mode });
    }
    ops.push(FsOp::SetTimes { accessed: source.mtime, modified: source.mtime });
    let extended = copy_extended_metadata(source.kind == EntryKind::Directory, features);
    append_ops(&mut ops, &extended);
    assert(ops@ =~= metadata_steps(*source, features));
    ops
}

/// The operations that make the target a directory with the metadata of
/// `source`, whether or not the target is one already.
pub fn copy_directory(source: &EntryMeta, features: Features) -> (ops: Vec<FsOp>)
    ensures
        ops@ == seq![FsOp::CreateDirectory] + metadata_steps(*source, features),
{
    let mut ops: Vec<FsOp> = Vec::new();
    ops.push(FsOp::CreateDirectory);
    let metadata = copy_metadata(source, features);
    append_ops(&mut ops, &metadata);
    assert(ops@ =~= seq![FsOp::CreateDirectory] + metadata_steps(*source, features));
    ops
}

/// The operations that make the target a copy of the source entry, which has to
/// be a regular file or a symbolic link; anything else is refused.
pub fn copy_file(source: &EntryMeta, features: Features) -> (plan: Result<Vec<FsOp>, CopyError>)
    ensures
        match plan {
            Ok(ops) => copyable(source.kind) && ops@ == content_steps(source.kind)
                + metadata_steps(*source, features),
            Err(error) => !copyable(source.kind) && error == CopyError::UnsupportedKind,
        },
{
    let mut ops: Vec<FsOp> = Vec::new();
    match source.kind {
        EntryKind::Symlink => {
            ops.push(FsOp::ReadLink);
            ops.push(FsOp::RemoveTarget);
            ops.push(FsOp::CreateSymlink);
        },
        EntryKind::Regular => {
            ops.push(FsOp::CopyContents);
        },
        _ => {
            return Err(CopyError::UnsupportedKind);
        },
    }
    assert(ops@ =~= content_steps(source.kind));
    let metadata = copy_metadata(source, features);
    append_ops(&mut ops, &metadata);
    Ok(ops)
}

/// A symbolic link is replicated as a link: its text is read and a link with
/// that text is made. Its contents are never copied, and no mode is set, which
/// would reach through the link.
pub proof fn lemma_symlink_stays_a_link(source: EntryMeta, features: Features)
    requires
        source.kind == EntryKind::Symlink,
    ensures
        ({
            let ops = content_steps(source.kind) + metadata_steps(source, features);
            &&& ops[0] == FsOp::ReadLink
            &&& ops[1] == FsOp::RemoveTarget
            &&& ops[2] == FsOp::CreateSymlink
            &&& forall|i: int|
                0 <= i < ops.len() ==> ops[i] != FsOp::CopyContents && !(ops[i] is SetMode)
                    && ops[i] != FsOp::CreateDirectory
        }),
{
}

/// Whatever is copied gets the owner, the group and the modification time of
/// its source, the latter as its access time too, and, unless it is a link,
/// the mode.
pub proof fn lemma_metadata_is_brought_over(source: EntryMeta, features: Features)
    ensures
        ({
            let ops = metadata_steps(source, features);
            &&& ops.contains(FsOp::SetOwner { uid: source.uid, gid: source.gid })
            &&& ops.contains(FsOp::SetTimes { accessed: source.mtime, modified: source.mtime })
            &&& source.kind != EntryKind::Symlink ==> ops.contains(
                FsOp::SetMode { mode: source.mode },
            )
        }),
{
    let ops = metadata_steps(source, features);
    assert(ops[0] == (FsOp::SetOwner { uid: source.uid, gid: source.gid }));
    if source.kind != EntryKind::Symlink {
        assert(ops[1] == (FsOp::SetMode { mode: source.mode }));
        assert(ops[2] == (FsOp::SetTimes { accessed: source.mtime, modified: source.mtime }));
    } else {
        assert(ops[1] == (FsOp::SetTimes { accessed: source.mtime, modified: source.mtime }));
    }
}

} // verus!
