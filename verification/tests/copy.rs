use fast_local_sync::copy::{
    copy_directory, copy_extended_metadata, copy_file, copy_metadata, tolerates, CopyError, Failure,
    Features, FsOp,
};
use fast_local_sync::entry::{EntryKind, EntryMeta, Timestamp};

const PLAIN: Features = Features { acl: false, xattr: false };
const ALL: Features = Features { acl: true, xattr: true };

fn source(kind: EntryKind) -> EntryMeta {
    EntryMeta { kind, size: 3, mode: 0o100640, uid: 11, gid: 22, mtime: Timestamp { secs: 5, nanos: 6 } }
}

fn times() -> FsOp {
    FsOp::SetTimes {
        accessed: Timestamp { secs: 5, nanos: 6 },
        modified: Timestamp { secs: 5, nanos: 6 },
    }
}

#[test]
fn a_regular_file_is_copied_and_dressed() {
    assert_eq!(
        copy_file(&source(EntryKind::Regular), PLAIN),
        Ok(vec![
            FsOp::CopyContents,
            FsOp::SetOwner { uid: 11, gid: 22 },
            FsOp::SetMode { mode: 0o100640 },
            times(),
        ])
    );
}

#[test]
fn a_link_is_made_anew_and_gets_no_mode() {
    assert_eq!(
        copy_file(&source(EntryKind::Symlink), ALL),
        Ok(vec![
            FsOp::ReadLink,
            FsOp::RemoveTarget,
            FsOp::CreateSymlink,
            FsOp::SetOwner { uid: 11, gid: 22 },
            times(),
            FsOp::CopyAccessAcl,
            FsOp::SyncXattrs,
        ])
    );
}

#[test]
fn other_entries_are_refused() {
    assert_eq!(copy_file(&source(EntryKind::Other), PLAIN), Err(CopyError::UnsupportedKind));
    assert_eq!(copy_file(&source(EntryKind::Directory), ALL), Err(CopyError::UnsupportedKind));
}

#[test]
fn a_directory_is_made_and_dressed() {
    assert_eq!(
        copy_directory(&source(EntryKind::Directory), ALL),
        vec![
            FsOp::CreateDirectory,
            FsOp::SetOwner { uid: 11, gid: 22 },
            FsOp::SetMode { mode: 0o100640 },
            times(),
            FsOp::CopyAccessAcl,
            FsOp::CopyDefaultAcl,
            FsOp::SyncXattrs,
        ]
    );
    assert_eq!(
        copy_directory(&source(EntryKind::Directory), PLAIN),
        vec![
            FsOp::CreateDirectory,
            FsOp::SetOwner { uid: 11, gid: 22 },
            FsOp::SetMode { mode: 0o100640 },
            times(),
        ]
    );
}

#[test]
fn access_time_is_the_modification_time() {
    let ops = copy_metadata(&source(EntryKind::Regular), PLAIN);
    assert_eq!(ops[2], times());
}

#[test]
fn extended_metadata_follows_the_features() {
    assert_eq!(copy_extended_metadata(true, PLAIN), vec![]);
    assert_eq!(copy_extended_metadata(false, PLAIN), vec![]);
    assert_eq!(
        copy_extended_metadata(false, Features { acl: true, xattr: false }),
        vec![FsOp::CopyAccessAcl]
    );
    assert_eq!(
        copy_extended_metadata(true, Features { acl: true, xattr: false }),
        vec![FsOp::CopyAccessAcl, FsOp::CopyDefaultAcl]
    );
    assert_eq!(
        copy_extended_metadata(true, Features { acl: false, xattr: true }),
        vec![FsOp::SyncXattrs]
    );
    assert_eq!(copy_extended_metadata(false, ALL), vec![FsOp::CopyAccessAcl, FsOp::SyncXattrs]);
}

#[test]
fn only_two_failures_are_tolerated() {
    let ops = [
        FsOp::ReadLink,
        FsOp::RemoveTarget,
        FsOp::CreateSymlink,
        FsOp::CopyContents,
        FsOp::CreateDirectory,
        FsOp::SetOwner { uid: 0, gid: 0 },
        FsOp::SetMode { mode: 0 },
        times(),
        FsOp::CopyAccessAcl,
        FsOp::CopyDefaultAcl,
        FsOp::SyncXattrs,
    ];
    let failures = [Failure::NotFound, Failure::AlreadyExists, Failure::Other];
    for op in ops {
        for failure in failures {
            let expected = (op == FsOp::RemoveTarget && failure == Failure::NotFound)
                || (op == FsOp::CreateDirectory && failure == Failure::AlreadyExists);
            assert_eq!(tolerates(op, failure), expected);
        }
    }
}
