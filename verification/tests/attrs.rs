use fast_local_sync::attrs::{attrs_to_copy, attrs_to_remove, is_system_attr};

fn list(names: &[&str]) -> Vec<Vec<u8>> {
    names.iter().map(|n| n.as_bytes().to_vec()).collect()
}

#[test]
fn system_names_are_reserved() {
    assert!(is_system_attr(b"system.posix_acl_access"));
    assert!(is_system_attr(b"system."));
    assert!(!is_system_attr(b"system"));
    assert!(!is_system_attr(b"System.x"));
    assert!(!is_system_attr(b"user.system."));
    assert!(!is_system_attr(b"systemd.x"));
    assert!(!is_system_attr(b""));
    assert!(!is_system_attr(b"user.mime_type"));
    assert!(!is_system_attr(b"security.selinux"));
}

#[test]
fn reserved_attributes_are_not_copied() {
    let source = list(&["user.a", "system.posix_acl_access", "trusted.b", "system.x", "user.c"]);
    assert_eq!(attrs_to_copy(&source), list(&["user.a", "trusted.b", "user.c"]));
    assert_eq!(attrs_to_copy(&list(&[])), list(&[]));
    assert_eq!(attrs_to_copy(&list(&["system.only"])), list(&[]));
}

#[test]
fn stale_attributes_are_removed() {
    let target = list(&["user.a", "user.old", "system.posix_acl_default", "user.c", "trusted.z"]);
    let kept = list(&["user.a", "user.c"]);
    assert_eq!(attrs_to_remove(&target, &kept), list(&["user.old", "trusted.z"]));
    assert_eq!(attrs_to_remove(&target, &list(&[])), list(&["user.a", "user.old", "user.c", "trusted.z"]));
    assert_eq!(attrs_to_remove(&kept, &kept), list(&[]));
}

#[test]
fn attributes_end_up_those_of_the_source() {
    let source = list(&["user.a", "system.s", "user.b"]);
    let mut target = list(&["user.b", "user.x", "system.t"]);
    let copied = attrs_to_copy(&source);
    for name in &copied {
        if !target.contains(name) {
            target.push(name.clone());
        }
    }
    let gone = attrs_to_remove(&target, &copied);
    target.retain(|name| !gone.contains(name));
    target.sort();
    assert_eq!(target, list(&["system.t", "user.a", "user.b"]));
}
