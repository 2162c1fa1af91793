use rooted_vfs::permissions::{same_text, Permission, VfsOperations};

const ALL: [Permission; 8] = [
    Permission::MakeDir,
    Permission::RemoveDir,
    Permission::Delete,
    Permission::Rename,
    Permission::Checksum,
    Permission::Get,
    Permission::Put,
    Permission::List,
];

fn tokens(ts: &[&str]) -> Vec<String> {
    ts.iter().map(|t| t.to_string()).collect()
}

fn granted(ops: VfsOperations) -> Vec<Permission> {
    ALL.iter().copied().filter(|p| ops.contains(*p)).collect()
}

#[test]
fn empty_grants_nothing_and_all_grants_everything() {
    assert!(granted(VfsOperations::empty()).is_empty());
    assert_eq!(ALL.to_vec(), granted(VfsOperations::all()));
}

#[test]
fn with_and_without_change_one_flag() {
    let ops = VfsOperations::empty().with(Permission::Put).with(Permission::List);
    assert_eq!(vec![Permission::Put, Permission::List], granted(ops));
    let ops = ops.without(Permission::Put);
    assert_eq!(vec![Permission::List], granted(ops));
    assert_eq!(ops, ops.without(Permission::Get));
    assert_eq!(ops, ops.with(Permission::List));
}

#[test]
fn no_tokens_grant_everything() {
    assert_eq!(VfsOperations::all(), VfsOperations::from_tokens(&tokens(&[])));
}

#[test]
fn none_then_additions() {
    let ops = VfsOperations::from_tokens(&tokens(&["none", "+get", "+list"]));
    assert_eq!(vec![Permission::Get, Permission::List], granted(ops));
}

#[test]
fn removals_from_all() {
    let ops = VfsOperations::from_tokens(&tokens(&["-del", "-ren", "-mkdir", "-rmdir"]));
    assert_eq!(
        vec![Permission::Checksum, Permission::Get, Permission::Put, Permission::List],
        granted(ops)
    );
}

#[test]
fn all_resets_after_removals() {
    let ops = VfsOperations::from_tokens(&tokens(&["-put", "all"]));
    assert_eq!(VfsOperations::all(), ops);
    let ops = VfsOperations::from_tokens(&tokens(&["-put", "none"]));
    assert_eq!(VfsOperations::empty(), ops);
}

#[test]
fn unknown_tokens_are_ignored() {
    let ops = VfsOperations::from_tokens(&tokens(&["none", "+md5", "+bogus", "md5", "*put", ""]));
    assert_eq!(vec![Permission::Checksum], granted(ops));
}

#[test]
fn each_token_name_maps_to_its_flag() {
    let names = ["mkdir", "rmdir", "del", "ren", "md5", "get", "put", "list"];
    for (name, p) in names.iter().zip(ALL.iter()) {
        let ops = VfsOperations::empty().apply_token(&format!("+{}", name));
        assert_eq!(vec![*p], granted(ops));
        let ops = VfsOperations::all().apply_token(&format!("-{}", name));
        assert!(!ops.contains(*p));
        assert_eq!(7, granted(ops).len());
    }
}

#[test]
fn same_text_compares_characters() {
    assert!(same_text("", ""));
    assert!(same_text("été", "été"));
    assert!(!same_text("abc", "abd"));
    assert!(!same_text("ab", "abc"));
}
