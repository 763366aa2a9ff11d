use axyl_tickets::perms::{
    build_initial_overwrites, everyone_overwrite, find_everyone_role, member_overwrite, Overwrite,
    OverwriteSet, PermSet, Role, Subject,
};

fn full_perms() -> PermSet {
    PermSet { view_channel: true, send_messages: true, read_message_history: true }
}

fn no_perms() -> PermSet {
    PermSet { view_channel: false, send_messages: false, read_message_history: false }
}

fn view_only() -> PermSet {
    PermSet { view_channel: true, send_messages: false, read_message_history: false }
}

fn entries_of(set: &OverwriteSet) -> Vec<Overwrite> {
    let mut out = Vec::new();
    let mut i = 0;
    while i < set.len() {
        out.push(set.get(i));
        i += 1;
    }
    out
}

#[test]
fn member_overwrite_grants_full_participation() {
    let ow = member_overwrite(42);
    assert_eq!(ow.subject, Subject::Member { user_id: 42 });
    assert_eq!(ow.allow, full_perms());
    assert_eq!(ow.deny, no_perms());
}

#[test]
fn everyone_overwrite_denies_view_only() {
    let ow = everyone_overwrite(7);
    assert_eq!(ow.subject, Subject::Everyone { role_id: 7 });
    assert_eq!(ow.allow, no_perms());
    assert_eq!(ow.deny, view_only());
}

#[test]
fn initial_overwrites_hold_exactly_the_policy() {
    let set = build_initial_overwrites(1001, 2002);
    assert_eq!(set.len(), 2);
    assert_eq!(set.get(0), member_overwrite(1001));
    assert_eq!(set.get(1), everyone_overwrite(2002));
}

#[test]
fn add_then_remove_restores_the_set() {
    let mut set = build_initial_overwrites(1, 2);
    let before = entries_of(&set);
    set.add_member(55);
    set.remove_member(55);
    assert_eq!(entries_of(&set), before);
}

#[test]
fn add_member_appends_full_grant() {
    let mut set = build_initial_overwrites(1, 2);
    set.add_member(55);
    assert_eq!(set.len(), 3);
    assert_eq!(set.get(2), member_overwrite(55));
}

#[test]
fn add_member_is_idempotent() {
    let mut once = build_initial_overwrites(1, 2);
    once.add_member(55);
    let mut twice = build_initial_overwrites(1, 2);
    twice.add_member(55);
    twice.add_member(55);
    assert_eq!(entries_of(&once), entries_of(&twice));
}

#[test]
fn remove_member_leaves_no_overwrite_for_the_member() {
    let mut set = build_initial_overwrites(1, 2);
    set.add_member(55);
    set.remove_member(55);
    let entries = entries_of(&set);
    assert!(entries.iter().all(|ow| ow.subject != Subject::Member { user_id: 55 }));
}

#[test]
fn remove_absent_member_changes_nothing() {
    let mut set = build_initial_overwrites(1, 2);
    let before = entries_of(&set);
    set.remove_member(999);
    assert_eq!(entries_of(&set), before);
}

#[test]
fn empty_set_has_no_entries() {
    let set = OverwriteSet::empty();
    assert_eq!(set.len(), 0);
}

#[test]
fn find_everyone_role_locates_the_literal_name() {
    let roles = vec![
        Role { id: 10, name: String::from("admin") },
        Role { id: 20, name: String::from("@everyone") },
        Role { id: 30, name: String::from("mods") },
    ];
    assert_eq!(find_everyone_role(&roles), Some(20));
}

#[test]
fn find_everyone_role_takes_the_first_match() {
    let roles = vec![
        Role { id: 1, name: String::from("@everyone") },
        Role { id: 2, name: String::from("@everyone") },
    ];
    assert_eq!(find_everyone_role(&roles), Some(1));
}

#[test]
fn find_everyone_role_absent_is_reported() {
    let roles = vec![
        Role { id: 10, name: String::from("admin") },
        Role { id: 20, name: String::from("everyone") },
        Role { id: 30, name: String::from("@Everyone") },
    ];
    assert_eq!(find_everyone_role(&roles), None);
}

#[test]
fn find_everyone_role_empty_list() {
    let roles: Vec<Role> = Vec::new();
    assert_eq!(find_everyone_role(&roles), None);
}
