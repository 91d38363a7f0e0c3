use uzers::AllUsers;
use uzers::Users;
use uzers::record::User;
use uzers::snapshot::UsersSnapshot;

fn sample_users() -> Vec<User> {
    vec![
        User::new(0, 0, "root".to_string()),
        User::new(501, 20, "alice".to_string()),
        User::new(1000, 1000, "bob".to_string()),
    ]
}

#[test]
fn snapshot_holds_exactly_the_given_records() {
    let snapshot = UsersSnapshot::from_users(&sample_users(), 501, 501);

    let mut listed = snapshot.all_users();
    listed.sort_by_key(|u| u.uid);
    assert_eq!(listed.len(), 3);
    assert_eq!(listed[0].name, "root");
    assert_eq!(listed[1].name, "alice");
    assert_eq!(listed[2].name, "bob");

    assert_eq!(snapshot.user_by_uid(501).unwrap().name, "alice");
    assert_eq!(snapshot.user_by_name("bob").unwrap().uid, 1000);
    assert!(snapshot.user_by_uid(999).is_none());
    assert!(snapshot.user_by_name("nobody-here").is_none());
}

#[test]
fn snapshot_captures_the_process_identity() {
    let snapshot = UsersSnapshot::from_users(&sample_users(), 501, 0);
    assert_eq!(snapshot.current_uid(), 501);
    assert_eq!(snapshot.effective_uid(), 0);
    assert_eq!(snapshot.current_username(), Some("alice"));
    assert_eq!(snapshot.effective_username(), Some("root"));
}

#[test]
fn filtered_snapshot_excludes_rejected_records() {
    let snapshot = UsersSnapshot::filtered(&sample_users(), |u: &User| u.uid >= 1000, 501, 501);

    let listed = snapshot.all_users();
    assert_eq!(listed.len(), 1);
    assert_eq!(listed[0].name, "bob");

    assert!(snapshot.user_by_uid(501).is_none());
    assert!(snapshot.user_by_name("alice").is_none());
    assert_eq!(snapshot.user_by_uid(1000).unwrap().name, "bob");

    // The filtered-out current user is genuinely absent: closed world.
    assert!(snapshot.current_username().is_none());
}

#[test]
fn later_records_win_a_shared_uid() {
    let users = vec![
        User::new(7, 7, "old-seven".to_string()),
        User::new(7, 7, "new-seven".to_string()),
    ];
    let snapshot = UsersSnapshot::from_users(&users, 7, 7);

    let listed = snapshot.all_users();
    assert_eq!(listed.len(), 1);
    assert_eq!(listed[0].name, "new-seven");
    assert_eq!(snapshot.user_by_uid(7).unwrap().name, "new-seven");
}

#[test]
fn snapshot_answers_the_users_interface_without_mutation() {
    let mut snapshot = UsersSnapshot::from_users(&sample_users(), 501, 501);

    let alice = snapshot.get_user_by_uid(501).expect("alice is held");
    assert_eq!(alice.uid, 501);
    let again = snapshot.get_user_by_uid(501).expect("still held");
    assert_eq!(again.name, alice.name);

    let bob = snapshot.get_user_by_name("bob").expect("bob is held");
    assert_eq!(bob.uid, 1000);

    assert!(snapshot.get_user_by_uid(999).is_none());
    assert!(snapshot.get_user_by_name("nobody-here").is_none());

    assert_eq!(snapshot.get_current_uid(), 501);
    assert_eq!(snapshot.get_current_username().as_deref(), Some("alice"));
    assert_eq!(snapshot.get_effective_username().as_deref(), Some("alice"));
}
