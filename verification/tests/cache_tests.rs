use std::sync::Arc;

use uzers::Groups;
use uzers::Users;
use uzers::cache::UsersCache;
use uzers::record::Group;
use uzers::record::User;

#[test]
fn lookup_scenario_alice_and_missing() {
    let mut cache = UsersCache::new();

    // uid 501 was never queried: the tables do not settle it.
    assert!(cache.cached_user_by_uid(501).is_none());

    // The collaborator answers with alice; the cache returns a handle.
    let alice = User::new(501, 20, "alice".to_string());
    let first = cache.store_user_by_uid(501, Some(alice)).unwrap();
    assert_eq!(first.uid, 501);
    assert_eq!(first.name, "alice");

    // A by-name lookup of "alice" is now a hit on the identical record.
    let by_name = cache.cached_user_by_name("alice").unwrap().unwrap();
    assert!(Arc::ptr_eq(&first, &by_name));

    // uid 999 misses; the collaborator reports not-found; absence is cached.
    assert!(cache.cached_user_by_uid(999).is_none());
    assert!(cache.store_user_by_uid(999, None).is_none());
    assert!(matches!(cache.cached_user_by_uid(999), Some(None)));
}

#[test]
fn repeated_lookups_return_the_identical_record() {
    let mut cache = UsersCache::new();
    let bob = User::new(1000, 1000, "bob".to_string());
    let first = cache.store_user_by_uid(1000, Some(bob)).unwrap();

    let second = cache.cached_user_by_uid(1000).unwrap().unwrap();
    let third = cache.cached_user_by_uid(1000).unwrap().unwrap();
    assert!(Arc::ptr_eq(&first, &second));
    assert!(Arc::ptr_eq(&second, &third));
}

#[test]
fn negative_entries_settle_later_lookups() {
    let mut cache = UsersCache::new();

    assert!(cache.store_user_by_name("nobody-here", None).is_none());
    assert!(matches!(cache.cached_user_by_name("nobody-here"), Some(None)));

    assert!(cache.store_group_by_gid(4242, None).is_none());
    assert!(matches!(cache.cached_group_by_gid(4242), Some(None)));
}

#[test]
fn by_name_success_is_found_by_uid() {
    let mut cache = UsersCache::new();
    let carol = User::new(777, 20, "carol".to_string());
    let by_name = cache.store_user_by_name("carol", Some(carol)).unwrap();

    let by_uid = cache.cached_user_by_uid(777).unwrap().unwrap();
    assert!(Arc::ptr_eq(&by_name, &by_uid));
}

#[test]
fn group_lookups_mirror_user_lookups() {
    let mut cache = UsersCache::new();
    let wheel = Group::new(77, "wheelhouse".to_string());
    let first = cache.store_group_by_gid(77, Some(wheel)).unwrap();
    assert_eq!(first.gid, 77);
    assert_eq!(first.name, "wheelhouse");

    let by_name = cache.cached_group_by_name("wheelhouse").unwrap().unwrap();
    assert!(Arc::ptr_eq(&first, &by_name));

    let again = cache.cached_group_by_gid(77).unwrap().unwrap();
    assert!(Arc::ptr_eq(&first, &again));
}

#[test]
fn current_ids_are_memoized_and_stable() {
    let mut cache = UsersCache::new();
    let uid1 = cache.get_current_uid();
    let uid2 = cache.get_current_uid();
    assert_eq!(uid1, uid2);

    let euid1 = cache.get_effective_uid();
    let euid2 = cache.get_effective_uid();
    assert_eq!(euid1, euid2);

    let gid1 = cache.get_current_gid();
    let gid2 = cache.get_current_gid();
    assert_eq!(gid1, gid2);

    let egid1 = cache.get_effective_gid();
    let egid2 = cache.get_effective_gid();
    assert_eq!(egid1, egid2);
}

#[test]
fn os_lookup_by_uid_matches_queried_uid() {
    let mut cache = UsersCache::new();
    // The superuser entry exists on any ordinary system.
    let root = cache.get_user_by_uid(0).expect("uid 0 should exist");
    assert_eq!(root.uid, 0);

    // Looking the record up again by its embedded name is a hit on the
    // identical record.
    let name = root.name.clone();
    let by_name = cache.get_user_by_name(&name).expect("root by name");
    assert!(Arc::ptr_eq(&root, &by_name));

    // And the root group the same way.
    let group = cache.get_group_by_gid(0).expect("gid 0 should exist");
    assert_eq!(group.gid, 0);
}

#[test]
fn current_username_projects_the_cached_record() {
    let mut cache = UsersCache::new();
    let uid = cache.get_current_uid();
    let record = cache.get_user_by_uid(uid);
    let name = cache.get_current_username();
    match record {
        Some(u) => assert_eq!(name.as_deref(), Some(u.name.as_str())),
        None => assert!(name.is_none()),
    }
}

#[test]
fn with_users_prepopulates_the_cache() {
    let users = vec![
        User::new(501, 20, "alice".to_string()),
        User::new(1000, 1000, "bob".to_string()),
    ];
    let cache = UsersCache::with_users(&users);

    let alice = cache.cached_user_by_uid(501).unwrap().unwrap();
    assert_eq!(alice.name, "alice");
    let bob = cache.cached_user_by_name("bob").unwrap().unwrap();
    assert_eq!(bob.uid, 1000);
    assert!(cache.cached_user_by_uid(999).is_none());
}

#[test]
fn inherent_lookups_mirror_the_interfaces() {
    let mut cache = UsersCache::new();

    let root = cache.lookup_user_by_uid(0).expect("uid 0 should exist");
    assert_eq!(root.uid, 0);
    let name = root.name.clone();
    let by_name = cache.lookup_user_by_name(&name).expect("root by name");
    assert!(Arc::ptr_eq(&root, &by_name));

    let group = cache.lookup_group_by_gid(0).expect("gid 0 should exist");
    assert_eq!(group.gid, 0);
    let group_again = cache.lookup_group_by_name(&group.name.clone()).expect("by name");
    assert!(Arc::ptr_eq(&group, &group_again));

    let uid = cache.resolve_current_uid();
    assert_eq!(uid, cache.resolve_current_uid());
    assert_eq!(cache.resolve_effective_uid(), cache.resolve_effective_uid());
    assert_eq!(cache.resolve_current_gid(), cache.resolve_current_gid());
    assert_eq!(cache.resolve_effective_gid(), cache.resolve_effective_gid());
}

#[test]
fn records_carry_auxiliary_fields() {
    let alice = User::new(501, 20, "alice".to_string())
        .with_home_dir("/home/alice".to_string())
        .with_shell("/bin/sh".to_string())
        .with_gecos("Alice".to_string());
    assert_eq!(alice.uid, 501);
    assert_eq!(alice.home_dir, "/home/alice");
    assert_eq!(alice.shell, "/bin/sh");
    assert_eq!(alice.gecos, "Alice");

    let staff = Group::new(20, "staff".to_string())
        .with_members(vec!["alice".to_string(), "bob".to_string()]);
    assert_eq!(staff.members, vec!["alice".to_string(), "bob".to_string()]);

    // The OS collaborator fills the auxiliary fields of real records.
    let mut cache = UsersCache::new();
    let root = cache.get_user_by_uid(0).expect("uid 0 should exist");
    assert!(!root.home_dir.is_empty());
}
