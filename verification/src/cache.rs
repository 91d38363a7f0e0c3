//! The lazy cache: a producer of user and group records that memoizes
//! every lookup.
//!
//! Each family of lookups goes through a bidirectional index map. A miss
//! consults the operating-system collaborator exactly once and files the
//! outcome — the record on success, a negative entry on failure — so a
//! later query for the same id or name is settled from the tables without
//! another collaborator call. Returned records are independently owned
//! shared handles: they stay valid however long the caller keeps them and
//! whatever the cache does afterwards.

use vstd::prelude::*;

use std::sync::Arc;

use crate::map::IdNameMap;
use crate::map::group_keyed;
use crate::map::linked;
use crate::map::user_keyed;
use crate::os;
use crate::record::Group;
use crate::record::User;
use crate::traits::Groups;
use crate::traits::Users;
use crate::traits::probe_by_id;
use crate::traits::probe_by_name;

verus! {

/// A producer of user and group records that caches every result,
/// positive or negative, for its own lifetime.
pub struct UsersCache {
    users: IdNameMap<Arc<User>>,
    groups: IdNameMap<Arc<Group>>,
    uid: Option<u32>,
    gid: Option<u32>,
    euid: Option<u32>,
    egid: Option<u32>,
}

impl UsersCache {
    /// Both index maps are internally sound: keys are bound at most
    /// once, positive entries sit under their record's own id, and a name
    /// bound to an id always leads to a positive record.
    pub closed spec fn wf(self) -> bool {
        &&& self.users.wf()
        &&& self.groups.wf()
        &&& user_keyed(self.users.fwd())
        &&& linked(self.users.fwd(), self.users.bwd())
        &&& group_keyed(self.groups.fwd())
        &&& linked(self.groups.fwd(), self.groups.bwd())
    }

    /// The forward user table: uid to positive or negative entry.
    pub closed spec fn users_table(self) -> Map<u32, Option<Arc<User>>> {
        self.users.fwd()
    }

    /// The backward user table: username to positive or negative id entry.
    pub closed spec fn usernames_table(self) -> Map<Seq<char>, Option<u32>> {
        self.users.bwd()
    }

    /// The forward group table: gid to positive or negative entry.
    pub closed spec fn groups_table(self) -> Map<u32, Option<Arc<Group>>> {
        self.groups.fwd()
    }

    /// The backward group table: group name to positive or negative id entry.
    pub closed spec fn groupnames_table(self) -> Map<Seq<char>, Option<u32>> {
        self.groups.bwd()
    }

    /// The memoized real uid, if it has been resolved.
    pub closed spec fn uid_memo(self) -> Option<u32> {
        self.uid
    }

    /// The memoized effective uid, if it has been resolved.
    pub closed spec fn euid_memo(self) -> Option<u32> {
        self.euid
    }

    /// The memoized real gid, if it has been resolved.
    pub closed spec fn gid_memo(self) -> Option<u32> {
        self.gid
    }

    /// The memoized effective gid, if it has been resolved.
    pub closed spec fn egid_memo(self) -> Option<u32> {
        self.egid
    }

    /// Creates a new empty cache.
    pub fn new() -> (r: Self)
        ensures
            r.wf(),
            r.users_table() == Map::<u32, Option<Arc<User>>>::empty(),
            r.usernames_table() == Map::<Seq<char>, Option<u32>>::empty(),
            r.groups_table() == Map::<u32, Option<Arc<Group>>>::empty(),
            r.groupnames_table() == Map::<Seq<char>, Option<u32>>::empty(),
            r.uid_memo() is None,
            r.euid_memo() is None,
            r.gid_memo() is None,
            r.egid_memo() is None,
    {
        UsersCache {
            users: IdNameMap::new(),
            groups: IdNameMap::new(),
            uid: None,
            gid: None,
            euid: None,
            egid: None,
        }
    }

    /// Creates a cache already holding every given user record, each filed
    /// under its own uid and name as a full enumeration hands them over;
    /// groups and identity slots start empty.
    pub fn with_users(users: &Vec<User>) -> (r: Self)
        ensures
            r.wf(),
            crate::map::tables_of(r.users_table(), r.usernames_table(), users@),
            r.groups_table() == Map::<u32, Option<Arc<Group>>>::empty(),
            r.groupnames_table() == Map::<Seq<char>, Option<u32>>::empty(),
            r.uid_memo() is None,
            r.euid_memo() is None,
            r.gid_memo() is None,
            r.egid_memo() is None,
    {
        let mut cache = Self::new();
        cache.users.insert_records(users);
        cache
    }

    /// Answers a user lookup by uid from the tables alone, without
    /// consulting the collaborator: `None` means the uid was never
    /// queried, `Some(None)` that it is confirmed absent, and
    /// `Some(Some(u))` a cached record.
    pub fn cached_user_by_uid(&self, uid: u32) -> (r: Option<Option<Arc<User>>>)
        requires
            self.wf(),
        ensures
            r == probe_by_id(self.users_table(), uid),
    {
        match self.users.get_by_id(uid) {
            Some(entry) => match entry {
                Some(a) => Some(Some(a.clone())),
                None => Some(None),
            },
            None => None,
        }
    }

    /// Answers a user lookup by name from the tables alone, with the same
    /// tri-state reading as [`UsersCache::cached_user_by_uid`].
    pub fn cached_user_by_name(&self, name: &str) -> (r: Option<Option<Arc<User>>>)
        requires
            self.wf(),
        ensures
            r == probe_by_name(self.users_table(), self.usernames_table(), name@),
    {
        match self.users.get_by_name(name) {
            Some(entry) => match entry {
                // A positive name entry always leads to a positive record
                // (the maps are linked, see the well-formedness invariant),
                // so the two failure arms below are unreachable.
                Some(id) => match self.users.get_by_id(id) {
                    Some(e) => match e {
                        Some(a) => Some(Some(a.clone())),
                        None => {
                            proof {
                                assert(false);
                            }
                            Some(None)
                        },
                    },
                    None => {
                        proof {
                            assert(false);
                        }
                        Some(None)
                    },
                },
                None => Some(None),
            },
            None => None,
        }
    }

    /// Files the collaborator's answer to a by-uid user query that the
    /// tables did not settle, and returns the caller's handle: the record
    /// goes in under the queried uid and its own name, a failure becomes a
    /// negative entry under the uid.
    pub fn store_user_by_uid(&mut self, uid: u32, fetched: Option<User>) -> (r: Option<
        Arc<User>,
    >)
        requires
            old(self).wf(),
            !old(self).users_table().contains_key(uid),
            fetched matches Some(u) ==> u.uid == uid,
        ensures
            final(self).wf(),
            r matches Some(a) ==> fetched matches Some(u) && *a == u,
            r is None ==> fetched is None,
            final(self).users_table() == old(self).users_table().insert(uid, r),
            match r {
                Some(a) => final(self).usernames_table() == old(self).usernames_table().insert(
                    a.name@,
                    Some(uid),
                ),
                None => final(self).usernames_table() == old(self).usernames_table(),
            },
            final(self).groups_table() == old(self).groups_table(),
            final(self).groupnames_table() == old(self).groupnames_table(),
            final(self).uid_memo() == old(self).uid_memo(),
            final(self).euid_memo() == old(self).euid_memo(),
            final(self).gid_memo() == old(self).gid_memo(),
            final(self).egid_memo() == old(self).egid_memo(),
    {
        match fetched {
            Some(u) => {
                let name = u.name.clone();
                let a = Arc::new(u);
                self.users.insert(uid, name, a.clone());
                Some(a)
            },
            None => {
                self.users.mark_absent_id(uid);
                None
            },
        }
    }

    /// Files the collaborator's answer to a by-name user query that the
    /// tables did not settle, and returns the caller's handle: the record
    /// goes in under its own uid and the queried name, a failure becomes a
    /// negative entry under the name.
    pub fn store_user_by_name(&mut self, name: &str, fetched: Option<User>) -> (r: Option<
        Arc<User>,
    >)
        requires
            old(self).wf(),
            !old(self).usernames_table().contains_key(name@),
        ensures
            final(self).wf(),
            r matches Some(a) ==> fetched matches Some(u) && *a == u,
            r is None ==> fetched is None,
            match r {
                Some(a) => final(self).users_table() == old(self).users_table().insert(
                    a.uid,
                    Some(a),
                ) && final(self).usernames_table() == old(self).usernames_table().insert(
                    name@,
                    Some(a.uid),
                ),
                None => final(self).users_table() == old(self).users_table() && final(self).usernames_table() == old(self).usernames_table().insert(name@, None),
            },
            final(self).groups_table() == old(self).groups_table(),
            final(self).groupnames_table() == old(self).groupnames_table(),
            final(self).uid_memo() == old(self).uid_memo(),
            final(self).euid_memo() == old(self).euid_memo(),
            final(self).gid_memo() == old(self).gid_memo(),
            final(self).egid_memo() == old(self).egid_memo(),
    {
        match fetched {
            Some(u) => {
                let uid = u.uid;
                let key: String = name.to_owned();
                let a = Arc::new(u);
                self.users.insert(uid, key, a.clone());
                Some(a)
            },
            None => {
                let key: String = name.to_owned();
                self.users.mark_absent_name(key);
                None
            },
        }
    }

    /// Answers a group lookup by gid from the tables alone, with the same
    /// tri-state reading as [`UsersCache::cached_user_by_uid`].
    pub fn cached_group_by_gid(&self, gid: u32) -> (r: Option<Option<Arc<Group>>>)
        requires
            self.wf(),
        ensures
            r == probe_by_id(self.groups_table(), gid),
    {
        match self.groups.get_by_id(gid) {
            Some(entry) => match entry {
                Some(a) => Some(Some(a.clone())),
                None => Some(None),
            },
            None => None,
        }
    }

    /// Answers a group lookup by name from the tables alone, with the same
    /// tri-state reading as [`UsersCache::cached_user_by_uid`].
    pub fn cached_group_by_name(&self, name: &str) -> (r: Option<Option<Arc<Group>>>)
        requires
            self.wf(),
        ensures
            r == probe_by_name(self.groups_table(), self.groupnames_table(), name@),
    {
        match self.groups.get_by_name(name) {
            Some(entry) => match entry {
                // As for user names: a positive entry never dangles, the
                // failure arms below are unreachable.
                Some(id) => match self.groups.get_by_id(id) {
                    Some(e) => match e {
                        Some(a) => Some(Some(a.clone())),
                        None => {
                            proof {
                                assert(false);
                            }
                            Some(None)
                        },
                    },
                    None => {
                        proof {
                            assert(false);
                        }
                        Some(None)
                    },
                },
                None => Some(None),
            },
            None => None,
        }
    }

    /// Files the collaborator's answer to a by-gid group query that the
    /// tables did not settle; the counterpart of
    /// [`UsersCache::store_user_by_uid`].
    pub fn store_group_by_gid(&mut self, gid: u32, fetched: Option<Group>) -> (r: Option<
        Arc<Group>,
    >)
        requires
            old(self).wf(),
            !old(self).groups_table().contains_key(gid),
            fetched matches Some(g) ==> g.gid == gid,
        ensures
            final(self).wf(),
            r matches Some(a) ==> fetched matches Some(g) && *a == g,
            r is None ==> fetched is None,
            final(self).groups_table() == old(self).groups_table().insert(gid, r),
            match r {
                Some(a) => final(self).groupnames_table() == old(self).groupnames_table().insert(
                    a.name@,
                    Some(gid),
                ),
                None => final(self).groupnames_table() == old(self).groupnames_table(),
            },
            final(self).users_table() == old(self).users_table(),
            final(self).usernames_table() == old(self).usernames_table(),
            final(self).uid_memo() == old(self).uid_memo(),
            final(self).euid_memo() == old(self).euid_memo(),
            final(self).gid_memo() == old(self).gid_memo(),
            final(self).egid_memo() == old(self).egid_memo(),
    {
        match fetched {
            Some(g) => {
                let name = g.name.clone();
                let a = Arc::new(g);
                self.groups.insert(gid, name, a.clone());
                Some(a)
            },
            None => {
                self.groups.mark_absent_id(gid);
                None
            },
        }
    }

    /// Files the collaborator's answer to a by-name group query that the
    /// tables did not settle; the counterpart of
    /// [`UsersCache::store_user_by_name`].
    pub fn store_group_by_name(&mut self, name: &str, fetched: Option<Group>) -> (r: Option<
        Arc<Group>,
    >)
        requires
            old(self).wf(),
            !old(self).groupnames_table().contains_key(name@),
        ensures
            final(self).wf(),
            r matches Some(a) ==> fetched matches Some(g) && *a == g,
            r is None ==> fetched is None,
            match r {
                Some(a) => final(self).groups_table() == old(self).groups_table().insert(
                    a.gid,
                    Some(a),
                ) && final(self).groupnames_table() == old(self).groupnames_table().insert(
                    name@,
                    Some(a.gid),
                ),
                None => final(self).groups_table() == old(self).groups_table() && final(self).groupnames_table() == old(self).groupnames_table().insert(name@, None),
            },
            final(self).users_table() == old(self).users_table(),
            final(self).usernames_table() == old(self).usernames_table(),
            final(self).uid_memo() == old(self).uid_memo(),
            final(self).euid_memo() == old(self).euid_memo(),
            final(self).gid_memo() == old(self).gid_memo(),
            final(self).egid_memo() == old(self).egid_memo(),
    {
        match fetched {
            Some(g) => {
                let gid = g.gid;
                let key: String = name.to_owned();
                let a = Arc::new(g);
                self.groups.insert(gid, key, a.clone());
                Some(a)
            },
            None => {
                let key: String = name.to_owned();
                self.groups.mark_absent_name(key);
                None
            },
        }
    }

    /// Returns a shared handle to the user with the given uid, or `None`
    /// if no such user exists, filing an unsettled query's outcome. This
    /// is the cache's own form of [`Users::get_user_by_uid`]: its contract
    /// adds that the group tables and every identity slot are untouched.
    pub fn lookup_user_by_uid(&mut self, uid: u32) -> (r: Option<Arc<User>>)
        requires
            old(self).wf(),
        ensures
            final(self).wf(),
            r matches Some(u) ==> u.uid == uid,
            final(self).users_table().contains_key(uid) && final(self).users_table()[uid] == r,
            final(self).groups_table() == old(self).groups_table(),
            final(self).groupnames_table() == old(self).groupnames_table(),
            final(self).uid_memo() == old(self).uid_memo(),
            final(self).euid_memo() == old(self).euid_memo(),
            final(self).gid_memo() == old(self).gid_memo(),
            final(self).egid_memo() == old(self).egid_memo(),
            match probe_by_id(old(self).users_table(), uid) {
                Some(settled) => r == settled && *final(self) == *old(self),
                None => {
                    &&& final(self).users_table() == old(self).users_table().insert(uid, r)
                    &&& match r {
                        Some(u) => final(self).usernames_table() == old(self).usernames_table().insert(u.name@, Some(uid)),
                        None => final(self).usernames_table() == old(self).usernames_table(),
                    }
                },
            },
    {
        match self.cached_user_by_uid(uid) {
            Some(settled) => settled,
            None => {
                let fetched = os::user_by_uid(uid);
                self.store_user_by_uid(uid, fetched)
            },
        }
    }

    /// Returns a shared handle to the user with the given name, or `None`
    /// if no such user exists, filing an unsettled query's outcome; the
    /// cache's own form of [`Users::get_user_by_name`], with the same
    /// additional frame as [`UsersCache::lookup_user_by_uid`]. A returned
    /// record is always filed under its own uid afterwards.
    pub fn lookup_user_by_name(&mut self, name: &str) -> (r: Option<Arc<User>>)
        requires
            old(self).wf(),
        ensures
            final(self).wf(),
            r matches Some(u) ==> final(self).users_table().contains_key(u.uid) && final(self).users_table()[u.uid] == Some(u),
            final(self).usernames_table().contains_key(name@) && final(self).usernames_table()[name@]
                == (match r {
                Some(u) => Some(u.uid),
                None => None::<u32>,
            }),
            final(self).groups_table() == old(self).groups_table(),
            final(self).groupnames_table() == old(self).groupnames_table(),
            final(self).uid_memo() == old(self).uid_memo(),
            final(self).euid_memo() == old(self).euid_memo(),
            final(self).gid_memo() == old(self).gid_memo(),
            final(self).egid_memo() == old(self).egid_memo(),
            match probe_by_name(old(self).users_table(), old(self).usernames_table(), name@) {
                Some(settled) => r == settled && *final(self) == *old(self),
                None => {
                    &&& match r {
                        Some(u) => final(self).users_table() == old(self).users_table().insert(
                            u.uid,
                            Some(u),
                        ) && final(self).usernames_table() == old(self).usernames_table().insert(
                            name@,
                            Some(u.uid),
                        ),
                        None => final(self).users_table() == old(self).users_table() && final(self).usernames_table() == old(self).usernames_table().insert(name@, None),
                    }
                },
            },
    {
        let ghost pre = *self;
        match self.cached_user_by_name(name) {
            Some(settled) => {
                proof {
                    if settled is Some {
                        assert(pre.usernames_table().contains_key(name@));
                        let idop = pre.usernames_table()[name@];
                        assert(idop is Some);
                        let id = idop.unwrap();
                        assert(pre.users_table().contains_key(id));
                        assert(pre.users_table()[id] == Some(settled.unwrap()));
                        assert(settled.unwrap().uid == id);
                    }
                }
                settled
            },
            None => {
                let fetched = os::user_by_name(name);
                self.store_user_by_name(name, fetched)
            },
        }
    }

    /// Returns a shared handle to the group with the given gid, or `None`
    /// if no such group exists; the cache's own form of
    /// [`Groups::get_group_by_gid`], whose contract adds that the user
    /// tables and every identity slot are untouched.
    pub fn lookup_group_by_gid(&mut self, gid: u32) -> (r: Option<Arc<Group>>)
        requires
            old(self).wf(),
        ensures
            final(self).wf(),
            r matches Some(g) ==> g.gid == gid,
            final(self).groups_table().contains_key(gid) && final(self).groups_table()[gid] == r,
            final(self).users_table() == old(self).users_table(),
            final(self).usernames_table() == old(self).usernames_table(),
            final(self).uid_memo() == old(self).uid_memo(),
            final(self).euid_memo() == old(self).euid_memo(),
            final(self).gid_memo() == old(self).gid_memo(),
            final(self).egid_memo() == old(self).egid_memo(),
            match probe_by_id(old(self).groups_table(), gid) {
                Some(settled) => r == settled && *final(self) == *old(self),
                None => {
                    &&& final(self).groups_table() == old(self).groups_table().insert(gid, r)
                    &&& match r {
                        Some(g) => final(self).groupnames_table() == old(self).groupnames_table().insert(g.name@, Some(gid)),
                        None => final(self).groupnames_table() == old(self).groupnames_table(),
                    }
                },
            },
    {
        match self.cached_group_by_gid(gid) {
            Some(settled) => settled,
            None => {
                let fetched = os::group_by_gid(gid);
                self.store_group_by_gid(gid, fetched)
            },
        }
    }

    /// Returns a shared handle to the group with the given name, or `None`
    /// if no such group exists; the cache's own form of
    /// [`Groups::get_group_by_name`], with the same additional frame as
    /// [`UsersCache::lookup_group_by_gid`]. A returned record is always
    /// filed under its own gid afterwards.
    pub fn lookup_group_by_name(&mut self, name: &str) -> (r: Option<Arc<Group>>)
        requires
            old(self).wf(),
        ensures
            final(self).wf(),
            r matches Some(g) ==> final(self).groups_table().contains_key(g.gid) && final(self).groups_table()[g.gid] == Some(g),
            final(self).groupnames_table().contains_key(name@) && final(self).groupnames_table()[name@]
                == (match r {
                Some(g) => Some(g.gid),
                None => None::<u32>,
            }),
            final(self).users_table() == old(self).users_table(),
            final(self).usernames_table() == old(self).usernames_table(),
            final(self).uid_memo() == old(self).uid_memo(),
            final(self).euid_memo() == old(self).euid_memo(),
            final(self).gid_memo() == old(self).gid_memo(),
            final(self).egid_memo() == old(self).egid_memo(),
            match probe_by_name(old(self).groups_table(), old(self).groupnames_table(), name@) {
                Some(settled) => r == settled && *final(self) == *old(self),
                None => {
                    &&& match r {
                        Some(g) => final(self).groups_table() == old(self).groups_table().insert(
                            g.gid,
                            Some(g),
                        ) && final(self).groupnames_table() == old(self).groupnames_table().insert(
                            name@,
                            Some(g.gid),
                        ),
                        None => final(self).groups_table() == old(self).groups_table() && final(self).groupnames_table() == old(self).groupnames_table().insert(name@, None),
                    }
                },
            },
    {
        let ghost pre = *self;
        match self.cached_group_by_name(name) {
            Some(settled) => {
                proof {
                    if settled is Some {
                        assert(pre.groupnames_table().contains_key(name@));
                        let idop = pre.groupnames_table()[name@];
                        assert(idop is Some);
                        let id = idop.unwrap();
                        assert(pre.groups_table().contains_key(id));
                        assert(pre.groups_table()[id] == Some(settled.unwrap()));
                        assert(settled.unwrap().gid == id);
                    }
                }
                settled
            },
            None => {
                let fetched = os::group_by_name(name);
                self.store_group_by_name(name, fetched)
            },
        }
    }

    /// Returns the real uid of the process, consulting the collaborator
    /// only on the first call; nothing but the uid slot changes.
    pub fn resolve_current_uid(&mut self) -> (r: u32)
        requires
            old(self).wf(),
        ensures
            final(self).wf(),
            final(self).uid_memo() == Some(r),
            final(self).users_table() == old(self).users_table(),
            final(self).usernames_table() == old(self).usernames_table(),
            final(self).groups_table() == old(self).groups_table(),
            final(self).groupnames_table() == old(self).groupnames_table(),
            final(self).euid_memo() == old(self).euid_memo(),
            final(self).gid_memo() == old(self).gid_memo(),
            final(self).egid_memo() == old(self).egid_memo(),
            old(self).uid_memo() matches Some(u) ==> r == u && *final(self) == *old(self),
    {
        match self.uid {
            Some(u) => u,
            None => {
                let u = os::current_uid();
                self.uid = Some(u);
                u
            },
        }
    }

    /// Returns the effective uid of the process, consulting the
    /// collaborator only on the first call; nothing but the euid slot
    /// changes.
    pub fn resolve_effective_uid(&mut self) -> (r: u32)
        requires
            old(self).wf(),
        ensures
            final(self).wf(),
            final(self).euid_memo() == Some(r),
            final(self).users_table() == old(self).users_table(),
            final(self).usernames_table() == old(self).usernames_table(),
            final(self).groups_table() == old(self).groups_table(),
            final(self).groupnames_table() == old(self).groupnames_table(),
            final(self).uid_memo() == old(self).uid_memo(),
            final(self).gid_memo() == old(self).gid_memo(),
            final(self).egid_memo() == old(self).egid_memo(),
            old(self).euid_memo() matches Some(u) ==> r == u && *final(self) == *old(self),
    {
        match self.euid {
            Some(u) => u,
            None => {
                let u = os::effective_uid();
                self.euid = Some(u);
                u
            },
        }
    }

    /// Returns the real gid of the process, consulting the collaborator
    /// only on the first call; nothing but the gid slot changes.
    pub fn resolve_current_gid(&mut self) -> (r: u32)
        requires
            old(self).wf(),
        ensures
            final(self).wf(),
            final(self).gid_memo() == Some(r),
            final(self).users_table() == old(self).users_table(),
            final(self).usernames_table() == old(self).usernames_table(),
            final(self).groups_table() == old(self).groups_table(),
            final(self).groupnames_table() == old(self).groupnames_table(),
            final(self).uid_memo() == old(self).uid_memo(),
            final(self).euid_memo() == old(self).euid_memo(),
            final(self).egid_memo() == old(self).egid_memo(),
            old(self).gid_memo() matches Some(g) ==> r == g && *final(self) == *old(self),
    {
        match self.gid {
            Some(g) => g,
            None => {
                let g = os::current_gid();
                self.gid = Some(g);
                g
            },
        }
    }

    /// Returns the effective gid of the process, consulting the
    /// collaborator only on the first call; nothing but the egid slot
    /// changes.
    pub fn resolve_effective_gid(&mut self) -> (r: u32)
        requires
            old(self).wf(),
        ensures
            final(self).wf(),
            final(self).egid_memo() == Some(r),
            final(self).users_table() == old(self).users_table(),
            final(self).usernames_table() == old(self).usernames_table(),
            final(self).groups_table() == old(self).groups_table(),
            final(self).groupnames_table() == old(self).groupnames_table(),
            final(self).uid_memo() == old(self).uid_memo(),
            final(self).euid_memo() == old(self).euid_memo(),
            final(self).gid_memo() == old(self).gid_memo(),
            old(self).egid_memo() matches Some(g) ==> r == g && *final(self) == *old(self),
    {
        match self.egid {
            Some(g) => g,
            None => {
                let g = os::effective_gid();
                self.egid = Some(g);
                g
            },
        }
    }
}

impl Default for UsersCache {
    /// Creates a new empty cache, as [`UsersCache::new`] does.
    fn default() -> (r: Self)
        ensures
            r.wf(),
            r.users_table() == Map::<u32, Option<Arc<User>>>::empty(),
            r.usernames_table() == Map::<Seq<char>, Option<u32>>::empty(),
            r.groups_table() == Map::<u32, Option<Arc<Group>>>::empty(),
            r.groupnames_table() == Map::<Seq<char>, Option<u32>>::empty(),
            r.uid_memo() is None,
            r.euid_memo() is None,
            r.gid_memo() is None,
            r.egid_memo() is None,
    {
        UsersCache::new()
    }
}

impl Users for UsersCache {
    open spec fn users_wf(&self) -> bool {
        self.wf()
    }

    open spec fn user_entries(&self) -> Map<u32, Option<Arc<User>>> {
        self.users_table()
    }

    open spec fn user_names(&self) -> Map<Seq<char>, Option<u32>> {
        self.usernames_table()
    }

    open spec fn uid_slot(&self) -> Option<u32> {
        self.uid_memo()
    }

    open spec fn euid_slot(&self) -> Option<u32> {
        self.euid_memo()
    }

    fn get_user_by_uid(&mut self, uid: u32) -> (r: Option<Arc<User>>) {
        self.lookup_user_by_uid(uid)
    }

    fn get_user_by_name(&mut self, name: &str) -> (r: Option<Arc<User>>) {
        self.lookup_user_by_name(name)
    }

    fn get_current_uid(&mut self) -> (r: u32) {
        self.resolve_current_uid()
    }

    fn get_effective_uid(&mut self) -> (r: u32) {
        self.resolve_effective_uid()
    }

    fn get_current_username(&mut self) -> (r: Option<String>) {
        let uid = self.resolve_current_uid();
        let ghost mid = *self;
        let r = self.lookup_user_by_uid(uid);
        proof {
            if mid.users_table().contains_key(uid) {
                assert(mid.users_table().insert(uid, mid.users_table()[uid])
                    =~= mid.users_table());
            }
        }
        match r {
            Some(u) => Some(u.name.clone()),
            None => None,
        }
    }

    fn get_effective_username(&mut self) -> (r: Option<String>) {
        let uid = self.resolve_effective_uid();
        let ghost mid = *self;
        let r = self.lookup_user_by_uid(uid);
        proof {
            if mid.users_table().contains_key(uid) {
                assert(mid.users_table().insert(uid, mid.users_table()[uid])
                    =~= mid.users_table());
            }
        }
        match r {
            Some(u) => Some(u.name.clone()),
            None => None,
        }
    }
}

impl Groups for UsersCache {
    open spec fn groups_wf(&self) -> bool {
        self.wf()
    }

    open spec fn group_entries(&self) -> Map<u32, Option<Arc<Group>>> {
        self.groups_table()
    }

    open spec fn group_names(&self) -> Map<Seq<char>, Option<u32>> {
        self.groupnames_table()
    }

    open spec fn gid_slot(&self) -> Option<u32> {
        self.gid_memo()
    }

    open spec fn egid_slot(&self) -> Option<u32> {
        self.egid_memo()
    }

    fn get_group_by_gid(&mut self, gid: u32) -> (r: Option<Arc<Group>>) {
        self.lookup_group_by_gid(gid)
    }

    fn get_group_by_name(&mut self, name: &str) -> (r: Option<Arc<Group>>) {
        self.lookup_group_by_name(name)
    }

    fn get_current_gid(&mut self) -> (r: u32) {
        self.resolve_current_gid()
    }

    fn get_effective_gid(&mut self) -> (r: u32) {
        self.resolve_effective_gid()
    }

    fn get_current_groupname(&mut self) -> (r: Option<String>) {
        let gid = self.resolve_current_gid();
        let ghost mid = *self;
        let r = self.lookup_group_by_gid(gid);
        proof {
            if mid.groups_table().contains_key(gid) {
                assert(mid.groups_table().insert(gid, mid.groups_table()[gid])
                    =~= mid.groups_table());
            }
        }
        match r {
            Some(g) => Some(g.name.clone()),
            None => None,
        }
    }

    fn get_effective_groupname(&mut self) -> (r: Option<String>) {
        let gid = self.resolve_effective_gid();
        let ghost mid = *self;
        let r = self.lookup_group_by_gid(gid);
        proof {
            if mid.groups_table().contains_key(gid) {
                assert(mid.groups_table().insert(gid, mid.groups_table()[gid])
                    =~= mid.groups_table());
            }
        }
        match r {
            Some(g) => Some(g.name.clone()),
            None => None,
        }
    }
}

} // verus!
