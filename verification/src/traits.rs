//! The capability contracts: the polymorphic lookup interfaces that both
//! the lazy [`crate::cache::UsersCache`] and the eager
//! [`crate::snapshot::UsersSnapshot`] satisfy, and that downstream code
//! should program against instead of a concrete type.
//!
//! Each trait describes the implementing type through a small set of
//! abstract tables: a forward table from numeric ids to positive or
//! negative entries, a backward table from names to ids, and memoized
//! scalar slots for the process identity. The method contracts say, over
//! those tables, when a lookup is answered from the table as it stood
//! ("settled") and exactly how the tables change when it is not.

use vstd::prelude::*;

use std::sync::Arc;

use crate::record::Group;
use crate::record::User;

verus! {

/// What a lookup of `id` yields from a forward table alone: `None` means
/// the table does not settle the query (the id was never queried),
/// `Some(None)` a negative entry, and `Some(Some(v))` a positive one.
pub open spec fn probe_by_id<V>(fwd: Map<u32, Option<V>>, id: u32) -> Option<Option<V>> {
    if fwd.contains_key(id) {
        Some(fwd[id])
    } else {
        None
    }
}

/// What a lookup of `name` yields from the pair of tables alone. A backward
/// entry settles the query: a positive one answers through the forward
/// table, a negative one reports absence.
pub open spec fn probe_by_name<V>(
    fwd: Map<u32, Option<V>>,
    bwd: Map<Seq<char>, Option<u32>>,
    name: Seq<char>,
) -> Option<Option<V>> {
    if bwd.contains_key(name) {
        match bwd[name] {
            Some(id) => if fwd.contains_key(id) {
                Some(fwd[id])
            } else {
                Some(None)
            },
            None => Some(None),
        }
    } else {
        None
    }
}

/// A producer of user records.
pub trait Users: Sized {
    /// The producer's lookup state is well formed.
    spec fn users_wf(&self) -> bool;

    /// The forward user table: uid to positive or negative entry.
    spec fn user_entries(&self) -> Map<u32, Option<Arc<User>>>;

    /// The backward user table: username to positive or negative id entry.
    spec fn user_names(&self) -> Map<Seq<char>, Option<u32>>;

    /// The memoized real uid of the process, if it has been resolved.
    spec fn uid_slot(&self) -> Option<u32>;

    /// The memoized effective uid of the process, if it has been resolved.
    spec fn euid_slot(&self) -> Option<u32>;

    /// Returns a shared handle to the user with the given uid, or `None`
    /// if no such user exists. A query settled by the table leaves the
    /// producer untouched; one that is not settles it for good.
    fn get_user_by_uid(&mut self, uid: u32) -> (r: Option<Arc<User>>)
        requires
            old(self).users_wf(),
        ensures
            final(self).users_wf(),
            r matches Some(u) ==> u.uid == uid,
            final(self).user_entries().contains_key(uid) && final(self).user_entries()[uid] == r,
            match probe_by_id(old(self).user_entries(), uid) {
                Some(settled) => r == settled && *final(self) == *old(self),
                None => {
                    &&& final(self).user_entries() == old(self).user_entries().insert(uid, r)
                    &&& match r {
                        Some(u) => final(self).user_names() == old(self).user_names().insert(
                            u.name@,
                            Some(uid),
                        ),
                        None => final(self).user_names() == old(self).user_names(),
                    }
                    &&& final(self).uid_slot() == old(self).uid_slot()
                    &&& final(self).euid_slot() == old(self).euid_slot()
                },
            },
    ;

    /// Returns a shared handle to the user with the given name, or `None`
    /// if no such user exists. A query settled by the tables leaves the
    /// producer untouched; one that is not settles the name for good, and
    /// on success also files the record under its own uid.
    fn get_user_by_name(&mut self, name: &str) -> (r: Option<Arc<User>>)
        requires
            old(self).users_wf(),
        ensures
            final(self).users_wf(),
            r matches Some(u) ==> final(self).user_entries().contains_key(u.uid) && final(self).user_entries()[u.uid] == Some(u),
            final(self).user_names().contains_key(name@) && final(self).user_names()[name@] == (
            match r {
                Some(u) => Some(u.uid),
                None => None::<u32>,
            }),
            match probe_by_name(old(self).user_entries(), old(self).user_names(), name@) {
                Some(settled) => r == settled && *final(self) == *old(self),
                None => {
                    &&& match r {
                        Some(u) => final(self).user_entries() == old(self).user_entries().insert(
                            u.uid,
                            Some(u),
                        ) && final(self).user_names() == old(self).user_names().insert(
                            name@,
                            Some(u.uid),
                        ),
                        None => final(self).user_entries() == old(self).user_entries() && final(self).user_names() == old(self).user_names().insert(name@, None),
                    }
                    &&& final(self).uid_slot() == old(self).uid_slot()
                    &&& final(self).euid_slot() == old(self).euid_slot()
                },
            },
    ;

    /// Returns the real uid of the process running the lookup, resolving
    /// it at most once per producer.
    fn get_current_uid(&mut self) -> (r: u32)
        requires
            old(self).users_wf(),
        ensures
            final(self).users_wf(),
            final(self).uid_slot() == Some(r),
            match old(self).uid_slot() {
                Some(u) => r == u && *final(self) == *old(self),
                None => {
                    &&& final(self).user_entries() == old(self).user_entries()
                    &&& final(self).user_names() == old(self).user_names()
                    &&& final(self).euid_slot() == old(self).euid_slot()
                },
            },
    ;

    /// Returns the effective uid of the process running the lookup,
    /// resolving it at most once per producer.
    fn get_effective_uid(&mut self) -> (r: u32)
        requires
            old(self).users_wf(),
        ensures
            final(self).users_wf(),
            final(self).euid_slot() == Some(r),
            match old(self).euid_slot() {
                Some(u) => r == u && *final(self) == *old(self),
                None => {
                    &&& final(self).user_entries() == old(self).user_entries()
                    &&& final(self).user_names() == old(self).user_names()
                    &&& final(self).uid_slot() == old(self).uid_slot()
                },
            },
    ;

    /// Returns the name of the user running the process: the current uid
    /// is resolved, its record looked up, and the record's name returned.
    fn get_current_username(&mut self) -> (r: Option<String>)
        requires
            old(self).users_wf(),
        ensures
            final(self).users_wf(),
            old(self).uid_slot() is Some ==> final(self).uid_slot() == old(self).uid_slot(),
            final(self).euid_slot() == old(self).euid_slot(),
            final(self).uid_slot() matches Some(u) ==> match probe_by_id(
                old(self).user_entries(),
                u,
            ) {
                Some(settled) => {
                    &&& match settled {
                        Some(rec) => r matches Some(nm) && nm@ == rec.name@,
                        None => r is None,
                    }
                    &&& final(self).user_entries() == old(self).user_entries()
                    &&& final(self).user_names() == old(self).user_names()
                },
                None => true,
            },
            match r {
                Some(nm) => final(self).uid_slot() matches Some(u) && final(self).user_entries().contains_key(u) && (final(self).user_entries()[u] matches Some(rec)
                    && rec.name@ == nm@ && rec.uid == u && final(self).user_entries() == old(self).user_entries().insert(u, Some(rec)) && (final(self).user_names() == old(self).user_names() || final(self).user_names() == old(self).user_names().insert(
                    rec.name@,
                    Some(u),
                ))),
                None => final(self).uid_slot() matches Some(u) && final(self).user_entries().contains_key(u) && final(self).user_entries()[u] is None && final(self).user_entries() == old(self).user_entries().insert(u, None) && final(self).user_names() == old(self).user_names(),
            },
    ;

    /// Returns the name of the effective user of the process, composed
    /// like [`Users::get_current_username`].
    fn get_effective_username(&mut self) -> (r: Option<String>)
        requires
            old(self).users_wf(),
        ensures
            final(self).users_wf(),
            old(self).euid_slot() is Some ==> final(self).euid_slot() == old(self).euid_slot(),
            final(self).uid_slot() == old(self).uid_slot(),
            final(self).euid_slot() matches Some(u) ==> match probe_by_id(
                old(self).user_entries(),
                u,
            ) {
                Some(settled) => {
                    &&& match settled {
                        Some(rec) => r matches Some(nm) && nm@ == rec.name@,
                        None => r is None,
                    }
                    &&& final(self).user_entries() == old(self).user_entries()
                    &&& final(self).user_names() == old(self).user_names()
                },
                None => true,
            },
            match r {
                Some(nm) => final(self).euid_slot() matches Some(u) && final(self).user_entries().contains_key(u) && (final(self).user_entries()[u] matches Some(rec)
                    && rec.name@ == nm@ && rec.uid == u && final(self).user_entries() == old(self).user_entries().insert(u, Some(rec)) && (final(self).user_names() == old(self).user_names() || final(self).user_names() == old(self).user_names().insert(
                    rec.name@,
                    Some(u),
                ))),
                None => final(self).euid_slot() matches Some(u) && final(self).user_entries().contains_key(u) && final(self).user_entries()[u] is None && final(self).user_entries() == old(self).user_entries().insert(u, None) && final(self).user_names() == old(self).user_names(),
            },
    ;
}

/// A producer of group records, shaped like [`Users`].
pub trait Groups: Sized {
    /// The producer's lookup state is well formed.
    spec fn groups_wf(&self) -> bool;

    /// The forward group table: gid to positive or negative entry.
    spec fn group_entries(&self) -> Map<u32, Option<Arc<Group>>>;

    /// The backward group table: group name to positive or negative id entry.
    spec fn group_names(&self) -> Map<Seq<char>, Option<u32>>;

    /// The memoized real gid of the process, if it has been resolved.
    spec fn gid_slot(&self) -> Option<u32>;

    /// The memoized effective gid of the process, if it has been resolved.
    spec fn egid_slot(&self) -> Option<u32>;

    /// Returns a shared handle to the group with the given gid, or `None`
    /// if no such group exists; the counterpart of
    /// [`Users::get_user_by_uid`].
    fn get_group_by_gid(&mut self, gid: u32) -> (r: Option<Arc<Group>>)
        requires
            old(self).groups_wf(),
        ensures
            final(self).groups_wf(),
            r matches Some(g) ==> g.gid == gid,
            final(self).group_entries().contains_key(gid) && final(self).group_entries()[gid] == r,
            match probe_by_id(old(self).group_entries(), gid) {
                Some(settled) => r == settled && *final(self) == *old(self),
                None => {
                    &&& final(self).group_entries() == old(self).group_entries().insert(gid, r)
                    &&& match r {
                        Some(g) => final(self).group_names() == old(self).group_names().insert(
                            g.name@,
                            Some(gid),
                        ),
                        None => final(self).group_names() == old(self).group_names(),
                    }
                    &&& final(self).gid_slot() == old(self).gid_slot()
                    &&& final(self).egid_slot() == old(self).egid_slot()
                },
            },
    ;

    /// Returns a shared handle to the group with the given name, or `None`
    /// if no such group exists; the counterpart of
    /// [`Users::get_user_by_name`].
    fn get_group_by_name(&mut self, name: &str) -> (r: Option<Arc<Group>>)
        requires
            old(self).groups_wf(),
        ensures
            final(self).groups_wf(),
            r matches Some(g) ==> final(self).group_entries().contains_key(g.gid) && final(self).group_entries()[g.gid] == Some(g),
            final(self).group_names().contains_key(name@) && final(self).group_names()[name@] == (
            match r {
                Some(g) => Some(g.gid),
                None => None::<u32>,
            }),
            match probe_by_name(old(self).group_entries(), old(self).group_names(), name@) {
                Some(settled) => r == settled && *final(self) == *old(self),
                None => {
                    &&& match r {
                        Some(g) => final(self).group_entries() == old(self).group_entries().insert(
                            g.gid,
                            Some(g),
                        ) && final(self).group_names() == old(self).group_names().insert(
                            name@,
                            Some(g.gid),
                        ),
                        None => final(self).group_entries() == old(self).group_entries() && final(self).group_names() == old(self).group_names().insert(name@, None),
                    }
                    &&& final(self).gid_slot() == old(self).gid_slot()
                    &&& final(self).egid_slot() == old(self).egid_slot()
                },
            },
    ;

    /// Returns the real gid of the process running the lookup, resolving
    /// it at most once per producer.
    fn get_current_gid(&mut self) -> (r: u32)
        requires
            old(self).groups_wf(),
        ensures
            final(self).groups_wf(),
            final(self).gid_slot() == Some(r),
            match old(self).gid_slot() {
                Some(g) => r == g && *final(self) == *old(self),
                None => {
                    &&& final(self).group_entries() == old(self).group_entries()
                    &&& final(self).group_names() == old(self).group_names()
                    &&& final(self).egid_slot() == old(self).egid_slot()
                },
            },
    ;

    /// Returns the effective gid of the process running the lookup,
    /// resolving it at most once per producer.
    fn get_effective_gid(&mut self) -> (r: u32)
        requires
            old(self).groups_wf(),
        ensures
            final(self).groups_wf(),
            final(self).egid_slot() == Some(r),
            match old(self).egid_slot() {
                Some(g) => r == g && *final(self) == *old(self),
                None => {
                    &&& final(self).group_entries() == old(self).group_entries()
                    &&& final(self).group_names() == old(self).group_names()
                    &&& final(self).gid_slot() == old(self).gid_slot()
                },
            },
    ;

    /// Returns the name of the primary group of the process: the current
    /// gid is resolved, its record looked up, and the record's name
    /// returned.
    fn get_current_groupname(&mut self) -> (r: Option<String>)
        requires
            old(self).groups_wf(),
        ensures
            final(self).groups_wf(),
            old(self).gid_slot() is Some ==> final(self).gid_slot() == old(self).gid_slot(),
            final(self).egid_slot() == old(self).egid_slot(),
            final(self).gid_slot() matches Some(g) ==> match probe_by_id(
                old(self).group_entries(),
                g,
            ) {
                Some(settled) => {
                    &&& match settled {
                        Some(rec) => r matches Some(nm) && nm@ == rec.name@,
                        None => r is None,
                    }
                    &&& final(self).group_entries() == old(self).group_entries()
                    &&& final(self).group_names() == old(self).group_names()
                },
                None => true,
            },
            match r {
                Some(nm) => final(self).gid_slot() matches Some(g) && final(self).group_entries().contains_key(g) && (final(self).group_entries()[g] matches Some(
                    rec,
                ) && rec.name@ == nm@ && rec.gid == g && final(self).group_entries() == old(self).group_entries().insert(g, Some(rec)) && (final(self).group_names() == old(self).group_names() || final(self).group_names() == old(self).group_names().insert(
                    rec.name@,
                    Some(g),
                ))),
                None => final(self).gid_slot() matches Some(g) && final(self).group_entries().contains_key(g) && final(self).group_entries()[g] is None && final(self).group_entries() == old(self).group_entries().insert(g, None) && final(self).group_names() == old(self).group_names(),
            },
    ;

    /// Returns the name of the effective group of the process, composed
    /// like [`Groups::get_current_groupname`].
    fn get_effective_groupname(&mut self) -> (r: Option<String>)
        requires
            old(self).groups_wf(),
        ensures
            final(self).groups_wf(),
            old(self).egid_slot() is Some ==> final(self).egid_slot() == old(self).egid_slot(),
            final(self).gid_slot() == old(self).gid_slot(),
            final(self).egid_slot() matches Some(g) ==> match probe_by_id(
                old(self).group_entries(),
                g,
            ) {
                Some(settled) => {
                    &&& match settled {
                        Some(rec) => r matches Some(nm) && nm@ == rec.name@,
                        None => r is None,
                    }
                    &&& final(self).group_entries() == old(self).group_entries()
                    &&& final(self).group_names() == old(self).group_names()
                },
                None => true,
            },
            match r {
                Some(nm) => final(self).egid_slot() matches Some(g) && final(self).group_entries().contains_key(g) && (final(self).group_entries()[g] matches Some(
                    rec,
                ) && rec.name@ == nm@ && rec.gid == g && final(self).group_entries() == old(self).group_entries().insert(g, Some(rec)) && (final(self).group_names() == old(self).group_names() || final(self).group_names() == old(self).group_names().insert(
                    rec.name@,
                    Some(g),
                ))),
                None => final(self).egid_slot() matches Some(g) && final(self).group_entries().contains_key(g) && final(self).group_entries()[g] is None && final(self).group_entries() == old(self).group_entries().insert(g, None) && final(self).group_names() == old(self).group_names(),
            },
    ;
}

/// A read-only container of user records: every lookup is a pure read,
/// references are scoped to the container, and the whole population can be
/// listed.
pub trait AllUsers {
    /// The container's state is well formed.
    spec fn all_wf(&self) -> bool;

    /// The forward user table of the container.
    spec fn all_entries(&self) -> Map<u32, Option<Arc<User>>>;

    /// The backward user table of the container.
    spec fn all_names(&self) -> Map<Seq<char>, Option<u32>>;

    /// The real uid captured by the container.
    spec fn all_current_uid(&self) -> u32;

    /// The effective uid captured by the container.
    spec fn all_effective_uid(&self) -> u32;

    /// Lists every user held by the container, one per bound uid.
    fn all_users(&self) -> (r: Vec<User>)
        requires
            self.all_wf(),
        ensures
            forall|i: int| 0 <= i < r@.len() ==> {
                let u = #[trigger] r@[i];
                &&& self.all_entries().contains_key(u.uid)
                &&& self.all_entries()[u.uid] matches Some(a) && *a == u
            },
            forall|k: u32| #[trigger] self.all_entries().contains_key(k) && self.all_entries()[k]
                is Some ==> exists|i: int| 0 <= i < r@.len() && r@[i].uid == k,
            forall|i: int, j: int| 0 <= i < j < r@.len() ==> r@[i].uid != r@[j].uid,
    ;

    /// Returns the user with the given uid, if the container holds one.
    fn user_by_uid(&self, uid: u32) -> (r: Option<&User>)
        requires
            self.all_wf(),
        ensures
            match r {
                Some(u) => self.all_entries().contains_key(uid) && (self.all_entries()[uid]
                    matches Some(a) && *a == *u),
                None => !self.all_entries().contains_key(uid) || self.all_entries()[uid] is None,
            },
    ;

    /// Returns the user with the given name, if the container holds one.
    fn user_by_name(&self, name: &str) -> (r: Option<&User>)
        requires
            self.all_wf(),
        ensures
            match probe_by_name(self.all_entries(), self.all_names(), name@) {
                Some(settled) => match settled {
                    Some(a) => r matches Some(u) && *u == *a,
                    None => r is None,
                },
                None => r is None,
            },
    ;

    /// Returns the real uid captured when the container was built.
    fn current_uid(&self) -> (r: u32)
        requires
            self.all_wf(),
        ensures
            r == self.all_current_uid(),
    ;

    /// Returns the effective uid captured when the container was built.
    fn effective_uid(&self) -> (r: u32)
        requires
            self.all_wf(),
        ensures
            r == self.all_effective_uid(),
    ;

    /// Returns the name of the user whose uid was captured as current,
    /// if the container holds that user.
    fn current_username(&self) -> (r: Option<&str>)
        requires
            self.all_wf(),
        ensures
            match r {
                Some(nm) => self.all_entries().contains_key(self.all_current_uid()) && (
                self.all_entries()[self.all_current_uid()] matches Some(a) && a.name@ == nm@),
                None => !self.all_entries().contains_key(self.all_current_uid())
                    || self.all_entries()[self.all_current_uid()] is None,
            },
    {
        match self.user_by_uid(self.current_uid()) {
            Some(u) => Some(u.name.as_str()),
            None => None,
        }
    }

    /// Returns the name of the user whose uid was captured as effective,
    /// if the container holds that user.
    fn effective_username(&self) -> (r: Option<&str>)
        requires
            self.all_wf(),
        ensures
            match r {
                Some(nm) => self.all_entries().contains_key(self.all_effective_uid()) && (
                self.all_entries()[self.all_effective_uid()] matches Some(a) && a.name@ == nm@),
                None => !self.all_entries().contains_key(self.all_effective_uid())
                    || self.all_entries()[self.all_effective_uid()] is None,
            },
    {
        match self.user_by_uid(self.effective_uid()) {
            Some(u) => Some(u.name.as_str()),
            None => None,
        }
    }
}

} // verus!
