//! The eager snapshot: a read-only container of user records collected
//! once, up front.
//!
//! Where the lazy cache fills its tables on demand, a snapshot is built
//! from a full enumeration of the user database, filtered by a
//! caller-supplied predicate, and never consults the collaborator again.
//! It is closed-world: a lookup that misses means the user genuinely is
//! not in the snapshot, not merely "not yet queried", and no lookup ever
//! mutates the snapshot.

use vstd::prelude::*;

use std::sync::Arc;

use crate::map::IdNameMap;
use crate::map::linked;
use crate::map::seq_keep;
use crate::map::tables_of;
use crate::map::user_keyed;
use crate::record::User;
use crate::traits::AllUsers;
use crate::traits::Users;
use crate::traits::probe_by_id;
use crate::traits::probe_by_name;

verus! {

/// A container of user records collected eagerly, plus the process
/// identity captured at construction time.
pub struct UsersSnapshot {
    users: IdNameMap<Arc<User>>,
    uid: u32,
    euid: u32,
}

impl UsersSnapshot {
    /// The index map is internally sound: keys are bound at most once,
    /// positive entries sit under their record's own uid, and a name bound
    /// to an id always leads to a positive record.
    pub closed spec fn wf(self) -> bool {
        &&& self.users.wf()
        &&& user_keyed(self.users.fwd())
        &&& linked(self.users.fwd(), self.users.bwd())
    }

    /// The forward user table: uid to positive or negative entry.
    pub closed spec fn users_table(self) -> Map<u32, Option<Arc<User>>> {
        self.users.fwd()
    }

    /// The backward user table: username to positive or negative id entry.
    pub closed spec fn usernames_table(self) -> Map<Seq<char>, Option<u32>> {
        self.users.bwd()
    }

    /// The real uid captured at construction.
    pub closed spec fn uid_val(self) -> u32 {
        self.uid
    }

    /// The effective uid captured at construction.
    pub closed spec fn euid_val(self) -> u32 {
        self.euid
    }

    /// Creates a snapshot containing exactly the given records, each filed
    /// under its own uid and name, later records winning either key, and
    /// the given process identity.
    pub fn from_users(users: &Vec<User>, current_uid: u32, effective_uid: u32) -> (r: Self)
        ensures
            r.wf(),
            tables_of(r.users_table(), r.usernames_table(), users@),
            r.uid_val() == current_uid,
            r.euid_val() == effective_uid,
    {
        let mut map: IdNameMap<Arc<User>> = IdNameMap::new();
        map.insert_records(users);
        UsersSnapshot { users: map, uid: current_uid, euid: effective_uid }
    }

    /// Creates a snapshot containing exactly the given records that pass
    /// the filter, and the given process identity. The witness sequence
    /// `keep` records the filter's verdict on each record in turn.
    pub fn filtered<F: Fn(&User) -> bool>(
        users: &Vec<User>,
        filter: F,
        current_uid: u32,
        effective_uid: u32,
    ) -> (r: Self)
        requires
            forall|u: &User| #[trigger] filter.requires((u,)),
        ensures
            r.wf(),
            r.uid_val() == current_uid,
            r.euid_val() == effective_uid,
            exists|keep: Seq<bool>|
                {
                    &&& #[trigger] keep.len() == users@.len()
                    &&& (forall|i: int| 0 <= i < users@.len() ==> filter.ensures(
                        (&users@[i],),
                        keep[i],
                    ))
                    &&& tables_of(r.users_table(), r.usernames_table(), seq_keep(users@, keep))
                },
    {
        let mut kept: Vec<User> = Vec::new();
        let ghost mut keep: Seq<bool> = Seq::empty();
        proof {
            assert(users@.subrange(0, 0) =~= Seq::<User>::empty());
        }
        let mut i: usize = 0;
        while i < users.len()
            invariant
                i <= users@.len(),
                keep.len() == i,
                forall|j: int| 0 <= j < i ==> filter.ensures((&users@[j],), keep[j]),
                kept@ == seq_keep(users@.subrange(0, i as int), keep),
                forall|u: &User| #[trigger] filter.requires((u,)),
            decreases users@.len() - i,
        {
            let ghost p0 = users@.subrange(0, i as int);
            let ghost keep0 = keep;
            let b = filter(&users[i]);
            proof {
                keep = keep.push(b);
            }
            if b {
                kept.push(users[i].clone());
            }
            proof {
                let p1 = users@.subrange(0, i as int + 1);
                assert(p1 =~= p0.push(users@[i as int]));
                assert(p1.drop_last() =~= p0);
                assert(keep.drop_last() =~= keep0);
            }
            i = i + 1;
        }
        proof {
            assert(users@.subrange(0, users@.len() as int) =~= users@);
        }
        let r = Self::from_users(&kept, current_uid, effective_uid);
        proof {
            assert({
                &&& keep.len() == users@.len()
                &&& (forall|i: int| 0 <= i < users@.len() ==> filter.ensures((&users@[i],), keep[i]))
                &&& tables_of(r.users_table(), r.usernames_table(), seq_keep(users@, keep))
            });
        }
        r
    }
}

impl AllUsers for UsersSnapshot {
    open spec fn all_wf(&self) -> bool {
        self.wf()
    }

    open spec fn all_entries(&self) -> Map<u32, Option<Arc<User>>> {
        self.users_table()
    }

    open spec fn all_names(&self) -> Map<Seq<char>, Option<u32>> {
        self.usernames_table()
    }

    open spec fn all_current_uid(&self) -> u32 {
        self.uid_val()
    }

    open spec fn all_effective_uid(&self) -> u32 {
        self.euid_val()
    }

    fn all_users(&self) -> (r: Vec<User>) {
        self.users.positive_records()
    }

    fn user_by_uid(&self, uid: u32) -> (r: Option<&User>) {
        match self.users.get_by_id(uid) {
            Some(entry) => match entry {
                Some(a) => Some(&**a),
                None => None,
            },
            None => None,
        }
    }

    fn user_by_name(&self, name: &str) -> (r: Option<&User>) {
        match self.users.get_by_name(name) {
            Some(entry) => match entry {
                Some(id) => self.user_by_uid(id),
                None => None,
            },
            None => None,
        }
    }

    fn current_uid(&self) -> (r: u32) {
        self.uid
    }

    fn effective_uid(&self) -> (r: u32) {
        self.euid
    }

    fn current_username(&self) -> (r: Option<&str>) {
        match self.user_by_uid(self.uid) {
            Some(u) => Some(u.name.as_str()),
            None => None,
        }
    }

    fn effective_username(&self) -> (r: Option<&str>) {
        match self.user_by_uid(self.euid) {
            Some(u) => Some(u.name.as_str()),
            None => None,
        }
    }
}

impl Users for UsersSnapshot {
    open spec fn users_wf(&self) -> bool {
        self.wf()
    }

    open spec fn user_entries(&self) -> Map<u32, Option<Arc<User>>> {
        Map::new(
            |k: u32| true,
            |k: u32|
                if self.users_table().contains_key(k) {
                    self.users_table()[k]
                } else {
                    None
                },
        )
    }

    open spec fn user_names(&self) -> Map<Seq<char>, Option<u32>> {
        Map::new(
            |n: Seq<char>| true,
            |n: Seq<char>|
                if self.usernames_table().contains_key(n) {
                    self.usernames_table()[n]
                } else {
                    None
                },
        )
    }

    open spec fn uid_slot(&self) -> Option<u32> {
        Some(self.uid_val())
    }

    open spec fn euid_slot(&self) -> Option<u32> {
        Some(self.euid_val())
    }

    fn get_user_by_uid(&mut self, uid: u32) -> (r: Option<Arc<User>>) {
        match self.users.get_by_id(uid) {
            Some(entry) => match entry {
                Some(a) => Some(a.clone()),
                None => None,
            },
            None => None,
        }
    }

    fn get_user_by_name(&mut self, name: &str) -> (r: Option<Arc<User>>) {
        match self.users.get_by_name(name) {
            Some(entry) => match entry {
                // A positive name entry always leads to a positive record
                // (the maps are linked, see the well-formedness invariant),
                // so the two failure arms below are unreachable.
                Some(id) => match self.users.get_by_id(id) {
                    Some(e) => match e {
                        Some(a) => Some(a.clone()),
                        None => {
                            proof {
                                assert(false);
                            }
                            None
                        },
                    },
                    None => {
                        proof {
                            assert(false);
                        }
                        None
                    },
                },
                None => None,
            },
            None => None,
        }
    }

    fn get_current_uid(&mut self) -> (r: u32) {
        self.uid
    }

    fn get_effective_uid(&mut self) -> (r: u32) {
        self.euid
    }

    fn get_current_username(&mut self) -> (r: Option<String>) {
        let uid = self.uid;
        match self.get_user_by_uid(uid) {
            Some(u) => Some(u.name.clone()),
            None => None,
        }
    }

    fn get_effective_username(&mut self) -> (r: Option<String>) {
        let uid = self.euid;
        match self.get_user_by_uid(uid) {
            Some(u) => Some(u.name.clone()),
            None => None,
        }
    }
}

} // verus!
