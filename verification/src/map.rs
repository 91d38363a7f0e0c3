//! A bidirectional index map: a forward table from numeric ids to entries,
//! and a backward table from names to ids.
//!
//! Each table is tri-state per key: a key may be absent (never queried),
//! mapped to `Some` (a positive entry), or mapped to `None` (a negative
//! entry: the key was queried and confirmed not to exist).
//!
//! The tables are association lists with distinct keys; their mathematical
//! content is the pair of maps [`IdNameMap::fwd`] and [`IdNameMap::bwd`].

use vstd::prelude::*;

use std::sync::Arc;

use crate::record::Group;
use crate::record::User;

verus! {

/// The map described by an association list: each pair binds its key,
/// later pairs winning.
pub open spec fn assoc_map<K, A>(s: Seq<(K, A)>) -> Map<K, A>
    decreases s.len(),
{
    if s.len() == 0 {
        Map::empty()
    } else {
        assoc_map(s.drop_last()).insert(s.last().0, s.last().1)
    }
}

/// No key occurs twice in the association list.
pub open spec fn distinct_keys<K, A>(s: Seq<(K, A)>) -> bool {
    forall|i: int, j: int| 0 <= i < j < s.len() ==> s[i].0 != s[j].0
}

/// The association list read through the views of its `String` keys.
pub open spec fn named_seq(s: Seq<(String, Option<u32>)>) -> Seq<(Seq<char>, Option<u32>)> {
    s.map_values(|p: (String, Option<u32>)| (p.0@, p.1))
}

proof fn lemma_assoc_map_domain<K, A>(s: Seq<(K, A)>, k: K)
    ensures
        assoc_map(s).contains_key(k) <==> exists|i: int| 0 <= i < s.len() && s[i].0 == k,
    decreases s.len(),
{
    if s.len() == 0 {
    } else {
        lemma_assoc_map_domain(s.drop_last(), k);
        if s.last().0 == k {
            assert(s[s.len() - 1].0 == k);
        } else {
            if exists|i: int| 0 <= i < s.len() && s[i].0 == k {
                let i = choose|i: int| 0 <= i < s.len() && s[i].0 == k;
                assert(s.drop_last()[i] == s[i]);
            }
            if exists|i: int| 0 <= i < s.drop_last().len() && s.drop_last()[i].0 == k {
                let i = choose|i: int| 0 <= i < s.drop_last().len() && s.drop_last()[i].0 == k;
                assert(s[i] == s.drop_last()[i]);
            }
        }
    }
}

proof fn lemma_distinct_drop_last<K, A>(s: Seq<(K, A)>)
    requires
        distinct_keys(s),
        s.len() > 0,
    ensures
        distinct_keys(s.drop_last()),
{
    assert forall|i: int, j: int| 0 <= i < j < s.drop_last().len() implies s.drop_last()[i].0
        != s.drop_last()[j].0 by {
        assert(s.drop_last()[i] == s[i]);
        assert(s.drop_last()[j] == s[j]);
    }
}

proof fn lemma_assoc_map_index<K, A>(s: Seq<(K, A)>, i: int)
    requires
        distinct_keys(s),
        0 <= i < s.len(),
    ensures
        assoc_map(s).contains_key(s[i].0),
        assoc_map(s)[s[i].0] == s[i].1,
    decreases s.len(),
{
    if i == s.len() - 1 {
        assert(s.last() == s[i]);
    } else {
        lemma_distinct_drop_last(s);
        assert(s.drop_last()[i] == s[i]);
        lemma_assoc_map_index(s.drop_last(), i);
        assert(s.last().0 != s[i].0);
    }
}

proof fn lemma_assoc_map_update<K, A>(s: Seq<(K, A)>, i: int, a: A)
    requires
        distinct_keys(s),
        0 <= i < s.len(),
    ensures
        assoc_map(s.update(i, (s[i].0, a))) == assoc_map(s).insert(s[i].0, a),
        distinct_keys(s.update(i, (s[i].0, a))),
    decreases s.len(),
{
    let k = s[i].0;
    let t = s.update(i, (k, a));
    assert forall|x: int, y: int| 0 <= x < y < t.len() implies t[x].0 != t[y].0 by {
        assert(t[x].0 == s[x].0);
        assert(t[y].0 == s[y].0);
    }
    if i == s.len() - 1 {
        assert(t.drop_last() =~= s.drop_last());
        assert(t.last() == (k, a));
        assert(assoc_map(t) == assoc_map(s.drop_last()).insert(k, a));
        assert(assoc_map(s) == assoc_map(s.drop_last()).insert(k, s[i].1));
        assert(assoc_map(s).insert(k, a) =~= assoc_map(s.drop_last()).insert(k, a));
    } else {
        lemma_distinct_drop_last(s);
        assert(s.drop_last()[i] == s[i]);
        lemma_assoc_map_update(s.drop_last(), i, a);
        assert(t.drop_last() =~= s.drop_last().update(i, (k, a)));
        assert(t.last() == s.last());
        assert(s.last().0 != k);
        assert(assoc_map(t) == assoc_map(s.drop_last()).insert(k, a).insert(
            s.last().0,
            s.last().1,
        ));
        assert(assoc_map(s.drop_last()).insert(k, a).insert(s.last().0, s.last().1)
            =~= assoc_map(s.drop_last()).insert(s.last().0, s.last().1).insert(k, a));
    }
}

proof fn lemma_assoc_map_push<K, A>(s: Seq<(K, A)>, k: K, a: A)
    requires
        distinct_keys(s),
        forall|i: int| 0 <= i < s.len() ==> s[i].0 != k,
    ensures
        assoc_map(s.push((k, a))) == assoc_map(s).insert(k, a),
        distinct_keys(s.push((k, a))),
{
    let t = s.push((k, a));
    assert(t.drop_last() =~= s);
    assert(t.last() == (k, a));
    assert forall|x: int, y: int| 0 <= x < y < t.len() implies t[x].0 != t[y].0 by {
        if y < t.len() - 1 {
            assert(t[x] == s[x]);
            assert(t[y] == s[y]);
        } else {
            assert(t[x] == s[x]);
        }
    }
}

/// Every positive backward entry leads to a positive forward entry: a name
/// bound to an id never dangles.
pub open spec fn linked<V>(fwd: Map<u32, Option<V>>, bwd: Map<Seq<char>, Option<u32>>) -> bool {
    forall|n: Seq<char>| #[trigger] bwd.contains_key(n) ==> match bwd[n] {
        Some(id) => fwd.contains_key(id) && fwd[id] is Some,
        None => true,
    }
}

/// Every positive forward user entry is filed under the record's own uid.
pub open spec fn user_keyed(fwd: Map<u32, Option<Arc<User>>>) -> bool {
    forall|k: u32| #[trigger] fwd.contains_key(k) ==> match fwd[k] {
        Some(v) => v.uid == k,
        None => true,
    }
}

/// Every positive forward group entry is filed under the record's own gid.
pub open spec fn group_keyed(fwd: Map<u32, Option<Arc<Group>>>) -> bool {
    forall|k: u32| #[trigger] fwd.contains_key(k) ==> match fwd[k] {
        Some(v) => v.gid == k,
        None => true,
    }
}

/// Some record of the sequence carries this uid.
pub open spec fn has_uid(s: Seq<User>, k: u32) -> bool {
    exists|i: int| 0 <= i < s.len() && s[i].uid == k
}

/// Some record of the sequence carries this name.
pub open spec fn has_name(s: Seq<User>, n: Seq<char>) -> bool {
    exists|i: int| 0 <= i < s.len() && s[i].name@ == n
}

/// The last record of the sequence carrying this uid.
pub open spec fn last_with_uid(s: Seq<User>, k: u32) -> User
    decreases s.len(),
{
    if s.len() == 0 {
        arbitrary()
    } else if s.last().uid == k {
        s.last()
    } else {
        last_with_uid(s.drop_last(), k)
    }
}

/// The last record of the sequence carrying this name.
pub open spec fn last_with_name(s: Seq<User>, n: Seq<char>) -> User
    decreases s.len(),
{
    if s.len() == 0 {
        arbitrary()
    } else if s.last().name@ == n {
        s.last()
    } else {
        last_with_name(s.drop_last(), n)
    }
}

/// The subsequence of records whose matching verdict is true.
pub open spec fn seq_keep<A>(s: Seq<A>, keep: Seq<bool>) -> Seq<A>
    decreases s.len(),
{
    if s.len() == 0 {
        Seq::empty()
    } else {
        let rest = seq_keep(s.drop_last(), keep.drop_last());
        if keep.len() == s.len() && keep.last() {
            rest.push(s.last())
        } else {
            rest
        }
    }
}

/// The tables hold exactly the given records, each filed positively under
/// its own uid and name, later records winning either key.
pub open spec fn tables_of(
    fwd: Map<u32, Option<Arc<User>>>,
    bwd: Map<Seq<char>, Option<u32>>,
    s: Seq<User>,
) -> bool {
    &&& forall|k: u32| #[trigger] has_uid(s, k) ==> fwd.contains_key(k) && (fwd[k] matches Some(a)
        && *a == last_with_uid(s, k))
    &&& forall|k: u32| #[trigger] fwd.contains_key(k) ==> has_uid(s, k)
    &&& forall|n: Seq<char>| #[trigger] has_name(s, n) ==> bwd.contains_key(n) && bwd[n] == Some(
        last_with_name(s, n).uid,
    )
    &&& forall|n: Seq<char>| #[trigger] bwd.contains_key(n) ==> has_name(s, n)
}

/// A two-table index binding numeric ids to entries and names to ids.
pub struct IdNameMap<V> {
    forward: Vec<(u32, Option<V>)>,
    backward: Vec<(String, Option<u32>)>,
}

impl<V> IdNameMap<V> {
    /// The forward table: numeric id to positive or negative entry.
    pub closed spec fn fwd(self) -> Map<u32, Option<V>> {
        assoc_map(self.forward@)
    }

    /// The backward table: name to positive or negative id entry.
    pub closed spec fn bwd(self) -> Map<Seq<char>, Option<u32>> {
        assoc_map(named_seq(self.backward@))
    }

    /// The tables hold each key at most once.
    pub closed spec fn wf(self) -> bool {
        distinct_keys(self.forward@) && distinct_keys(named_seq(self.backward@))
    }

    /// Creates an empty map.
    pub fn new() -> (r: Self)
        ensures
            r.wf(),
            r.fwd() == Map::<u32, Option<V>>::empty(),
            r.bwd() == Map::<Seq<char>, Option<u32>>::empty(),
    {
        let r = IdNameMap { forward: Vec::new(), backward: Vec::new() };
        proof {
            assert(r.forward@.len() == 0);
            assert(named_seq(r.backward@).len() == 0);
        }
        r
    }

    /// The index of `id` in the forward list, if it is there.
    fn find_fwd(&self, id: u32) -> (r: Option<usize>)
        ensures
            match r {
                Some(i) => i < self.forward@.len() && self.forward@[i as int].0 == id,
                None => forall|i: int| 0 <= i < self.forward@.len() ==> self.forward@[i].0 != id,
            },
    {
        let mut i: usize = 0;
        while i < self.forward.len()
            invariant
                i <= self.forward@.len(),
                forall|j: int| 0 <= j < i ==> self.forward@[j].0 != id,
            decreases self.forward@.len() - i,
        {
            if self.forward[i].0 == id {
                return Some(i);
            }
            i = i + 1;
        }
        None
    }

    /// The index of `name` in the backward list, if it is there.
    fn find_bwd(&self, name: &String) -> (r: Option<usize>)
        ensures
            match r {
                Some(i) => i < self.backward@.len() && self.backward@[i as int].0@ == name@,
                None => forall|i: int| 0 <= i < self.backward@.len() ==> self.backward@[i].0@
                    != name@,
            },
    {
        let mut i: usize = 0;
        while i < self.backward.len()
            invariant
                i <= self.backward@.len(),
                forall|j: int| 0 <= j < i ==> self.backward@[j].0@ != name@,
            decreases self.backward@.len() - i,
        {
            if self.backward[i].0 == *name {
                return Some(i);
            }
            i = i + 1;
        }
        None
    }

    /// Reads the forward entry for `id`: `None` means never queried,
    /// `Some(None)` a negative entry, `Some(Some(v))` a positive one.
    pub fn get_by_id(&self, id: u32) -> (r: Option<&Option<V>>)
        requires
            self.wf(),
        ensures
            match r {
                Some(e) => self.fwd().contains_key(id) && *e == self.fwd()[id],
                None => !self.fwd().contains_key(id),
            },
    {
        proof {
            lemma_assoc_map_domain(self.forward@, id);
        }
        match self.find_fwd(id) {
            Some(i) => {
                proof {
                    lemma_assoc_map_index(self.forward@, i as int);
                }
                Some(&self.forward[i].1)
            },
            None => None,
        }
    }

    /// Reads the backward entry for `name`, with the same tri-state reading
    /// as [`IdNameMap::get_by_id`].
    pub fn get_by_name(&self, name: &str) -> (r: Option<Option<u32>>)
        requires
            self.wf(),
        ensures
            match r {
                Some(e) => self.bwd().contains_key(name@) && e == self.bwd()[name@],
                None => !self.bwd().contains_key(name@),
            },
    {
        let key: String = name.to_owned();
        proof {
            lemma_assoc_map_domain(named_seq(self.backward@), name@);
        }
        match self.find_bwd(&key) {
            Some(i) => {
                proof {
                    assert(named_seq(self.backward@)[i as int].0 == name@);
                    lemma_assoc_map_index(named_seq(self.backward@), i as int);
                }
                Some(self.backward[i].1)
            },
            None => {
                proof {
                    assert forall|i: int| 0 <= i < named_seq(self.backward@).len() implies
                        named_seq(self.backward@)[i].0 != name@ by {
                        assert(named_seq(self.backward@)[i].0 == self.backward@[i].0@);
                    }
                }
                None
            },
        }
    }

    /// Writes `entry` at `id` in the forward table, replacing any prior
    /// binding of that id.
    fn put_fwd(&mut self, id: u32, entry: Option<V>)
        requires
            old(self).wf(),
        ensures
            final(self).wf(),
            final(self).fwd() == old(self).fwd().insert(id, entry),
            final(self).bwd() == old(self).bwd(),
    {
        match self.find_fwd(id) {
            Some(i) => {
                proof {
                    lemma_assoc_map_update(self.forward@, i as int, entry);
                }
                self.forward.set(i, (id, entry));
            },
            None => {
                proof {
                    lemma_assoc_map_push(self.forward@, id, entry);
                }
                self.forward.push((id, entry));
            },
        }
    }

    /// Writes `entry` at `name` in the backward table, replacing any prior
    /// binding of that name.
    fn put_bwd(&mut self, name: String, entry: Option<u32>)
        requires
            old(self).wf(),
        ensures
            final(self).wf(),
            final(self).fwd() == old(self).fwd(),
            final(self).bwd() == old(self).bwd().insert(name@, entry),
    {
        let ghost s0 = named_seq(self.backward@);
        match self.find_bwd(&name) {
            Some(i) => {
                proof {
                    assert(s0[i as int].0 == name@);
                    lemma_assoc_map_update(s0, i as int, entry);
                    assert(named_seq(self.backward@.update(i as int, (name, entry))) =~= s0.update(
                        i as int,
                        (name@, entry),
                    ));
                }
                self.backward.set(i, (name, entry));
            },
            None => {
                proof {
                    assert forall|j: int| 0 <= j < s0.len() implies s0[j].0 != name@ by {
                        assert(s0[j].0 == self.backward@[j].0@);
                    }
                    lemma_assoc_map_push(s0, name@, entry);
                    assert(named_seq(self.backward@.push((name, entry))) =~= s0.push(
                        (name@, entry),
                    ));
                }
                self.backward.push((name, entry));
            },
        }
    }

    /// Creates a positive entry: binds `id` to `value` forward, and `name`
    /// to `id` backward, replacing any prior entry for that id or name.
    pub fn insert(&mut self, id: u32, name: String, value: V)
        requires
            old(self).wf(),
        ensures
            final(self).wf(),
            final(self).fwd() == old(self).fwd().insert(id, Some(value)),
            final(self).bwd() == old(self).bwd().insert(name@, Some(id)),
    {
        self.put_fwd(id, Some(value));
        self.put_bwd(name, Some(id));
    }

    /// Records that a lookup of `id` found nothing: a negative forward entry.
    pub fn mark_absent_id(&mut self, id: u32)
        requires
            old(self).wf(),
        ensures
            final(self).wf(),
            final(self).fwd() == old(self).fwd().insert(id, None),
            final(self).bwd() == old(self).bwd(),
    {
        self.put_fwd(id, None);
    }

    /// Records that a lookup of `name` found nothing: a negative backward entry.
    pub fn mark_absent_name(&mut self, name: String)
        requires
            old(self).wf(),
        ensures
            final(self).wf(),
            final(self).fwd() == old(self).fwd(),
            final(self).bwd() == old(self).bwd().insert(name@, None),
    {
        self.put_bwd(name, None);
    }
}

proof fn lemma_tables_of_push(
    fwd: Map<u32, Option<Arc<User>>>,
    bwd: Map<Seq<char>, Option<u32>>,
    s: Seq<User>,
    u: User,
    a: Arc<User>,
)
    requires
        tables_of(fwd, bwd, s),
        *a == u,
    ensures
        tables_of(fwd.insert(u.uid, Some(a)), bwd.insert(u.name@, Some(u.uid)), s.push(u)),
{
    let s1 = s.push(u);
    let fwd1 = fwd.insert(u.uid, Some(a));
    let bwd1 = bwd.insert(u.name@, Some(u.uid));
    assert(s1.drop_last() =~= s);
    assert(s1.last() == u);
    assert forall|k: u32| #[trigger] has_uid(s1, k) implies fwd1.contains_key(k) && (fwd1[k]
        matches Some(x) && *x == last_with_uid(s1, k)) by {
        if k == u.uid {
            assert(last_with_uid(s1, k) == u);
        } else {
            let i = choose|i: int| 0 <= i < s1.len() && s1[i].uid == k;
            assert(i < s.len());
            assert(s[i] == s1[i]);
            assert(has_uid(s, k));
            assert(last_with_uid(s1, k) == last_with_uid(s, k));
        }
    }
    assert forall|k: u32| #[trigger] fwd1.contains_key(k) implies has_uid(s1, k) by {
        if k == u.uid {
            assert(s1[s1.len() - 1].uid == k);
        } else {
            assert(fwd.contains_key(k));
            assert(has_uid(s, k));
            let i = choose|i: int| 0 <= i < s.len() && s[i].uid == k;
            assert(s1[i].uid == k);
        }
    }
    assert forall|n: Seq<char>| #[trigger] has_name(s1, n) implies bwd1.contains_key(n) && bwd1[n]
        == Some(last_with_name(s1, n).uid) by {
        if n == u.name@ {
            assert(last_with_name(s1, n) == u);
        } else {
            let i = choose|i: int| 0 <= i < s1.len() && s1[i].name@ == n;
            assert(i < s.len());
            assert(s[i] == s1[i]);
            assert(has_name(s, n));
            assert(last_with_name(s1, n) == last_with_name(s, n));
        }
    }
    assert forall|n: Seq<char>| #[trigger] bwd1.contains_key(n) implies has_name(s1, n) by {
        if n == u.name@ {
            assert(s1[s1.len() - 1].name@ == n);
        } else {
            assert(bwd.contains_key(n));
            assert(has_name(s, n));
            let i = choose|i: int| 0 <= i < s.len() && s[i].name@ == n;
            assert(s1[i].name@ == n);
        }
    }
}

impl<V> Default for IdNameMap<V> {
    /// Creates an empty map.
    fn default() -> (r: Self)
        ensures
            r.wf(),
            r.fwd() == Map::<u32, Option<V>>::empty(),
            r.bwd() == Map::<Seq<char>, Option<u32>>::empty(),
    {
        IdNameMap::new()
    }
}

impl IdNameMap<Arc<User>> {
    /// Files every given record into empty tables, each keyed positively
    /// by its own uid and name; later records win either key.
    pub fn insert_records(&mut self, users: &Vec<User>)
        requires
            old(self).wf(),
            old(self).fwd() == Map::<u32, Option<Arc<User>>>::empty(),
            old(self).bwd() == Map::<Seq<char>, Option<u32>>::empty(),
        ensures
            final(self).wf(),
            tables_of(final(self).fwd(), final(self).bwd(), users@),
            user_keyed(final(self).fwd()),
            linked(final(self).fwd(), final(self).bwd()),
    {
        proof {
            assert(users@.subrange(0, 0) =~= Seq::<User>::empty());
        }
        let mut i: usize = 0;
        while i < users.len()
            invariant
                i <= users@.len(),
                self.wf(),
                tables_of(self.fwd(), self.bwd(), users@.subrange(0, i as int)),
                user_keyed(self.fwd()),
                linked(self.fwd(), self.bwd()),
            decreases users@.len() - i,
        {
            let u = &users[i];
            let arc = Arc::new(u.clone());
            let ghost fwd0 = self.fwd();
            let ghost bwd0 = self.bwd();
            let ghost p0 = users@.subrange(0, i as int);
            self.insert(u.uid, u.name.clone(), arc);
            proof {
                lemma_tables_of_push(fwd0, bwd0, p0, users@[i as int], arc);
                assert(users@.subrange(0, i as int + 1) =~= p0.push(users@[i as int]));
                assert forall|k: u32| #[trigger] self.fwd().contains_key(k) implies match self.fwd()[k] {
                    Some(v) => v.uid == k,
                    None => true,
                } by {
                    if k != users@[i as int].uid {
                        assert(fwd0.contains_key(k));
                    }
                }
                assert forall|n: Seq<char>| #[trigger] self.bwd().contains_key(n) implies match self.bwd()[n] {
                    Some(id) => self.fwd().contains_key(id) && self.fwd()[id] is Some,
                    None => true,
                } by {
                    if n != users@[i as int].name@ {
                        assert(bwd0.contains_key(n));
                    }
                }
            }
            i = i + 1;
        }
        proof {
            assert(users@.subrange(0, users@.len() as int) =~= users@);
        }
    }

    /// Copies out every positively cached record, one per bound id.
    pub fn positive_records(&self) -> (r: Vec<User>)
        requires
            self.wf(),
            forall|k: u32| #[trigger] self.fwd().contains_key(k) ==> match self.fwd()[k] {
                Some(v) => v.uid == k,
                None => true,
            },
        ensures
            forall|i: int| 0 <= i < r@.len() ==> {
                let u = #[trigger] r@[i];
                &&& self.fwd().contains_key(u.uid)
                &&& self.fwd()[u.uid] matches Some(a) && *a == u
            },
            forall|k: u32| #[trigger] self.fwd().contains_key(k) && self.fwd()[k] is Some
                ==> exists|i: int| 0 <= i < r@.len() && r@[i].uid == k,
            forall|i: int, j: int| 0 <= i < j < r@.len() ==> r@[i].uid != r@[j].uid,
    {
        let mut r: Vec<User> = Vec::new();
        let mut idx: usize = 0;
        while idx < self.forward.len()
            invariant
                idx <= self.forward@.len(),
                self.wf(),
                forall|k: u32| #[trigger] self.fwd().contains_key(k) ==> match self.fwd()[k] {
                    Some(v) => v.uid == k,
                    None => true,
                },
                forall|i: int| 0 <= i < r@.len() ==> {
                    let u = #[trigger] r@[i];
                    &&& self.fwd().contains_key(u.uid)
                    &&& self.fwd()[u.uid] matches Some(a) && *a == u
                },
                forall|j: int| 0 <= j < idx ==> match #[trigger] self.forward@[j].1 {
                    Some(v) => exists|i: int| 0 <= i < r@.len() && r@[i].uid
                        == self.forward@[j].0,
                    None => true,
                },
                forall|i: int| 0 <= i < r@.len() ==> exists|j: int| 0 <= j < idx
                    && self.forward@[j].0 == (#[trigger] r@[i]).uid,
                forall|i: int, j: int| 0 <= i < j < r@.len() ==> r@[i].uid != r@[j].uid,
            decreases self.forward@.len() - idx,
        {
            proof {
                lemma_assoc_map_index(self.forward@, idx as int);
            }
            match &self.forward[idx].1 {
                Some(a) => {
                    let ghost k = self.forward@[idx as int].0;
                    let ghost r0 = r@;
                    let u: User = (**a).clone();
                    proof {
                        assert(self.fwd().contains_key(k));
                        assert(self.fwd()[k] == self.forward@[idx as int].1);
                        assert(u.uid == k);
                    }
                    r.push(u);
                    proof {
                        assert(r@ == r0.push(u));
                        assert(r@[r@.len() - 1] == u);
                        assert forall|j: int| 0 <= j < idx + 1 implies match #[trigger] self.forward@[j].1 {
                            Some(v) => exists|i: int| 0 <= i < r@.len() && r@[i].uid
                                == self.forward@[j].0,
                            None => true,
                        } by {
                            if j < idx {
                                match self.forward@[j].1 {
                                    Some(v) => {
                                        let i = choose|i: int| 0 <= i < r0.len() && r0[i].uid
                                            == self.forward@[j].0;
                                        assert(r@[i] == r0[i]);
                                    },
                                    None => {},
                                }
                            } else {
                                assert(r@[r@.len() - 1].uid == self.forward@[j].0);
                            }
                        }
                        assert forall|i: int| 0 <= i < r@.len() implies exists|j: int| 0 <= j < idx
                            + 1 && self.forward@[j].0 == (#[trigger] r@[i]).uid by {
                            if i < r0.len() {
                                assert(r@[i] == r0[i]);
                                let j = choose|j: int| 0 <= j < idx && self.forward@[j].0
                                    == r0[i].uid;
                                assert(0 <= j < idx + 1 && self.forward@[j].0 == r@[i].uid);
                            } else {
                                assert(self.forward@[idx as int].0 == r@[i].uid);
                            }
                        }
                        assert forall|i1: int, i2: int| 0 <= i1 < i2 < r@.len() implies r@[i1].uid
                            != r@[i2].uid by {
                            if i2 < r0.len() {
                                assert(r@[i1] == r0[i1]);
                                assert(r@[i2] == r0[i2]);
                            } else {
                                assert(r@[i1] == r0[i1]);
                                assert(r@[i2] == u);
                                let j = choose|j: int| 0 <= j < idx && self.forward@[j].0
                                    == r0[i1].uid;
                                assert(self.forward@[j].0 != self.forward@[idx as int].0);
                            }
                        }
                    }
                },
                None => {},
            }
            idx = idx + 1;
        }
        proof {
            assert forall|k: u32| #[trigger] self.fwd().contains_key(k) && self.fwd()[k] is Some
                implies exists|i: int| 0 <= i < r@.len() && r@[i].uid == k by {
                lemma_assoc_map_domain(self.forward@, k);
                let j = choose|j: int| 0 <= j < self.forward@.len() && self.forward@[j].0 == k;
                lemma_assoc_map_index(self.forward@, j);
            }
        }
        r
    }
}

} // verus!
