//! The laws that govern the caches, stated over the abstract tables that
//! the capability contracts of [`crate::traits`] expose.
//!
//! Each lookup contract says that a probe settled by the tables returns
//! the settled entry and leaves the producer untouched, and says exactly
//! which entries a miss files. The proof functions here connect the two:
//! what a miss files is what every later probe of the same key is settled
//! by, so the collaborator is consulted at most once per key.

use vstd::prelude::*;

use std::sync::Arc;

use crate::map::has_name;
use crate::map::has_uid;
use crate::map::tables_of;
use crate::record::User;
use crate::traits::probe_by_id;
use crate::traits::probe_by_name;

verus! {

/// Idempotence of by-id lookups: once a query for `id` has been settled —
/// its outcome filed, positively or negatively — a probe of the same `id`
/// is answered from the table with that very entry, so a second lookup
/// returns the identical record (or the same absence) without another
/// collaborator call.
pub proof fn lemma_settled_id_is_idempotent<V>(
    fwd: Map<u32, Option<V>>,
    id: u32,
    outcome: Option<V>,
)
    ensures
        probe_by_id(fwd.insert(id, outcome), id) == Some(outcome),
{
}

/// Negative caching of by-id lookups: a failed lookup files a negative
/// entry, and a probe of the same id then reports absence from the table
/// alone.
pub proof fn lemma_negative_id_settles<V>(fwd: Map<u32, Option<V>>, id: u32)
    ensures
        probe_by_id(fwd.insert(id, None::<V>), id) == Some(None::<V>),
{
}

/// Idempotence of by-name lookups: a successful lookup binds the queried
/// name to the record's id and files the record under that id, and a probe
/// of the same name is then settled with the identical record.
pub proof fn lemma_settled_name_is_idempotent<V>(
    fwd: Map<u32, Option<V>>,
    bwd: Map<Seq<char>, Option<u32>>,
    name: Seq<char>,
    id: u32,
    v: V,
)
    ensures
        probe_by_name(fwd.insert(id, Some(v)), bwd.insert(name, Some(id)), name) == Some(
            Some(v),
        ),
{
}

/// Negative caching of by-name lookups: a failed lookup files a negative
/// entry under the queried name and touches no forward entry, and a probe
/// of the same name then reports absence from the tables alone.
pub proof fn lemma_negative_name_settles<V>(
    fwd: Map<u32, Option<V>>,
    bwd: Map<Seq<char>, Option<u32>>,
    name: Seq<char>,
)
    ensures
        probe_by_name(fwd, bwd.insert(name, None), name) == Some(None::<V>),
{
}

/// Closed world: tables built from a list of records hold nothing else.
/// A uid or a name that no record of the list carries has no entry at all,
/// so every lookup of it reports absence — not merely "not yet queried".
pub proof fn lemma_closed_world(
    fwd: Map<u32, Option<Arc<User>>>,
    bwd: Map<Seq<char>, Option<u32>>,
    s: Seq<User>,
    k: u32,
    n: Seq<char>,
)
    requires
        tables_of(fwd, bwd, s),
    ensures
        !has_uid(s, k) ==> !fwd.contains_key(k),
        !has_name(s, n) ==> !bwd.contains_key(n),
{
}

/// Bidirectional consistency, id to name: a user record fetched by its uid
/// is filed under its own name too, so looking the result up again by that
/// name yields the same record.
pub proof fn lemma_bidirectional_uid_then_name(
    fwd: Map<u32, Option<Arc<User>>>,
    bwd: Map<Seq<char>, Option<u32>>,
    uid: u32,
    v: Arc<User>,
)
    requires
        v.uid == uid,
    ensures
        probe_by_name(fwd.insert(uid, Some(v)), bwd.insert(v.name@, Some(uid)), v.name@) == Some(
            Some(v),
        ),
{
}

/// Bidirectional consistency, name to id: a user record fetched by name is
/// filed under its own uid too, so looking the result up again by that uid
/// yields the same record.
pub proof fn lemma_bidirectional_name_then_uid(
    fwd: Map<u32, Option<Arc<User>>>,
    name: Seq<char>,
    v: Arc<User>,
)
    ensures
        probe_by_id(fwd.insert(v.uid, Some(v)), v.uid) == Some(Some(v)),
{
}

} // verus!
