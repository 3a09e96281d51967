//! The session store: one record per user, held in insertion order.
//!
//! The store is a sequence of `(user, record)` pairs with pairwise distinct
//! users, so a state snapshot lists sessions in the order they were created.
//! The spec functions here are the vocabulary of every coordinator contract;
//! the lemmas show how lookup behaves under an in-place update and under an
//! append, and in particular that both leave every other user's record
//! untouched.

use vstd::prelude::*;

use crate::ids::ActorId;
use crate::session::{session_ok, SessionInfo};

verus! {

/// No two entries belong to the same user.
pub open spec fn unique_keys(s: Seq<(ActorId, SessionInfo)>) -> bool {
    forall|i: int, j: int|
        0 <= i < s.len() && 0 <= j < s.len() && i != j ==> (#[trigger] s[i]).0 != (#[trigger] s[j]).0
}

/// Some entry belongs to `u`.
pub open spec fn has_session(s: Seq<(ActorId, SessionInfo)>, u: ActorId) -> bool {
    exists|i: int| 0 <= i < s.len() && (#[trigger] s[i]).0 == u
}

/// The position of `u`'s entry; meaningful only under `has_session`.
pub open spec fn session_index(s: Seq<(ActorId, SessionInfo)>, u: ActorId) -> int {
    choose|i: int| 0 <= i < s.len() && (#[trigger] s[i]).0 == u
}

/// The record stored for `u`; meaningful only under `has_session`.
pub open spec fn session_of(s: Seq<(ActorId, SessionInfo)>, u: ActorId) -> SessionInfo {
    s[session_index(s, u)].1
}

/// Well-formedness of the whole store: distinct users, sound records.
pub open spec fn sessions_ok(s: Seq<(ActorId, SessionInfo)>) -> bool {
    unique_keys(s) && (forall|i: int| 0 <= i < s.len() ==> session_ok((#[trigger] s[i]).1))
}

/// Every user other than `u` is stored in `s1` exactly as in `s0`.
pub open spec fn others_unchanged(
    s0: Seq<(ActorId, SessionInfo)>,
    s1: Seq<(ActorId, SessionInfo)>,
    u: ActorId,
) -> bool {
    forall|v: ActorId|
        #![trigger has_session(s1, v)]
        #![trigger session_of(s1, v)]
        v != u ==> has_session(s1, v) == has_session(s0, v) && (has_session(s0, v)
            ==> session_of(s1, v) == session_of(s0, v))
}

/// An entry found at position `i` is the entry lookup names.
pub proof fn lemma_found_index(s: Seq<(ActorId, SessionInfo)>, u: ActorId, i: int)
    requires
        unique_keys(s),
        0 <= i < s.len(),
        s[i].0 == u,
    ensures
        has_session(s, u),
        session_index(s, u) == i,
        session_of(s, u) == s[i].1,
{
    assert(has_session(s, u));
    let j = session_index(s, u);
    assert(0 <= j < s.len() && s[j].0 == u);
    if i != j {
        assert(s[i].0 != s[j].0);
    }
}

/// Replacing `u`'s record in place keeps the store well-keyed, stores the
/// new record for `u`, and leaves every other user's record as it was.
pub proof fn lemma_update_entry(s: Seq<(ActorId, SessionInfo)>, i: int, info: SessionInfo)
    requires
        sessions_ok(s),
        session_ok(info),
        0 <= i < s.len(),
    ensures
        sessions_ok(s.update(i, (s[i].0, info))),
        has_session(s.update(i, (s[i].0, info)), s[i].0),
        session_index(s.update(i, (s[i].0, info)), s[i].0) == i,
        session_of(s.update(i, (s[i].0, info)), s[i].0) == info,
        others_unchanged(s, s.update(i, (s[i].0, info)), s[i].0),
{
    let u = s[i].0;
    let s1 = s.update(i, (u, info));
    assert(forall|k: int| 0 <= k < s.len() ==> (#[trigger] s1[k]).0 == s[k].0);
    assert(unique_keys(s1));
    assert(forall|k: int| 0 <= k < s1.len() ==> session_ok((#[trigger] s1[k]).1));
    lemma_found_index(s1, u, i);
    assert forall|v: ActorId| v != u implies #[trigger] has_session(s1, v) == has_session(s, v) && (
    has_session(s, v) ==> session_of(s1, v) == session_of(s, v)) by {
        if has_session(s, v) {
            let j = session_index(s, v);
            assert(0 <= j < s.len() && s[j].0 == v);
            assert(s1[j].0 == v);
            lemma_found_index(s1, v, j);
            lemma_found_index(s, v, j);
        }
        if has_session(s1, v) {
            let j = session_index(s1, v);
            assert(0 <= j < s1.len() && s1[j].0 == v);
            assert(j != i);
            assert(s[j].0 == v);
            lemma_found_index(s, v, j);
        }
    }
}

/// Appending a record for a user not yet stored keeps the store well-keyed,
/// stores the record for that user at the end, and leaves every other
/// user's record as it was.
pub proof fn lemma_push_entry(s: Seq<(ActorId, SessionInfo)>, u: ActorId, info: SessionInfo)
    requires
        sessions_ok(s),
        session_ok(info),
        !has_session(s, u),
    ensures
        sessions_ok(s.push((u, info))),
        has_session(s.push((u, info)), u),
        session_index(s.push((u, info)), u) == s.len(),
        session_of(s.push((u, info)), u) == info,
        others_unchanged(s, s.push((u, info)), u),
{
    let s1 = s.push((u, info));
    assert(forall|k: int| 0 <= k < s.len() ==> (#[trigger] s1[k]) == s[k]);
    assert(s1[s.len() as int] == (u, info));
    assert forall|a: int, b: int|
        0 <= a < s1.len() && 0 <= b < s1.len() && a != b implies (#[trigger] s1[a]).0 != (
    #[trigger] s1[b]).0 by {
        if a < s.len() && b < s.len() {
            assert(s[a].0 != s[b].0);
        } else if a < s.len() {
            assert(s1[b].0 == u);
            assert(s[a].0 != u);
        } else {
            assert(s1[a].0 == u);
            assert(b < s.len());
            assert(s[b].0 != u);
        }
    }
    assert(forall|k: int| 0 <= k < s1.len() ==> session_ok((#[trigger] s1[k]).1));
    lemma_found_index(s1, u, s.len() as int);
    assert forall|v: ActorId| v != u implies #[trigger] has_session(s1, v) == has_session(s, v) && (
    has_session(s, v) ==> session_of(s1, v) == session_of(s, v)) by {
        if has_session(s, v) {
            let j = session_index(s, v);
            assert(0 <= j < s.len() && s[j].0 == v);
            assert(s1[j].0 == v);
            lemma_found_index(s1, v, j);
            lemma_found_index(s, v, j);
        }
        if has_session(s1, v) {
            let j = session_index(s1, v);
            assert(0 <= j < s1.len() && s1[j].0 == v);
            assert(j != s.len());
            assert(s[j].0 == v);
            lemma_found_index(s, v, j);
        }
    }
}

} // verus!
