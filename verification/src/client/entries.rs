//! Sequences of headers in the order of their names, and the mappings that
//! they stand for.
//!
//! A header set keeps its headers in a sequence in strictly ascending order of
//! the names. Such a sequence holds each name once, so it stands for a mapping
//! from name to value; and the mapping decides the sequence.

use crate::client::name_order::lemma_name_asymmetric;
use crate::client::name_order::lemma_name_connected;
use crate::client::name_order::lemma_name_irreflexive;
use crate::client::name_order::name_precedes;
use vstd::prelude::*;

verus! {

/// The names of `s` stand in strictly ascending order; so no name occurs twice.
pub open spec fn strictly_ascending(s: Seq<(Seq<char>, Seq<char>)>) -> bool {
    forall|i: int, j: int|
        #![trigger s[i], s[j]]
        0 <= i < j < s.len() ==> name_precedes(s[i].0, s[j].0)
}

/// The pairs of `pairs` as the contracts see them: each name and each value
/// by its characters.
pub open spec fn pair_views(pairs: Seq<(String, String)>) -> Seq<(Seq<char>, Seq<char>)> {
    Seq::new(pairs.len(), |i: int| (pairs[i].0@, pairs[i].1@))
}

/// `name` is the name of one of the headers of `s`.
pub open spec fn has_name(s: Seq<(Seq<char>, Seq<char>)>, name: Seq<char>) -> bool {
    exists|i: int| 0 <= i < s.len() && (#[trigger] s[i]).0 == name
}

/// The mapping that a sequence of headers stands for.
pub open spec fn as_map(s: Seq<(Seq<char>, Seq<char>)>) -> Map<Seq<char>, Seq<char>> {
    Map::new(
        |name: Seq<char>| has_name(s, name),
        |name: Seq<char>| s[choose|i: int| 0 <= i < s.len() && (#[trigger] s[i]).0 == name].1,
    )
}

/// In a sequence in strictly ascending order, the mapping has each header
/// under its name.
pub proof fn lemma_as_map_at(s: Seq<(Seq<char>, Seq<char>)>, i: int)
    requires
        strictly_ascending(s),
        0 <= i < s.len(),
    ensures
        as_map(s).contains_key(s[i].0),
        as_map(s)[s[i].0] == s[i].1,
{
    lemma_name_irreflexive(s[i].0);
}

/// A sequence in strictly ascending order stands for a finite mapping with as
/// many headers as the sequence has.
pub proof fn lemma_as_map_len(s: Seq<(Seq<char>, Seq<char>)>)
    requires
        strictly_ascending(s),
    ensures
        as_map(s).dom().finite(),
        as_map(s).len() == s.len(),
    decreases s.len(),
{
    if s.len() == 0 {
        assert(as_map(s) =~= Map::empty());
    } else {
        let front = s.drop_last();
        let last = s.last();
        lemma_as_map_len(front);
        lemma_push(front, last.0, last.1);
        assert(front.push((last.0, last.1)) =~= s);
        assert(!as_map(front).contains_key(last.0)) by {
            lemma_name_irreflexive(last.0);
        }
    }
}

/// A header whose name comes after every name of the sequence goes to its
/// end, and the mapping gains this one header.
pub proof fn lemma_push(s: Seq<(Seq<char>, Seq<char>)>, name: Seq<char>, value: Seq<char>)
    requires
        strictly_ascending(s),
        forall|i: int| 0 <= i < s.len() ==> name_precedes((#[trigger] s[i]).0, name),
    ensures
        strictly_ascending(s.push((name, value))),
        as_map(s.push((name, value))) == as_map(s).insert(name, value),
{
    lemma_insert_at(s, s.len() as int, name, value);
    assert(s.insert(s.len() as int, (name, value)) =~= s.push((name, value)));
}

/// A header put between the names that come before its own and those that
/// come after keeps the order, and the mapping gains this one header.
pub proof fn lemma_insert_at(
    s: Seq<(Seq<char>, Seq<char>)>,
    p: int,
    name: Seq<char>,
    value: Seq<char>,
)
    requires
        strictly_ascending(s),
        0 <= p <= s.len(),
        forall|i: int| 0 <= i < p ==> name_precedes((#[trigger] s[i]).0, name),
        forall|i: int| p <= i < s.len() ==> name_precedes(name, (#[trigger] s[i]).0),
    ensures
        strictly_ascending(s.insert(p, (name, value))),
        as_map(s.insert(p, (name, value))) == as_map(s).insert(name, value),
{
    let t = s.insert(p, (name, value));
    let want = as_map(s).insert(name, value);
    assert forall|k: Seq<char>| want.contains_key(k) implies as_map(t).contains_key(k) by {
        if k == name {
            assert(t[p].0 == k);
        } else {
            let i = choose|i: int| 0 <= i < s.len() && (#[trigger] s[i]).0 == k;
            if i < p {
                assert(t[i].0 == k);
            } else {
                assert(t[i + 1].0 == k);
            }
        }
    }
    assert forall|k: Seq<char>| as_map(t).contains_key(k) implies as_map(t)[k] == want[k] by {
        let i = choose|i: int| 0 <= i < t.len() && (#[trigger] t[i]).0 == k;
        if i < p {
            lemma_as_map_at(s, i);
            lemma_name_irreflexive(name);
        } else if i > p {
            lemma_as_map_at(s, i - 1);
            lemma_name_irreflexive(name);
        }
    }
}

/// A new value for a name that the sequence holds takes the place of the old
/// one, and nothing else changes.
pub proof fn lemma_update_at(
    s: Seq<(Seq<char>, Seq<char>)>,
    p: int,
    name: Seq<char>,
    value: Seq<char>,
)
    requires
        strictly_ascending(s),
        0 <= p < s.len(),
        s[p].0 == name,
    ensures
        strictly_ascending(s.update(p, (name, value))),
        as_map(s.update(p, (name, value))) == as_map(s).insert(name, value),
{
    let t = s.update(p, (name, value));
    let want = as_map(s).insert(name, value);
    assert forall|k: Seq<char>| want.contains_key(k) implies as_map(t).contains_key(k) by {
        if k == name {
            assert(t[p].0 == k);
        } else {
            let i = choose|i: int| 0 <= i < s.len() && (#[trigger] s[i]).0 == k;
            assert(t[i].0 == k);
        }
    }
    assert forall|k: Seq<char>| as_map(t).contains_key(k) implies as_map(t)[k] == want[k] by {
        let i = choose|i: int| 0 <= i < t.len() && (#[trigger] t[i]).0 == k;
        if i != p {
            lemma_as_map_at(s, i);
            lemma_name_irreflexive(name);
        }
    }
}

/// The place that a search by name arrives at decides whether the sequence
/// holds the name: it does if and only if the header at that place has it.
pub proof fn lemma_place_decides(s: Seq<(Seq<char>, Seq<char>)>, p: int, name: Seq<char>)
    requires
        strictly_ascending(s),
        0 <= p <= s.len(),
        forall|i: int| 0 <= i < p ==> name_precedes((#[trigger] s[i]).0, name),
        forall|i: int| p <= i < s.len() ==> !name_precedes((#[trigger] s[i]).0, name),
    ensures
        as_map(s).contains_key(name) <==> (p < s.len() && s[p].0 == name),
        !as_map(s).contains_key(name) ==> forall|i: int|
            p <= i < s.len() ==> name_precedes(name, (#[trigger] s[i]).0),
{
    lemma_name_irreflexive(name);
    if !as_map(s).contains_key(name) {
        assert forall|i: int| p <= i < s.len() implies name_precedes(
            name,
            (#[trigger] s[i]).0,
        ) by {
            lemma_name_connected(name, s[i].0);
        }
    }
}

/// The front part of a sequence in strictly ascending order is in strictly
/// ascending order, and each of its names comes before the name that follows
/// the part.
pub proof fn lemma_take(s: Seq<(Seq<char>, Seq<char>)>, n: int)
    requires
        strictly_ascending(s),
        0 <= n <= s.len(),
    ensures
        strictly_ascending(s.take(n)),
        n < s.len() ==> forall|i: int|
            0 <= i < n ==> name_precedes((#[trigger] s.take(n)[i]).0, s[n].0),
        n < s.len() ==> as_map(s.take(n + 1)) == as_map(s.take(n)).insert(s[n].0, s[n].1),
{
    let front = s.take(n);
    if n < s.len() {
        lemma_push(front, s[n].0, s[n].1);
        assert(front.push((s[n].0, s[n].1)) =~= s.take(n + 1));
    }
}

/// The mapping decides the sequence: two sequences in strictly ascending order
/// that stand for the same mapping are the same sequence.
pub proof fn lemma_entries_determined(
    s: Seq<(Seq<char>, Seq<char>)>,
    t: Seq<(Seq<char>, Seq<char>)>,
)
    requires
        strictly_ascending(s),
        strictly_ascending(t),
        as_map(s) == as_map(t),
    ensures
        s == t,
    decreases s.len(),
{
    lemma_as_map_len(s);
    lemma_as_map_len(t);
    if s.len() > 0 {
        let n = s.len() - 1;
        lemma_as_map_at(s, n);
        lemma_as_map_at(t, n);
        // The last name of each sequence is a name of the other.
        let i = choose|i: int| 0 <= i < t.len() && (#[trigger] t[i]).0 == s[n].0;
        let j = choose|j: int| 0 <= j < s.len() && (#[trigger] s[j]).0 == t[n].0;
        assert(s[n].0 == t[n].0) by {
            if i < n && j < n {
                lemma_name_asymmetric(s[n].0, t[n].0);
            }
        }
        lemma_take(s, n);
        lemma_take(t, n);
        let front_s = s.take(n);
        let front_t = t.take(n);
        assert(!as_map(front_s).contains_key(s[n].0) && !as_map(front_t).contains_key(t[n].0)) by {
            lemma_name_irreflexive(s[n].0);
        }
        assert(s.take(n + 1) =~= s);
        assert(t.take(n + 1) =~= t);
        assert(as_map(front_s) =~= as_map(s).remove(s[n].0));
        assert(as_map(front_t) =~= as_map(t).remove(t[n].0));
        lemma_entries_determined(front_s, front_t);
    }
}

} // verus!
