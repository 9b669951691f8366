//! Header sets: a mapping from header name to value that is kept in the order
//! of its names and merged with override semantics.
//!
//! Every name is put in lower case before it is stored, so that
//! `Content-Type` and `content-type` are one header: a set holds no name that
//! is not the lower-case form of a name. The value that was given last for a
//! name is the one the set holds.
//!
//! The headers are kept in a vector, in the order of the names. The order is
//! part of what a set is: it is the order in which the headers of a request
//! are looked at, and it makes a set with given headers one value.

use crate::client::entries::as_map;
use crate::client::entries::lemma_as_map_len;
use crate::client::entries::lemma_entries_determined;
use crate::client::entries::lemma_insert_at;
use crate::client::entries::lemma_place_decides;
use crate::client::entries::lemma_push;
use crate::client::entries::lemma_take;
use crate::client::entries::lemma_update_at;
use crate::client::entries::pair_views;
use crate::client::entries::strictly_ascending;
use crate::client::name_order::lemma_name_irreflexive;
use crate::client::name_order::lemma_name_transitive;
use crate::client::name_order::name_precedes;
use crate::client::name_order::order_of;
use crate::client::name_order::Order;
use crate::client::trusted::lowercase;
use crate::client::trusted::lowercased;
use vstd::prelude::*;

verus! {

/// `name` is in lower case: it is the lower-case form of some name.
pub open spec fn is_lower_case(name: Seq<char>) -> bool {
    exists|of: Seq<char>| #[trigger] lowercased(of) == name
}

/// Every name of `s` is in lower case.
pub open spec fn all_lower_case(s: Seq<(Seq<char>, Seq<char>)>) -> bool {
    forall|i: int| 0 <= i < s.len() ==> is_lower_case((#[trigger] s[i]).0)
}

/// What a merge yields: every header of `overrides`, and those headers of
/// `defaults` whose names `overrides` does not hold.
pub open spec fn merged(
    defaults: Map<Seq<char>, Seq<char>>,
    overrides: Map<Seq<char>, Seq<char>>,
) -> Map<Seq<char>, Seq<char>> {
    defaults.union_prefer_right(overrides)
}

/// What a set holds once the pairs of `pairs` have been inserted into `base`
/// one after the other, each name in lower case.
pub open spec fn inserted_all(
    base: Map<Seq<char>, Seq<char>>,
    pairs: Seq<(Seq<char>, Seq<char>)>,
) -> Map<Seq<char>, Seq<char>>
    decreases pairs.len(),
{
    if pairs.len() == 0 {
        base
    } else {
        inserted_all(base, pairs.drop_last()).insert(lowercased(pairs.last().0), pairs.last().1)
    }
}

/// A set of headers, each name once, kept in the order of the names.
#[derive(Debug)]
pub struct HeaderSet {
    entries: Vec<(String, String)>,
}

impl View for HeaderSet {
    type V = Map<Seq<char>, Seq<char>>;

    /// The mapping from name to value.
    open spec fn view(&self) -> Map<Seq<char>, Seq<char>> {
        as_map(self.entries())
    }
}

impl HeaderSet {
    /// The headers in the order in which the set keeps them.
    pub closed spec fn entries(&self) -> Seq<(Seq<char>, Seq<char>)> {
        pair_views(self.entries@)
    }

    /// What holds of every header set: its names are in lower case, and they
    /// stand in strictly ascending order.
    #[verifier::type_invariant]
    pub open spec fn well_formed(&self) -> bool {
        &&& strictly_ascending(self.entries())
        &&& all_lower_case(self.entries())
    }

    /// The empty set.
    pub fn new() -> (set: HeaderSet)
        ensures
            set.entries() == Seq::<(Seq<char>, Seq<char>)>::empty(),
            set@ == Map::<Seq<char>, Seq<char>>::empty(),
    {
        HeaderSet { entries: Vec::new() }
    }

    /// The number of headers.
    pub fn len(&self) -> (n: usize)
        ensures
            n == self.entries().len(),
            self@.dom().finite(),
            n == self@.len(),
    {
        proof {
            use_type_invariant(self);
            lemma_as_map_len(self.entries());
        }
        self.entries.len()
    }

    /// Whether the set holds no header.
    pub fn is_empty(&self) -> (empty: bool)
        ensures
            empty == (self.entries().len() == 0),
            empty == (self@ == Map::<Seq<char>, Seq<char>>::empty()),
    {
        proof {
            use_type_invariant(self);
            lemma_as_map_len(self.entries());
            if self.entries().len() == 0 {
                assert(self@ =~= Map::empty());
            }
        }
        self.entries.len() == 0
    }

    /// The header at place `i` in the order of the names, as name and value;
    /// `None` from the number of headers on.
    pub fn entry(&self, i: usize) -> (found: Option<(&String, &String)>)
        ensures
            match found {
                Some((name, value)) => i < self.entries().len() && (name@, value@)
                    == self.entries()[i as int],
                None => i >= self.entries().len(),
            },
    {
        if i < self.entries.len() {
            let e = &self.entries[i];
            Some((&e.0, &e.1))
        } else {
            None
        }
    }

    /// The first place whose name does not come before `name`.
    fn place(&self, name: &str) -> (p: usize)
        ensures
            p <= self.entries().len(),
            forall|i: int| 0 <= i < p ==> name_precedes((#[trigger] self.entries()[i]).0, name@),
            forall|i: int|
                p <= i < self.entries().len() ==> !name_precedes(
                    (#[trigger] self.entries()[i]).0,
                    name@,
                ),
    {
        proof {
            use_type_invariant(self);
        }
        let ghost s = self.entries();
        let mut lo: usize = 0;
        let mut hi: usize = self.entries.len();
        while lo < hi
            invariant
                s == self.entries(),
                strictly_ascending(s),
                lo <= hi <= s.len(),
                hi <= self.entries@.len(),
                forall|i: int| 0 <= i < lo ==> name_precedes((#[trigger] s[i]).0, name@),
                forall|i: int| hi <= i < s.len() ==> !name_precedes((#[trigger] s[i]).0, name@),
            decreases hi - lo,
        {
            let mid: usize = lo + (hi - lo) / 2;
            let here = order_of(self.entries[mid].0.as_str(), name);
            match here {
                Order::Before => {
                    proof {
                        assert forall|i: int| 0 <= i < mid + 1 implies name_precedes(
                            (#[trigger] s[i]).0,
                            name@,
                        ) by {
                            if i < mid {
                                lemma_name_transitive(s[i].0, s[mid as int].0, name@);
                            }
                        }
                    }
                    lo = mid + 1;
                },
                _ => {
                    proof {
                        assert forall|i: int| mid <= i < s.len() implies !name_precedes(
                            (#[trigger] s[i]).0,
                            name@,
                        ) by {
                            if i > mid && name_precedes(s[i].0, name@) {
                                lemma_name_transitive(s[mid as int].0, s[i].0, name@);
                            }
                        }
                    }
                    hi = mid;
                },
            }
        }
        lo
    }

    /// The value that the set holds for `name`, whatever the case of `name`.
    pub fn get(&self, name: &str) -> (found: Option<&String>)
        ensures
            match found {
                Some(value) => self@.contains_key(lowercased(name@)) && value@
                    == self@[lowercased(name@)],
                None => !self@.contains_key(lowercased(name@)),
            },
    {
        let key = lowercase(name);
        self.lookup(key.as_str())
    }

    /// The value that the set holds for the name `key`, taken as it is.
    pub fn lookup(&self, key: &str) -> (found: Option<&String>)
        ensures
            match found {
                Some(value) => self@.contains_key(key@) && value@ == self@[key@],
                None => !self@.contains_key(key@),
            },
    {
        let p: usize = self.place(key);
        proof {
            use_type_invariant(self);
            lemma_place_decides(self.entries(), p as int, key@);
        }
        if p < self.entries.len() {
            let e = &self.entries[p];
            match order_of(e.0.as_str(), key) {
                Order::Same => Some(&e.1),
                _ => None,
            }
        } else {
            None
        }
    }

    /// Stores `value` under the name `name`, which is in lower case. A value
    /// that the set held for this name is replaced.
    fn store(&mut self, name: String, value: String)
        requires
            is_lower_case(name@),
        ensures
            final(self)@ == old(self)@.insert(name@, value@),
    {
        let p: usize = self.place(name.as_str());
        proof {
            use_type_invariant(&*self);
            lemma_place_decides(self.entries(), p as int, name@);
        }
        let ghost before = self.entries();
        let mut entries: Vec<(String, String)> = Vec::new();
        std::mem::swap(&mut entries, &mut self.entries);
        let replace = if p < entries.len() {
            match order_of(entries[p].0.as_str(), name.as_str()) {
                Order::Same => true,
                _ => false,
            }
        } else {
            false
        };
        if replace {
            proof {
                lemma_update_at(before, p as int, name@, value@);
            }
            entries.set(p, (name, value));
            assert(before.update(p as int, (name@, value@)) =~= pair_views(entries@));
        } else {
            proof {
                lemma_insert_at(before, p as int, name@, value@);
            }
            entries.insert(p, (name, value));
            assert(before.insert(p as int, (name@, value@)) =~= pair_views(entries@));
        }
        self.entries = entries;
    }

    /// Stores `value` under the name `name` as it is given, if the name is in
    /// lower case: if putting it in lower case changes nothing. A value that
    /// the set held for this name is then replaced. Tells whether the header
    /// was stored; a name that is not in lower case leaves the set as it was.
    pub fn put(&mut self, name: String, value: String) -> (stored: bool)
        ensures
            stored == (lowercased(name@) == name@),
            stored ==> final(self)@ == old(self)@.insert(name@, value@),
            !stored ==> final(self)@ == old(self)@,
    {
        let lower = lowercase(name.as_str());
        if lower == name {
            self.store(name, value);
            true
        } else {
            false
        }
    }

    /// Stores `value` under `name` in lower case. A value that the set held for
    /// this name, in whatever case it was given, is replaced.
    pub fn insert(&mut self, name: &str, value: &str)
        ensures
            final(self)@ == old(self)@.insert(lowercased(name@), value@),
    {
        let key = lowercase(name);
        self.store(key, value.to_owned());
    }

    /// The set that holds the pairs of `pairs`, each name in lower case. Where
    /// two names have the same lower-case form, the later pair stays.
    pub fn from_pairs(pairs: &Vec<(String, String)>) -> (set: HeaderSet)
        ensures
            set@ == inserted_all(Map::empty(), pair_views(pairs@)),
    {
        let mut set = HeaderSet::new();
        let ghost all = pair_views(pairs@);
        let mut i: usize = 0;
        while i < pairs.len()
            invariant
                i <= pairs@.len(),
                all == pair_views(pairs@),
                set@ == inserted_all(Map::empty(), all.take(i as int)),
            decreases pairs@.len() - i,
        {
            let pair = &pairs[i];
            set.insert(pair.0.as_str(), pair.1.as_str());
            proof {
                assert(all.take(i + 1).drop_last() =~= all.take(i as int));
            }
            i = i + 1;
        }
        proof {
            assert(all.take(pairs@.len() as int) =~= all);
        }
        set
    }

    /// The headers as pairs of name and value, in the order of the names.
    pub fn pairs(&self) -> (pairs: Vec<(String, String)>)
        ensures
            pair_views(pairs@) == self.entries(),
    {
        let mut pairs: Vec<(String, String)> = Vec::new();
        let mut i: usize = 0;
        while i < self.entries.len()
            invariant
                i <= self.entries@.len(),
                pairs@.len() == i,
                forall|k: int|
                    0 <= k < i ==> (#[trigger] pairs@[k]).0@ == self.entries@[k].0@ && pairs@[k].1@
                        == self.entries@[k].1@,
            decreases self.entries@.len() - i,
        {
            let e = &self.entries[i];
            pairs.push((e.0.clone(), e.1.clone()));
            i = i + 1;
        }
        pairs
    }

    /// Merges the headers of `overrides` over those of `defaults`. Where both
    /// hold a name, the value of `overrides` stays; every other header of
    /// either set is kept. With no overrides the outcome is a copy of
    /// `defaults`.
    pub fn merge(defaults: &HeaderSet, overrides: &HeaderSet) -> (out: HeaderSet)
        ensures
            out@ == merged(defaults@, overrides@),
            overrides@ == Map::<Seq<char>, Seq<char>>::empty() ==> out.entries()
                == defaults.entries(),
    {
        proof {
            use_type_invariant(defaults);
            use_type_invariant(overrides);
        }
        let ghost d = defaults.entries();
        let ghost o = overrides.entries();
        let mut taken: Vec<(String, String)> = Vec::new();
        let mut i: usize = 0;
        let mut j: usize = 0;
        while i < defaults.entries.len() || j < overrides.entries.len()
            invariant
                d == pair_views(defaults.entries@),
                o == pair_views(overrides.entries@),
                strictly_ascending(d),
                strictly_ascending(o),
                all_lower_case(d),
                all_lower_case(o),
                i <= d.len(),
                j <= o.len(),
                strictly_ascending(pair_views(taken@)),
                all_lower_case(pair_views(taken@)),
                as_map(pair_views(taken@)) == merged(as_map(d.take(i as int)), as_map(o.take(j as int))),
                i < d.len() ==> forall|k: int|
                    0 <= k < taken@.len() ==> name_precedes(
                        (#[trigger] pair_views(taken@)[k]).0,
                        d[i as int].0,
                    ),
                j < o.len() ==> forall|k: int|
                    0 <= k < taken@.len() ==> name_precedes(
                        (#[trigger] pair_views(taken@)[k]).0,
                        o[j as int].0,
                    ),
            decreases (d.len() - i) + (o.len() - j),
        {
            let ghost t = pair_views(taken@);
            let from_defaults: bool;
            let from_overrides: bool;
            if j >= overrides.entries.len() {
                from_defaults = true;
                from_overrides = false;
            } else if i >= defaults.entries.len() {
                from_defaults = false;
                from_overrides = true;
            } else {
                match order_of(defaults.entries[i].0.as_str(), overrides.entries[j].0.as_str()) {
                    Order::Before => {
                        from_defaults = true;
                        from_overrides = false;
                    },
                    Order::After => {
                        from_defaults = false;
                        from_overrides = true;
                    },
                    Order::Same => {
                        from_defaults = true;
                        from_overrides = true;
                    },
                }
            }
            proof {
                lemma_take(d, i as int);
                lemma_take(o, j as int);
            }
            if from_overrides {
                let e = &overrides.entries[j];
                proof {
                    let name = o[j as int].0;
                    let value = o[j as int].1;
                    lemma_push(t, name, value);
                    assert forall|k: int|
                        0 <= k < t.len() && j + 1 < o.len() implies name_precedes(
                        (#[trigger] t[k]).0,
                        o[j + 1].0,
                    ) by {
                        lemma_name_transitive(t[k].0, name, o[j + 1].0);
                    }
                    assert forall|k: int|
                        0 <= k < t.len() && from_defaults && i + 1 < d.len() implies name_precedes(
                        (#[trigger] t[k]).0,
                        d[i + 1].0,
                    ) by {
                        lemma_name_transitive(t[k].0, name, d[i + 1].0);
                    }
                }
                taken.push((e.0.clone(), e.1.clone()));
                proof {
                    assert(pair_views(taken@) =~= t.push((o[j as int].0, o[j as int].1)));
                }
                j = j + 1;
                if from_defaults {
                    i = i + 1;
                }
            } else {
                let e = &defaults.entries[i];
                proof {
                    let name = d[i as int].0;
                    let value = d[i as int].1;
                    lemma_push(t, name, value);
                    assert(!as_map(o.take(j as int)).contains_key(name)) by {
                        if as_map(o.take(j as int)).contains_key(name) {
                            assert(as_map(t).contains_key(name));
                            lemma_name_irreflexive(name);
                        }
                    }
                    assert forall|k: int|
                        0 <= k < t.len() && i + 1 < d.len() implies name_precedes(
                        (#[trigger] t[k]).0,
                        d[i + 1].0,
                    ) by {
                        lemma_name_transitive(t[k].0, name, d[i + 1].0);
                    }
                }
                taken.push((e.0.clone(), e.1.clone()));
                proof {
                    assert(pair_views(taken@) =~= t.push((d[i as int].0, d[i as int].1)));
                }
                i = i + 1;
            }
        }
        proof {
            assert(d.take(d.len() as int) =~= d);
            assert(o.take(o.len() as int) =~= o);
        }
        let out = HeaderSet { entries: taken };
        proof {
            if overrides@ == Map::<Seq<char>, Seq<char>>::empty() {
                lemma_merge_empty_overrides(*defaults, *overrides, out);
            }
        }
        out
    }
}

impl Clone for HeaderSet {
    /// A copy that holds the same headers.
    fn clone(&self) -> (copy: HeaderSet)
        ensures
            copy.entries() == self.entries(),
            copy@ == self@,
    {
        proof {
            use_type_invariant(self);
        }
        HeaderSet { entries: self.pairs() }
    }
}

/// The law of merging. The merged mapping holds every name of `overrides` with
/// the value that `overrides` has for it, every name of `defaults` that
/// `overrides` does not hold with the value that `defaults` has for it, and no
/// other name.
pub proof fn lemma_merge_law(defaults: HeaderSet, overrides: HeaderSet)
    ensures
        forall|name: Seq<char>|
            overrides@.contains_key(name) ==> #[trigger] merged(
                defaults@,
                overrides@,
            ).contains_key(name) && merged(defaults@, overrides@)[name] == overrides@[name],
        forall|name: Seq<char>|
            defaults@.contains_key(name) && !overrides@.contains_key(name) ==> #[trigger] merged(
                defaults@,
                overrides@,
            ).contains_key(name) && merged(defaults@, overrides@)[name] == defaults@[name],
        forall|name: Seq<char>| #[trigger]
            merged(defaults@, overrides@).contains_key(name) ==> defaults@.contains_key(name)
                || overrides@.contains_key(name),
{
}

/// Merging with an empty set of overrides changes nothing: the outcome is the
/// set of defaults, header for header.
pub proof fn lemma_merge_empty_overrides(defaults: HeaderSet, overrides: HeaderSet, out: HeaderSet)
    requires
        defaults.well_formed(),
        out.well_formed(),
        overrides@ == Map::<Seq<char>, Seq<char>>::empty(),
        out@ == merged(defaults@, overrides@),
    ensures
        out@ == defaults@,
        out.entries() == defaults.entries(),
{
    assert(out@ =~= defaults@);
    lemma_entries_determined(out.entries(), defaults.entries());
}

/// Every name that a header set holds is in lower case.
pub proof fn lemma_names_are_lower_case(set: HeaderSet, name: Seq<char>)
    requires
        set.well_formed(),
        set@.contains_key(name),
    ensures
        is_lower_case(name),
{
}

/// The names of a header set are unique whatever their case: no two of them
/// have the same lower-case form. This holds as far as putting a name in
/// lower case a second time changes nothing, which the set cannot know of the
/// text that it is given.
pub proof fn lemma_names_are_unique_in_any_case(set: HeaderSet, a: Seq<char>, b: Seq<char>)
    requires
        forall|of: Seq<char>| #[trigger] lowercased(lowercased(of)) == lowercased(of),
        set.well_formed(),
        set@.contains_key(a),
        set@.contains_key(b),
        lowercased(a) == lowercased(b),
    ensures
        a == b,
{
    lemma_names_are_lower_case(set, a);
    lemma_names_are_lower_case(set, b);
}

/// Merging is deterministic: whatever a merge of the same two sets yields, it
/// is the same set, header for header and in the same order.
pub proof fn lemma_merge_is_deterministic(
    defaults: HeaderSet,
    overrides: HeaderSet,
    once: HeaderSet,
    again: HeaderSet,
)
    requires
        once.well_formed(),
        again.well_formed(),
        once@ == merged(defaults@, overrides@),
        again@ == merged(defaults@, overrides@),
    ensures
        once.entries() == again.entries(),
{
    lemma_entries_determined(once.entries(), again.entries());
}

/// The value that was given last for a name wins, whatever the case in
/// which the name was given: of two insertions under names with the same
/// lower-case form, the second alone shows.
pub proof fn lemma_last_insert_wins(
    set: Map<Seq<char>, Seq<char>>,
    first: Seq<char>,
    first_value: Seq<char>,
    second: Seq<char>,
    second_value: Seq<char>,
)
    requires
        lowercased(first) == lowercased(second),
    ensures
        inserted_all(set, seq![(first, first_value), (second, second_value)]) == inserted_all(
            set,
            seq![(second, second_value)],
        ),
        inserted_all(set, seq![(second, second_value)]) == set.insert(
            lowercased(second),
            second_value,
        ),
{
    reveal_with_fuel(inserted_all, 3);
}

/// Merging is case-insensitive. Of two sets with one header each, whose names
/// have the same lower-case form, the merge holds exactly one header: the
/// name in lower case, with the value from the overrides.
pub proof fn lemma_merge_ignores_case(
    default_name: Seq<char>,
    default_value: Seq<char>,
    override_name: Seq<char>,
    override_value: Seq<char>,
)
    requires
        lowercased(default_name) == lowercased(override_name),
    ensures
        merged(
            inserted_all(Map::empty(), seq![(default_name, default_value)]),
            inserted_all(Map::empty(), seq![(override_name, override_value)]),
        ) == Map::<Seq<char>, Seq<char>>::empty().insert(
            lowercased(override_name),
            override_value,
        ),
{
    reveal_with_fuel(inserted_all, 2);
}

} // verus!
