//! Names in order: the byte order a `String` sorts by, and a map kept sorted by it.
//!
//! A UTF-8 string compares byte by byte, and UTF-8 preserves the order of code points, so the
//! order here compares `char`s. [`NameMap`] is an ordered map from names to values — every
//! listing this node produces "in name order" or "in id order" reads one.
use vstd::prelude::*;
use crate::text::chars_of;

verus! {

/// Whether `a` sorts strictly before `b`.
pub open spec fn lex_lt(a: Seq<char>, b: Seq<char>) -> bool
    decreases a.len(),
{
    if a.len() == 0 {
        b.len() > 0
    } else if b.len() == 0 {
        false
    } else if a[0] != b[0] {
        (a[0] as int) < (b[0] as int)
    } else {
        lex_lt(a.drop_first(), b.drop_first())
    }
}

/// Exactly one of `a < b`, `a == b`, `b < a`.
pub proof fn lemma_lex_trichotomy(a: Seq<char>, b: Seq<char>)
    ensures
        lex_lt(a, b) || a == b || lex_lt(b, a),
        !(lex_lt(a, b) && lex_lt(b, a)),
        !(lex_lt(a, b) && a == b),
    decreases a.len(),
{
    if a.len() > 0 && b.len() > 0 {
        if a[0] == b[0] {
            lemma_lex_trichotomy(a.drop_first(), b.drop_first());
            if a.drop_first() == b.drop_first() {
                assert(a =~= seq![a[0]] + a.drop_first());
                assert(b =~= seq![b[0]] + b.drop_first());
            }
        } else {
            assert(a != b);
            assert((a[0] as int) != (b[0] as int));
        }
    } else if a.len() == 0 && b.len() == 0 {
        assert(a =~= b);
    }
}

/// `<` is transitive.
pub proof fn lemma_lex_transitive(a: Seq<char>, b: Seq<char>, c: Seq<char>)
    requires
        lex_lt(a, b),
        lex_lt(b, c),
    ensures
        lex_lt(a, c),
    decreases a.len(),
{
    if a.len() > 0 && a[0] == b[0] && b[0] == c[0] {
        lemma_lex_transitive(a.drop_first(), b.drop_first(), c.drop_first());
    }
}

/// Where one name sorts against another.
#[derive(Debug, Clone, Copy, PartialEq, Eq)]
pub enum Order {
    /// Before.
    Before,
    /// The same name.
    Same,
    /// After.
    After,
}

/// Compares `a` and `b` in name order.
pub fn compare(a: &Vec<char>, b: &Vec<char>) -> (order: Order)
    ensures
        order == Order::Before <==> lex_lt(a@, b@),
        order == Order::Same <==> a@ == b@,
        order == Order::After <==> lex_lt(b@, a@),
{
    proof {
        lemma_lex_trichotomy(a@, b@);
    }
    let mut i: usize = 0;
    assert(a@.skip(0) =~= a@);
    assert(b@.skip(0) =~= b@);
    while i < a.len() && i < b.len()
        invariant
            i <= a@.len(),
            i <= b@.len(),
            forall|j: int| 0 <= j < i ==> a@[j] == b@[j],
            lex_lt(a@, b@) == lex_lt(a@.skip(i as int), b@.skip(i as int)),
            lex_lt(b@, a@) == lex_lt(b@.skip(i as int), a@.skip(i as int)),
        decreases a@.len() - i,
    {
        if a[i] != b[i] {
            proof {
                assert(a@.skip(i as int)[0] == a@[i as int]);
                assert(b@.skip(i as int)[0] == b@[i as int]);
                lemma_lex_trichotomy(a@, b@);
            }
            if a[i] < b[i] {
                return Order::Before;
            } else {
                return Order::After;
            }
        }
        assert(a@.skip(i as int).drop_first() =~= a@.skip(i + 1));
        assert(b@.skip(i as int).drop_first() =~= b@.skip(i + 1));
        i = i + 1;
    }
    proof {
        lemma_lex_trichotomy(a@, b@);
    }
    if a.len() == b.len() {
        assert(a@ =~= b@);
        Order::Same
    } else if a.len() < b.len() {
        Order::Before
    } else {
        Order::After
    }
}

/// Compares two strings in name order.
pub fn compare_str(a: &str, b: &str) -> (order: Order)
    ensures
        order == Order::Before <==> lex_lt(a@, b@),
        order == Order::Same <==> a@ == b@,
        order == Order::After <==> lex_lt(b@, a@),
{
    let a = chars_of(a);
    let b = chars_of(b);
    compare(&a, &b)
}

// ── a map kept in name order ────────────────────────────────────────────────────────────────

/// Whether the keys of `entries` strictly increase.
pub open spec fn sorted<V>(entries: Seq<(String, V)>) -> bool {
    forall|i: int, j: int| 0 <= i < j < entries.len() ==> lex_lt(entries[i].0@, entries[j].0@)
}

/// The map a sorted sequence of entries stands for.
pub open spec fn map_of<V>(entries: Seq<(String, V)>) -> Map<Seq<char>, V>
    decreases entries.len(),
{
    if entries.len() == 0 {
        Map::empty()
    } else {
        map_of(entries.drop_last()).insert(entries.last().0@, entries.last().1)
    }
}

/// A key is in the map exactly when some entry carries it, and it maps to that entry's
/// value — the entry being unique when the keys increase.
pub proof fn lemma_map_of<V>(entries: Seq<(String, V)>)
    requires
        sorted(entries),
    ensures
        forall|k: Seq<char>| #[trigger] map_of(entries).contains_key(k) <==> exists|i: int|
            0 <= i < entries.len() && entries[i].0@ == k,
        forall|i: int| 0 <= i < entries.len() ==> #[trigger] map_of(entries)[entries[i].0@] == entries[i].1,
        map_of(entries).dom().finite(),
        map_of(entries).dom().len() == entries.len(),
    decreases entries.len(),
{
    if entries.len() > 0 {
        let rest = entries.drop_last();
        assert(sorted(rest));
        lemma_map_of(rest);
        let last = entries.last();
        assert forall|i: int| 0 <= i < rest.len() implies rest[i].0@ != last.0@ by {
            lemma_lex_trichotomy(rest[i].0@, last.0@);
        }
        assert(!map_of(rest).contains_key(last.0@));
        assert forall|k: Seq<char>| #[trigger] map_of(entries).contains_key(k) <==> exists|i: int|
            0 <= i < entries.len() && entries[i].0@ == k by {
            if map_of(entries).contains_key(k) && k != last.0@ {
                let i = choose|i: int| 0 <= i < rest.len() && rest[i].0@ == k;
                assert(entries[i] == rest[i]);
            }
            if exists|i: int| 0 <= i < entries.len() && entries[i].0@ == k {
                let i = choose|i: int| 0 <= i < entries.len() && entries[i].0@ == k;
                if i < rest.len() {
                    assert(rest[i] == entries[i]);
                }
            }
        }
        assert forall|i: int| 0 <= i < entries.len() implies #[trigger] map_of(entries)[entries[i].0@]
            == entries[i].1 by {
            if i < rest.len() {
                assert(rest[i] == entries[i]);
            }
        }
    }
}

/// An ordered map from names to values: at most one entry per name, listed in name order.
#[derive(Debug)]
pub struct NameMap<V> {
    entries: Vec<(String, V)>,
}

impl<V> NameMap<V> {
    /// The entries' keys strictly increase.
    #[verifier::type_invariant]
    spec fn in_order(self) -> bool {
        sorted(self.entries@)
    }

    /// The map this stands for.
    pub closed spec fn view(&self) -> Map<Seq<char>, V> {
        map_of(self.entries@)
    }

    /// The entries, in name order.
    pub closed spec fn listing(&self) -> Seq<(String, V)> {
        self.entries@
    }

    /// An empty map.
    pub fn new() -> (map: NameMap<V>)
        ensures
            map.view() == Map::<Seq<char>, V>::empty(),
            map.listing().len() == 0,
    {
        NameMap { entries: Vec::new() }
    }

    /// How many names there are.
    pub fn len(&self) -> (n: usize)
        ensures
            n == self.listing().len(),
            n == self.view().dom().len(),
    {
        proof {
            use_type_invariant(&*self);
            lemma_map_of(self.entries@);
        }
        self.entries.len()
    }

    /// The entries, in name order: one per key, each key mapping to its entry's value.
    pub fn entries(&self) -> (entries: &Vec<(String, V)>)
        ensures
            entries@ == self.listing(),
            map_of(entries@) == self.view(),
            sorted(self.listing()),
            forall|k: Seq<char>| #[trigger] self.view().contains_key(k) <==> exists|i: int|
                0 <= i < self.listing().len() && self.listing()[i].0@ == k,
            forall|i: int| 0 <= i < self.listing().len() ==> #[trigger] self.view()[self.listing()[i].0@]
                == self.listing()[i].1,
            self.view().dom().finite(),
            self.view().dom().len() == self.listing().len(),
    {
        proof {
            use_type_invariant(self);
            lemma_map_of(self.entries@);
        }
        &self.entries
    }

    /// Where `key` is, or where it would go: the first index whose key is not before it.
    fn position(&self, key: &Vec<char>) -> (at: (usize, bool))
        ensures
            at.0 <= self.listing().len(),
            forall|i: int| 0 <= i < at.0 ==> lex_lt(#[trigger] self.listing()[i].0@, key@),
            at.1 <==> (at.0 < self.listing().len() && self.listing()[at.0 as int].0@ == key@),
            !at.1 ==> forall|i: int| at.0 <= i < self.listing().len() ==> lex_lt(key@, #[trigger] self.listing()[i].0@),
    {
        proof {
            use_type_invariant(self);
        }
        let mut i: usize = 0;
        while i < self.entries.len()
            invariant
                i <= self.entries@.len(),
                sorted(self.entries@),
                forall|j: int| 0 <= j < i ==> lex_lt(#[trigger] self.entries@[j].0@, key@),
            decreases self.entries@.len() - i,
        {
            let here = chars_of(self.entries[i].0.as_str());
            match compare(&here, key) {
                Order::Before => {
                    i = i + 1;
                },
                Order::Same => {
                    return (i, true);
                },
                Order::After => {
                    proof {
                        assert forall|j: int| i <= j < self.entries@.len() implies lex_lt(
                            key@,
                            #[trigger] self.entries@[j].0@,
                        ) by {
                            if j > i {
                                lemma_lex_transitive(key@, self.entries@[i as int].0@, self.entries@[j].0@);
                            }
                        }
                    }
                    return (i, false);
                },
            }
        }
        (i, false)
    }

    /// The value under `key`, if there is one.
    pub fn get(&self, key: &str) -> (value: Option<&V>)
        ensures
            match value {
                Some(v) => self.view().contains_key(key@) && self.view()[key@] == *v,
                None => !self.view().contains_key(key@),
            },
    {
        proof {
            use_type_invariant(&*self);
            lemma_map_of(self.entries@);
        }
        let k = chars_of(key);
        let (at, found) = self.position(&k);
        if found {
            Some(&self.entries[at].1)
        } else {
            proof {
                assert forall|i: int| 0 <= i < self.listing().len() implies self.listing()[i].0@ != key@ by {
                    if i < at {
                        lemma_lex_trichotomy(self.listing()[i].0@, key@);
                    } else {
                        lemma_lex_trichotomy(key@, self.listing()[i].0@);
                    }
                }
            }
            None
        }
    }

    /// Puts `value` under `key`, and hands back what was there.
    ///
    /// A name is replaced, never doubled.
    pub fn insert(&mut self, key: String, value: V) -> (previous: Option<V>)
        ensures
            final(self).view() == old(self).view().insert(key@, value),
            match previous {
                Some(p) => old(self).view().contains_key(key@) && old(self).view()[key@] == p,
                None => !old(self).view().contains_key(key@),
            },
    {
        proof {
            use_type_invariant(&*self);
            lemma_map_of(self.entries@);
        }
        let k = chars_of(key.as_str());
        let (at, found) = self.position(&k);
        let ghost before = self.entries@;
        let mut entries: Vec<(String, V)> = Vec::new();
        std::mem::swap(&mut entries, &mut self.entries);
        proof {
            assert(entries@ == before);
        }
        let previous = if found {
            let (_, old_value) = entries.remove(at);
            entries.insert(at, (key, value));
            Some(old_value)
        } else {
            entries.insert(at, (key, value));
            proof {
                assert forall|i: int| 0 <= i < before.len() implies before[i].0@ != k@ by {
                    if i < at {
                        lemma_lex_trichotomy(before[i].0@, k@);
                    } else {
                        lemma_lex_trichotomy(k@, before[i].0@);
                    }
                }
            }
            None
        };
        proof {
            let after = entries@;
            assert(sorted(after)) by {
                assert forall|i: int, j: int| 0 <= i < j < after.len() implies lex_lt(
                    after[i].0@,
                    after[j].0@,
                ) by {
                    if found {
                        if i != at && j != at {
                            assert(after[i] == before[i] && after[j] == before[j]);
                        } else if i == at {
                            assert(after[j] == before[j]);
                            assert(before[at as int].0@ == k@);
                        } else {
                            assert(after[i] == before[i]);
                            assert(before[at as int].0@ == k@);
                        }
                    } else {
                        if j < at {
                            assert(after[i] == before[i] && after[j] == before[j]);
                        } else if i > at {
                            assert(after[i] == before[i - 1] && after[j] == before[j - 1]);
                        } else if i == at {
                            assert(after[j] == before[j - 1]);
                        } else if j == at {
                            assert(after[i] == before[i]);
                        } else {
                            assert(after[i] == before[i] && after[j] == before[j - 1]);
                            lemma_lex_transitive(before[i].0@, k@, before[j - 1].0@);
                        }
                    }
                }
            }
            lemma_map_of(after);
            lemma_map_of(before);
            let expected = map_of(before).insert(k@, value);
            assert forall|q: Seq<char>| #[trigger] map_of(after).contains_key(q) <==> expected.contains_key(q) by {
                if map_of(after).contains_key(q) {
                    let i = choose|i: int| 0 <= i < after.len() && after[i].0@ == q;
                    if i != at {
                        if found || i < at {
                            assert(after[i] == before[i]);
                        } else {
                            assert(after[i] == before[i - 1]);
                        }
                    }
                }
                if expected.contains_key(q) && q != k@ {
                    let i = choose|i: int| 0 <= i < before.len() && before[i].0@ == q;
                    if found {
                        assert(after[i] == before[i]);
                    } else if i < at {
                        assert(after[i] == before[i]);
                    } else {
                        assert(after[i + 1] == before[i]);
                    }
                }
                if q == k@ {
                    assert(after[at as int].0@ == k@);
                }
            }
            assert forall|q: Seq<char>| #[trigger] map_of(after).contains_key(q) implies map_of(after)[q]
                == expected[q] by {
                let i = choose|i: int| 0 <= i < after.len() && after[i].0@ == q;
                assert(map_of(after)[after[i].0@] == after[i].1);
                if i == at {
                    assert(after[i].0@ == k@);
                    assert(after[i].1 == value);
                } else if found || i < at {
                    assert(after[i] == before[i]);
                    if found {
                        lemma_lex_trichotomy(before[i].0@, before[at as int].0@);
                        lemma_lex_trichotomy(before[at as int].0@, before[i].0@);
                    } else {
                        lemma_lex_trichotomy(before[i].0@, k@);
                    }
                    assert(q != k@);
                    assert(map_of(before)[before[i].0@] == before[i].1);
                } else {
                    assert(after[i] == before[i - 1]);
                    lemma_lex_trichotomy(k@, before[i - 1].0@);
                    assert(q != k@);
                    assert(map_of(before)[before[i - 1].0@] == before[i - 1].1);
                }
            }
            assert(map_of(after) =~= expected);
        }
        self.entries = entries;
        previous
    }

    /// Takes `key` out, and hands back what was under it.
    pub fn remove(&mut self, key: &str) -> (removed: Option<V>)
        ensures
            final(self).view() == old(self).view().remove(key@),
            match removed {
                Some(p) => old(self).view().contains_key(key@) && old(self).view()[key@] == p,
                None => !old(self).view().contains_key(key@),
            },
    {
        proof {
            use_type_invariant(&*self);
            lemma_map_of(self.entries@);
        }
        let k = chars_of(key);
        let (at, found) = self.position(&k);
        if !found {
            proof {
                assert forall|i: int| 0 <= i < self.listing().len() implies self.listing()[i].0@ != key@ by {
                    if i < at {
                        lemma_lex_trichotomy(self.listing()[i].0@, key@);
                    } else {
                        lemma_lex_trichotomy(key@, self.listing()[i].0@);
                    }
                }
                assert(self.view().remove(key@) =~= self.view());
            }
            return None;
        }
        let ghost before = self.entries@;
        let mut entries: Vec<(String, V)> = Vec::new();
        std::mem::swap(&mut entries, &mut self.entries);
        let (_, value) = entries.remove(at);
        proof {
            let after = entries@;
            assert(sorted(after)) by {
                assert forall|i: int, j: int| 0 <= i < j < after.len() implies lex_lt(
                    after[i].0@,
                    after[j].0@,
                ) by {
                    if j < at {
                        assert(after[i] == before[i] && after[j] == before[j]);
                    } else if i >= at {
                        assert(after[i] == before[i + 1] && after[j] == before[j + 1]);
                    } else {
                        assert(after[i] == before[i] && after[j] == before[j + 1]);
                    }
                }
            }
            lemma_map_of(after);
            lemma_map_of(before);
            let expected = map_of(before).remove(k@);
            assert forall|q: Seq<char>| #[trigger] map_of(after).contains_key(q) <==> expected.contains_key(q) by {
                if map_of(after).contains_key(q) {
                    let i = choose|i: int| 0 <= i < after.len() && after[i].0@ == q;
                    if i < at {
                        assert(after[i] == before[i]);
                        lemma_lex_trichotomy(before[i].0@, k@);
                    } else {
                        assert(after[i] == before[i + 1]);
                        lemma_lex_trichotomy(k@, before[i + 1].0@);
                    }
                }
                if expected.contains_key(q) {
                    let i = choose|i: int| 0 <= i < before.len() && before[i].0@ == q;
                    if i < at {
                        assert(after[i] == before[i]);
                    } else if i > at {
                        assert(after[i - 1] == before[i]);
                    }
                }
            }
            assert forall|q: Seq<char>| #[trigger] map_of(after).contains_key(q) implies map_of(after)[q]
                == expected[q] by {
                let i = choose|i: int| 0 <= i < after.len() && after[i].0@ == q;
                if i < at {
                    assert(after[i] == before[i]);
                    lemma_lex_trichotomy(before[i].0@, k@);
                } else {
                    assert(after[i] == before[i + 1]);
                    lemma_lex_trichotomy(k@, before[i + 1].0@);
                }
            }
            assert(map_of(after) =~= expected);
        }
        self.entries = entries;
        Some(value)
    }
}

/// `name` is one of `names`.
pub open spec fn listed(names: Seq<String>, name: Seq<char>) -> bool {
    exists|j: int| 0 <= j < names.len() && (#[trigger] names[j])@ == name
}

/// `names` in name order, each once: the names of a directory, as two calls on an unchanged
/// one list them identically.
pub fn sort_names(names: &Vec<String>) -> (out: Vec<String>)
    ensures
        forall|i: int, j: int| 0 <= i < j < out@.len() ==> lex_lt(out@[i]@, out@[j]@),
        forall|i: int| 0 <= i < out@.len() ==> #[trigger] listed(names@, out@[i]@),
        forall|j: int| 0 <= j < names@.len() ==> #[trigger] listed(out@, names@[j]@),
{
    let mut map: NameMap<bool> = NameMap::new();
    let mut i: usize = 0;
    while i < names.len()
        invariant
            i <= names@.len(),
            forall|k: Seq<char>| #[trigger] map.view().contains_key(k) <==> listed(names@.subrange(0, i as int), k),
        decreases names@.len() - i,
    {
        map.insert(names[i].clone(), true);
        proof {
            let next = names@.subrange(0, i + 1);
            assert forall|k: Seq<char>| #[trigger] map.view().contains_key(k) <==> listed(next, k) by {
                if listed(names@.subrange(0, i as int), k) {
                    let j = choose|j: int| 0 <= j < i && (#[trigger] names@.subrange(0, i as int)[j])@ == k;
                    assert(next[j] == names@.subrange(0, i as int)[j]);
                }
                if listed(next, k) {
                    let j = choose|j: int| 0 <= j < i + 1 && (#[trigger] next[j])@ == k;
                    if j < i {
                        assert(names@.subrange(0, i as int)[j] == next[j]);
                    }
                }
                assert(next[i as int] == names@[i as int]);
            }
        }
        i = i + 1;
    }
    assert(names@.subrange(0, names@.len() as int) =~= names@);
    let entries = map.entries();
    let mut out: Vec<String> = Vec::new();
    let mut n: usize = 0;
    while n < entries.len()
        invariant
            n <= entries@.len(),
            out@.len() == n,
            forall|m: int| 0 <= m < n ==> #[trigger] out@[m] == entries@[m].0,
        decreases entries@.len() - n,
    {
        out.push(entries[n].0.clone());
        n = n + 1;
    }
    proof {
        assert forall|a: int, b: int| 0 <= a < b < out@.len() implies lex_lt(out@[a]@, out@[b]@) by {
            assert(out@[a] == entries@[a].0);
            assert(out@[b] == entries@[b].0);
        }
        assert forall|m: int| 0 <= m < out@.len() implies #[trigger] listed(names@, out@[m]@) by {
            assert(out@[m] == entries@[m].0);
            assert(map.view().contains_key(entries@[m].0@));
        }
        assert forall|j: int| 0 <= j < names@.len() implies #[trigger] listed(out@, names@[j]@) by {
            assert(listed(names@, names@[j]@));
            assert(map.view().contains_key(names@[j]@));
            let m = choose|m: int| 0 <= m < entries@.len() && entries@[m].0@ == names@[j]@;
            assert(out@[m] == entries@[m].0);
        }
    }
    out
}

} // verus!
