//! A table of values keyed by name: each name occurs at most once, and
//! storing under a name that is present replaces its value.

use vstd::prelude::*;

verus! {

/// Values keyed by distinct names.
pub struct NameMap<V> {
    entries: Vec<(String, V)>,
}

/// The names of `s` are pairwise distinct.
pub open spec fn names_distinct<V>(s: Seq<(String, V)>) -> bool {
    forall|i: int, j: int|
        0 <= i < s.len() && 0 <= j < s.len() && i != j ==> #[trigger] s[i].0@ != #[trigger] s[j].0@
}

/// Some entry of `s` is named `k`.
pub open spec fn has_name<V>(s: Seq<(String, V)>, k: Seq<char>) -> bool {
    exists|i: int| 0 <= i < s.len() && #[trigger] s[i].0@ == k
}

/// The position of an entry of `s` named `k` (meaningful when there is one).
pub open spec fn position_of<V>(s: Seq<(String, V)>, k: Seq<char>) -> int {
    choose|i: int| 0 <= i < s.len() && #[trigger] s[i].0@ == k
}

/// The map from each name of `s` to the value stored under it.
pub open spec fn entries_map<V>(s: Seq<(String, V)>) -> Map<Seq<char>, V> {
    Map::new(|k: Seq<char>| has_name(s, k), |k: Seq<char>| s[position_of(s, k)].1)
}

/// With distinct names, the entry named like entry `i` is entry `i` itself.
proof fn lemma_position_unique<V>(s: Seq<(String, V)>, i: int)
    requires
        names_distinct(s),
        0 <= i < s.len(),
    ensures
        has_name(s, s[i].0@),
        position_of(s, s[i].0@) == i,
        entries_map(s)[s[i].0@] == s[i].1,
{
    let k: Seq<char> = s[i].0@;
    assert(has_name(s, k));
    let j: int = position_of(s, k);
    assert(s[j].0@ == k);
}

/// Overwriting the value of entry `i` (same name) updates the map at that name.
proof fn lemma_update_entry<V>(s: Seq<(String, V)>, i: int, e: (String, V))
    requires
        names_distinct(s),
        0 <= i < s.len(),
        e.0@ == s[i].0@,
    ensures
        names_distinct(s.update(i, e)),
        entries_map(s.update(i, e)) == entries_map(s).insert(e.0@, e.1),
{
    let t = s.update(i, e);
    assert forall|a: int, b: int|
        0 <= a < t.len() && 0 <= b < t.len() && a != b implies #[trigger] t[a].0@
        != #[trigger] t[b].0@ by {
        assert(s[a].0@ != s[b].0@);
    }
    lemma_position_unique(t, i);
    assert forall|k: Seq<char>| has_name(t, k) <==> #[trigger] has_name(s, k) by {
        if has_name(t, k) {
            let j: int = position_of(t, k);
            assert(s[j].0@ == k);
        }
        if has_name(s, k) {
            let j: int = position_of(s, k);
            assert(t[j].0@ == k);
        }
    }
    assert forall|k: Seq<char>| #[trigger] has_name(t, k) && k != e.0@ implies t[position_of(
        t,
        k,
    )].1 == s[position_of(s, k)].1 by {
        let j: int = position_of(t, k);
        assert(t[j].0@ == k);
        assert(j != i);
        assert(s[j].0@ == k);
    }
    assert(entries_map(t) =~= entries_map(s).insert(e.0@, e.1));
}

/// Appending an entry under a new name adds that name to the map.
proof fn lemma_push_entry<V>(s: Seq<(String, V)>, e: (String, V))
    requires
        names_distinct(s),
        !has_name(s, e.0@),
    ensures
        names_distinct(s.push(e)),
        entries_map(s.push(e)) == entries_map(s).insert(e.0@, e.1),
{
    let t = s.push(e);
    let n: int = s.len() as int;
    assert forall|a: int, b: int|
        0 <= a < t.len() && 0 <= b < t.len() && a != b implies #[trigger] t[a].0@
        != #[trigger] t[b].0@ by {
        if a < n && b < n {
            assert(s[a].0@ != s[b].0@);
        } else if a == n {
            assert(t[b].0@ == s[b].0@);
        } else {
            assert(t[a].0@ == s[a].0@);
        }
    }
    lemma_position_unique(t, n);
    assert forall|k: Seq<char>| #[trigger] has_name(t, k) <==> (has_name(s, k) || k == e.0@) by {
        if has_name(t, k) && k != e.0@ {
            let j: int = position_of(t, k);
            assert(j != n);
            assert(s[j].0@ == k);
        }
        if has_name(s, k) {
            let j: int = position_of(s, k);
            assert(t[j].0@ == k);
        }
    }
    assert forall|k: Seq<char>| #[trigger] has_name(t, k) && k != e.0@ implies t[position_of(
        t,
        k,
    )].1 == s[position_of(s, k)].1 by {
        let j: int = position_of(t, k);
        assert(t[j].0@ == k);
        assert(j != n);
        lemma_position_unique(s, j);
    }
    assert(entries_map(t) =~= entries_map(s).insert(e.0@, e.1));
}

impl<V> View for NameMap<V> {
    type V = Map<Seq<char>, V>;

    closed spec fn view(&self) -> Map<Seq<char>, V> {
        entries_map(self.entries@)
    }
}

impl<V> NameMap<V> {
    #[verifier::type_invariant]
    spec fn names_are_distinct(&self) -> bool {
        names_distinct(self.entries@)
    }

    /// An empty table.
    pub fn new() -> (m: Self)
        ensures
            m@ == Map::<Seq<char>, V>::empty(),
    {
        let m = NameMap { entries: Vec::new() };
        assert(m@ =~= Map::<Seq<char>, V>::empty());
        m
    }

    /// The position of the entry named `name`, if there is one.
    fn find(&self, name: &String) -> (r: Option<usize>)
        ensures
            match r {
                Some(i) => i < self.entries@.len() && self.entries@[i as int].0@ == name@,
                None => !has_name(self.entries@, name@),
            },
    {
        let mut i: usize = 0;
        while i < self.entries.len()
            invariant
                i <= self.entries@.len(),
                forall|j: int| 0 <= j < i ==> #[trigger] self.entries@[j].0@ != name@,
            decreases self.entries@.len() - i,
        {
            if self.entries[i].0 == *name {
                return Some(i);
            }
            i = i + 1;
        }
        None
    }

    /// Whether the table holds no entry at all.
    pub fn is_empty(&self) -> (b: bool)
        ensures
            b == (self@.dom() == Set::<Seq<char>>::empty()),
    {
        proof {
            if self.entries@.len() > 0 {
                assert(has_name(self.entries@, self.entries@[0].0@));
                assert(self@.dom().contains(self.entries@[0].0@));
            } else {
                assert(self@.dom() =~= Set::<Seq<char>>::empty());
            }
        }
        self.entries.len() == 0
    }

    /// Whether an entry is named `name`.
    pub fn contains_key(&self, name: &str) -> (b: bool)
        ensures
            b == self@.contains_key(name@),
    {
        let key = name.to_string();
        self.find(&key).is_some()
    }

    /// The value stored under `name`.
    pub fn get(&self, name: &str) -> (r: Option<&V>)
        ensures
            match r {
                Some(v) => self@.contains_key(name@) && *v == self@[name@],
                None => !self@.contains_key(name@),
            },
    {
        proof {
            use_type_invariant(self);
        }
        let key = name.to_string();
        match self.find(&key) {
            Some(i) => {
                proof {
                    lemma_position_unique(self.entries@, i as int);
                }
                Some(&self.entries[i].1)
            },
            None => None,
        }
    }

    /// Store `value` under `name`, replacing the value stored there before.
    pub fn insert(&mut self, name: String, value: V)
        ensures
            final(self)@ == old(self)@.insert(name@, value),
    {
        proof {
            use_type_invariant(&*self);
        }
        let found = self.find(&name);
        let mut entries: Vec<(String, V)> = Vec::new();
        std::mem::swap(&mut entries, &mut self.entries);
        match found {
            Some(i) => {
                proof {
                    lemma_update_entry(entries@, i as int, (name, value));
                }
                entries.set(i, (name, value));
            },
            None => {
                proof {
                    lemma_push_entry(entries@, (name, value));
                }
                entries.push((name, value));
            },
        }
        self.entries = entries;
    }

    /// All entries, each name once, in no particular order.
    pub fn into_entries(self) -> (v: Vec<(String, V)>)
        ensures
            names_distinct(v@),
            entries_map(v@) == self@,
    {
        proof {
            use_type_invariant(&self);
        }
        self.entries
    }

    /// The names of all entries, each once.
    pub fn names(&self) -> (r: Vec<String>)
        ensures
            r@.len() == self@.dom().len(),
            forall|k: Seq<char>| self@.contains_key(k) <==> exists|i: int|
                0 <= i < r@.len() && #[trigger] r@[i]@ == k,
            forall|i: int, j: int|
                0 <= i < r@.len() && 0 <= j < r@.len() && i != j ==> #[trigger] r@[i]@
                    != #[trigger] r@[j]@,
    {
        proof {
            use_type_invariant(self);
        }
        let mut r: Vec<String> = Vec::new();
        let mut i: usize = 0;
        while i < self.entries.len()
            invariant
                i <= self.entries@.len(),
                r@.len() == i,
                names_distinct(self.entries@),
                forall|j: int| 0 <= j < i ==> #[trigger] r@[j]@ == self.entries@[j].0@,
            decreases self.entries@.len() - i,
        {
            r.push(self.entries[i].0.clone());
            i = i + 1;
        }
        proof {
            lemma_dom_len(self.entries@);
            assert forall|k: Seq<char>| self@.contains_key(k) implies exists|i: int|
                0 <= i < r@.len() && #[trigger] r@[i]@ == k by {
                let j: int = position_of(self.entries@, k);
                assert(r@[j]@ == k);
            }
            assert forall|k: Seq<char>| (exists|i: int| 0 <= i < r@.len() && #[trigger] r@[i]@ == k)
                implies self@.contains_key(k) by {
                let i: int = choose|i: int| 0 <= i < r@.len() && #[trigger] r@[i]@ == k;
                assert(self.entries@[i].0@ == k);
            }
            assert forall|a: int, b: int|
                0 <= a < r@.len() && 0 <= b < r@.len() && a != b implies #[trigger] r@[a]@
                != #[trigger] r@[b]@ by {
                assert(self.entries@[a].0@ != self.entries@[b].0@);
            }
        }
        r
    }
}

/// Splitting off the last entry removes its name from the map's names.
pub proof fn lemma_pop_entry<V>(s: Seq<(String, V)>)
    requires
        names_distinct(s),
        s.len() > 0,
    ensures
        names_distinct(s.drop_last()),
        !has_name(s.drop_last(), s.last().0@),
        entries_map(s).dom() == entries_map(s.drop_last()).dom().insert(s.last().0@),
        entries_map(s) == entries_map(s.drop_last()).insert(s.last().0@, s.last().1),
{
    let t = s.drop_last();
    let e = s.last();
    assert forall|a: int, b: int|
        0 <= a < t.len() && 0 <= b < t.len() && a != b implies #[trigger] t[a].0@
        != #[trigger] t[b].0@ by {
        assert(s[a].0@ != s[b].0@);
    }
    if has_name(t, e.0@) {
        let j: int = position_of(t, e.0@);
        assert(s[j].0@ == s[s.len() - 1].0@);
    }
    lemma_push_entry(t, e);
    assert(t.push(e) =~= s);
    assert(entries_map(s).dom() =~= entries_map(t).dom().insert(e.0@));
}

/// With distinct names, the map has as many names as there are entries.
proof fn lemma_dom_len<V>(s: Seq<(String, V)>)
    requires
        names_distinct(s),
    ensures
        entries_map(s).dom().finite(),
        entries_map(s).dom().len() == s.len(),
    decreases s.len(),
{
    if s.len() == 0 {
        assert(entries_map(s).dom() =~= Set::<Seq<char>>::empty());
    } else {
        let t = s.drop_last();
        let e = s.last();
        assert forall|a: int, b: int|
            0 <= a < t.len() && 0 <= b < t.len() && a != b implies #[trigger] t[a].0@
            != #[trigger] t[b].0@ by {
            assert(s[a].0@ != s[b].0@);
        }
        lemma_dom_len(t);
        if has_name(t, e.0@) {
            let j: int = position_of(t, e.0@);
            assert(s[j].0@ == s[s.len() - 1].0@);
        }
        lemma_push_entry(t, e);
        assert(t.push(e) =~= s);
    }
}

} // verus!
