//! A small dictionary from names to values, kept in the order in which the
//! names first came.

use crate::text::same_text;
use vstd::prelude::*;

verus! {

/// Whether no two of the entries have the same name.
pub open spec fn distinct<V>(s: Seq<(String, V)>) -> bool {
    forall|i: int, j: int| 0 <= i < j < s.len() ==> s[i].0@ != s[j].0@
}

/// The mapping that a list of entries with distinct names stands for.
pub open spec fn mapping<V>(s: Seq<(String, V)>) -> Map<Seq<char>, V> {
    Map::new(
        |k: Seq<char>| exists|i: int| 0 <= i < s.len() && s[i].0@ == k,
        |k: Seq<char>| s[choose|i: int| 0 <= i < s.len() && s[i].0@ == k].1,
    )
}

proof fn lemma_entry<V>(s: Seq<(String, V)>, i: int)
    requires
        distinct(s),
        0 <= i < s.len(),
    ensures
        mapping(s).contains_key(s[i].0@),
        mapping(s)[s[i].0@] == s[i].1,
{
    let k = s[i].0@;
    let j = choose|j: int| 0 <= j < s.len() && s[j].0@ == k;
    if j < i {
        assert(s[j].0@ != s[i].0@);
    } else if i < j {
        assert(s[i].0@ != s[j].0@);
    }
}

/// A dictionary from names to values.
#[derive(Debug)]
pub struct Dict<V> {
    entries: Vec<(String, V)>,
}

impl<V> View for Dict<V> {
    type V = Map<Seq<char>, V>;

    closed spec fn view(&self) -> Map<Seq<char>, V> {
        mapping(self.entries@)
    }
}

impl<V> Dict<V> {
    #[verifier::type_invariant]
    spec fn wf(self) -> bool {
        distinct(self.entries@)
    }

    /// How many entries there are.
    pub closed spec fn count(&self) -> nat {
        self.entries@.len()
    }

    /// The name of the entry `i`, counted in the order in which the names
    /// first came.
    pub closed spec fn name(&self, i: int) -> Seq<char> {
        self.entries@[i].0@
    }

    /// The dictionary without an entry.
    pub fn new() -> (r: Dict<V>)
        ensures
            r@ == Map::<Seq<char>, V>::empty(),
            r.count() == 0,
    {
        let r = Dict { entries: Vec::new() };
        assert(r@ =~= Map::<Seq<char>, V>::empty());
        r
    }

    /// How many entries there are.
    pub fn len(&self) -> (r: usize)
        ensures
            r == self.count(),
    {
        self.entries.len()
    }

    /// Every name of the dictionary is the name of one of its entries.
    pub proof fn listed(&self, k: Seq<char>) -> (j: int)
        requires
            self@.contains_key(k),
        ensures
            0 <= j < self.count(),
            self.name(j) == k,
    {
        choose|j: int| 0 <= j < self.entries@.len() && self.entries@[j].0@ == k
    }

    /// The name of the entry `i`, which no other entry has.
    pub fn name_at(&self, i: usize) -> (r: &String)
        requires
            i < self.count(),
        ensures
            r@ == self.name(i as int),
            self@.contains_key(r@),
            forall|j: int| 0 <= j < self.count() && j != i ==> self.name(j) != r@,
    {
        proof {
            use_type_invariant(self);
            lemma_entry(self.entries@, i as int);
            assert forall|j: int| 0 <= j < self.count() && j != i implies self.name(j)
                != self.entries@[i as int].0@ by {
                if j < i {
                    assert(self.entries@[j].0@ != self.entries@[i as int].0@);
                } else {
                    assert(self.entries@[i as int].0@ != self.entries@[j].0@);
                }
            }
        }
        &self.entries[i].0
    }

    /// The value of the entry `i`.
    pub fn value_at(&self, i: usize) -> (r: &V)
        requires
            i < self.count(),
        ensures
            self@.contains_key(self.name(i as int)),
            *r == self@[self.name(i as int)],
    {
        proof {
            use_type_invariant(self);
            lemma_entry(self.entries@, i as int);
        }
        &self.entries[i].1
    }

    fn find(&self, key: &str) -> (r: Option<usize>)
        ensures
            r matches Some(i) ==> i < self.entries@.len() && self.entries@[i as int].0@ == key@,
            r is None ==> forall|i: int|
                0 <= i < self.entries@.len() ==> self.entries@[i].0@ != key@,
            r is Some <==> self@.contains_key(key@),
    {
        let mut i: usize = 0;
        while i < self.entries.len()
            invariant
                i <= self.entries@.len(),
                forall|k: int| 0 <= k < i ==> self.entries@[k].0@ != key@,
            decreases self.entries@.len() - i,
        {
            if same_text(self.entries[i].0.as_str(), key) {
                return Some(i);
            }
            i = i + 1;
        }
        None
    }

    /// Whether `key` has an entry.
    pub fn contains(&self, key: &str) -> (r: bool)
        ensures
            r == self@.contains_key(key@),
    {
        self.find(key).is_some()
    }

    /// The value under `key`, if there is one.
    pub fn get(&self, key: &str) -> (r: Option<&V>)
        ensures
            r matches Some(v) ==> self@.contains_key(key@) && *v == self@[key@],
            r is None ==> !self@.contains_key(key@),
    {
        proof {
            use_type_invariant(self);
        }
        match self.find(key) {
            Some(i) => {
                proof {
                    lemma_entry(self.entries@, i as int);
                }
                Some(&self.entries[i].1)
            },
            None => None,
        }
    }

    /// Puts `value` under `key`, in place of what was there.
    pub fn insert(&mut self, key: String, value: V)
        ensures
            final(self)@ == old(self)@.insert(key@, value),
    {
        proof {
            use_type_invariant(&*self);
        }
        let found = self.find(key.as_str());
        let mut e: Vec<(String, V)> = Vec::new();
        std::mem::swap(&mut e, &mut self.entries);
        let ghost e0 = e@;
        match found {
            Some(i) => {
                e.set(i, (key, value));
                proof {
                    assert(distinct(e@)) by {
                        assert forall|a: int, b: int| 0 <= a < b < e@.len() implies e@[a].0@
                            != e@[b].0@ by {
                            assert(e0[a].0@ != e0[b].0@);
                        }
                    }
                    assert forall|k: Seq<char>|
                        mapping(e@).contains_key(k) <==> mapping(e0).insert(
                            key@,
                            value,
                        ).contains_key(k) by {
                        if mapping(e@).contains_key(k) {
                            let j = choose|j: int| 0 <= j < e@.len() && e@[j].0@ == k;
                            assert(e0[j].0@ == k);
                        }
                        if mapping(e0).contains_key(k) {
                            let j = choose|j: int| 0 <= j < e0.len() && e0[j].0@ == k;
                            assert(e@[j].0@ == k);
                        }
                        if k == key@ {
                            assert(e@[i as int].0@ == k);
                        }
                    }
                    assert forall|k: Seq<char>| #[trigger]
                        mapping(e@).contains_key(k) implies mapping(e@)[k] == mapping(e0).insert(
                        key@,
                        value,
                    )[k] by {
                        let j = choose|j: int| 0 <= j < e@.len() && e@[j].0@ == k;
                        lemma_entry(e@, j);
                        lemma_entry(e0, j);
                    }
                    assert(mapping(e@) =~= mapping(e0).insert(key@, value));
                }
            },
            None => {
                e.push((key, value));
                proof {
                    assert(distinct(e@));
                    assert forall|k: Seq<char>|
                        mapping(e@).contains_key(k) <==> mapping(e0).insert(
                            key@,
                            value,
                        ).contains_key(k) by {
                        if mapping(e@).contains_key(k) {
                            let j = choose|j: int| 0 <= j < e@.len() && e@[j].0@ == k;
                            if j < e0.len() {
                                assert(e0[j].0@ == k);
                            }
                        }
                        if mapping(e0).contains_key(k) {
                            let j = choose|j: int| 0 <= j < e0.len() && e0[j].0@ == k;
                            assert(e@[j].0@ == k);
                        }
                        if k == key@ {
                            assert(e@[e0.len() as int].0@ == k);
                        }
                    }
                    assert forall|k: Seq<char>| #[trigger]
                        mapping(e@).contains_key(k) implies mapping(e@)[k] == mapping(e0).insert(
                        key@,
                        value,
                    )[k] by {
                        let j = choose|j: int| 0 <= j < e@.len() && e@[j].0@ == k;
                        lemma_entry(e@, j);
                        if j < e0.len() {
                            lemma_entry(e0, j);
                        }
                    }
                    assert(mapping(e@) =~= mapping(e0).insert(key@, value));
                }
            },
        }
        self.entries = e;
    }

    /// Takes the entry of `key` out, if there is one.
    pub fn remove(&mut self, key: &str)
        ensures
            final(self)@ == old(self)@.remove(key@),
    {
        proof {
            use_type_invariant(&*self);
        }
        let found = self.find(key);
        match found {
            None => {
                assert(old(self)@.remove(key@) =~= old(self)@);
            },
            Some(i) => {
                let mut e: Vec<(String, V)> = Vec::new();
                std::mem::swap(&mut e, &mut self.entries);
                let ghost e0 = e@;
                e.remove(i);
                proof {
                    assert forall|a: int, b: int| 0 <= a < b < e@.len() implies e@[a].0@
                        != e@[b].0@ by {
                        let a0 = if a < i { a } else { a + 1 };
                        let b0 = if b < i { b } else { b + 1 };
                        assert(e@[a] == e0[a0] && e@[b] == e0[b0]);
                    }
                    assert forall|k: Seq<char>|
                        mapping(e@).contains_key(k) <==> mapping(e0).remove(key@).contains_key(
                            k,
                        ) by {
                        if mapping(e@).contains_key(k) {
                            let j = choose|j: int| 0 <= j < e@.len() && e@[j].0@ == k;
                            let j0 = if j < i { j } else { j + 1 };
                            assert(e0[j0].0@ == k);
                            if j0 < i {
                                assert(e0[j0].0@ != e0[i as int].0@);
                            } else {
                                assert(e0[i as int].0@ != e0[j0].0@);
                            }
                        }
                        if mapping(e0).remove(key@).contains_key(k) {
                            let j = choose|j: int| 0 <= j < e0.len() && e0[j].0@ == k;
                            let j1 = if j < i { j } else { j - 1 };
                            assert(e@[j1].0@ == k);
                        }
                    }
                    assert forall|k: Seq<char>| #[trigger]
                        mapping(e@).contains_key(k) implies mapping(e@)[k] == mapping(e0).remove(
                        key@,
                    )[k] by {
                        let j = choose|j: int| 0 <= j < e@.len() && e@[j].0@ == k;
                        lemma_entry(e@, j);
                        let j0 = if j < i { j } else { j + 1 };
                        lemma_entry(e0, j0);
                    }
                    assert(mapping(e@) =~= mapping(e0).remove(key@));
                }
                self.entries = e;
            },
        }
    }
}

} // verus!
