//! A map from identifiers to values.
use crate::text::same_text;
use vstd::prelude::*;

verus! {

/// The map that a row of entries stands for.
pub open spec fn map_of<V: DeepView>(entries: Seq<(String, V)>) -> Map<Seq<char>, V::V>
    decreases entries.len(),
{
    if entries.len() == 0 {
        Map::empty()
    } else {
        map_of(entries.drop_last()).insert(entries.last().0@, entries.last().1.deep_view())
    }
}

/// Whether no two entries have the same key.
pub open spec fn distinct_keys<V>(entries: Seq<(String, V)>) -> bool {
    forall|i: int, j: int|
        0 <= i < j < entries.len() ==> #[trigger] entries[i].0@ != #[trigger] entries[j].0@
}

proof fn lemma_map_of<V: DeepView>(entries: Seq<(String, V)>)
    requires
        distinct_keys(entries),
    ensures
        forall|k: Seq<char>|
            map_of(entries).dom().contains(k) <==> exists|i: int|
                0 <= i < entries.len() && #[trigger] entries[i].0@ == k,
        forall|i: int|
            #![trigger entries[i]]
            0 <= i < entries.len() ==> map_of(entries)[entries[i].0@] == entries[i].1.deep_view(),
        map_of(entries).dom().finite(),
        map_of(entries).dom().len() == entries.len(),
    decreases entries.len(),
{
    if entries.len() > 0 {
        let head = entries.drop_last();
        assert(distinct_keys(head));
        lemma_map_of(head);
        let last = entries.len() - 1;
        assert forall|k: Seq<char>| map_of(entries).dom().contains(k) implies exists|i: int|
            0 <= i < entries.len() && #[trigger] entries[i].0@ == k by {
            if k == entries[last].0@ {
            } else {
                let i = choose|i: int| 0 <= i < head.len() && #[trigger] head[i].0@ == k;
                assert(entries[i].0@ == k);
            }
        }
        assert forall|k: Seq<char>|
            (exists|i: int| 0 <= i < entries.len() && #[trigger] entries[i].0@ == k) implies map_of(
            entries,
        ).dom().contains(k) by {
            let i = choose|i: int| 0 <= i < entries.len() && #[trigger] entries[i].0@ == k;
            if i < last {
                assert(head[i].0@ == k);
            }
        }
        assert forall|i: int|
            #![trigger entries[i]]
            0 <= i < entries.len() implies map_of(entries)[entries[i].0@]
            == entries[i].1.deep_view() by {
            if i < last {
                assert(head[i] == entries[i]);
                assert(entries[i].0@ != entries[last].0@);
            }
        }
        if map_of(head).dom().contains(entries[last].0@) {
            let i = choose|i: int|
                0 <= i < head.len() && #[trigger] head[i].0@ == entries[last].0@;
            assert(entries[i].0@ == entries[last].0@);
            assert(false);
        }
    }
}

/// A map from identifiers to values.
#[derive(Debug)]
pub struct IdMap<V> {
    entries: Vec<(String, V)>,
}

impl<V: DeepView> DeepView for IdMap<V> {
    type V = Map<Seq<char>, V::V>;

    closed spec fn deep_view(&self) -> Map<Seq<char>, V::V> {
        map_of(self.entries@)
    }
}

impl<V> IdMap<V> {
    #[verifier::type_invariant]
    spec fn well_formed(&self) -> bool {
        distinct_keys(self.entries@)
    }
}

impl<V: DeepView> IdMap<V> {
    /// The empty map.
    pub fn new() -> (r: IdMap<V>)
        ensures
            r.deep_view() == Map::<Seq<char>, V::V>::empty(),
    {
        IdMap { entries: Vec::new() }
    }

    /// Where the entry of `key` stands.
    fn position(&self, key: &str) -> (r: Option<usize>)
        ensures
            match r {
                Some(i) => i < self.entries@.len() && self.entries@[i as int].0@ == key@,
                None => forall|i: int|
                    0 <= i < self.entries@.len() ==> #[trigger] self.entries@[i].0@ != key@,
            },
    {
        let mut i: usize = 0;
        while i < self.entries.len()
            invariant
                i <= self.entries@.len(),
                forall|j: int| 0 <= j < i ==> #[trigger] self.entries@[j].0@ != key@,
            decreases self.entries@.len() - i,
        {
            if same_text(self.entries[i].0.as_str(), key) {
                return Some(i);
            }
            i = i + 1;
        }
        None
    }

    /// Gives `key` the value `value`, in place of one that it may have had.
    pub fn insert(&mut self, key: String, value: V)
        ensures
            final(self).deep_view() == old(self).deep_view().insert(key@, value.deep_view()),
    {
        proof {
            use_type_invariant(&*self);
        }
        let ghost before = self.entries@;
        match self.position(key.as_str()) {
            Some(i) => {
                let ghost after = before.update(i as int, (key, value));
                let mut entries: Vec<(String, V)> = Vec::new();
                std::mem::swap(&mut entries, &mut self.entries);
                entries.set(i, (key, value));
                proof {
                    assert(entries@ == after);
                    assert forall|a: int, b: int| 0 <= a < b < after.len() implies
                        #[trigger] after[a].0@ != #[trigger] after[b].0@ by {
                        assert(before[a].0@ != before[b].0@);
                    }
                    lemma_map_of(before);
                    lemma_map_of(after);
                    let want = map_of(before).insert(after[i as int].0@, after[i as int].1.deep_view());
                    assert forall|k: Seq<char>| map_of(after).dom().contains(k)
                        == want.dom().contains(k) by {
                        if map_of(after).dom().contains(k) {
                            let j = choose|j: int| 0 <= j < after.len() && #[trigger] after[j].0@ == k;
                            assert(before[j].0@ == k);
                        }
                        if map_of(before).dom().contains(k) {
                            let j = choose|j: int|
                                0 <= j < before.len() && #[trigger] before[j].0@ == k;
                            assert(after[j].0@ == k);
                        }
                        assert(after[i as int].0@ == before[i as int].0@);
                    }
                    assert forall|k: Seq<char>| map_of(after).dom().contains(k) implies map_of(
                        after,
                    )[k] == want[k] by {
                        let j = choose|j: int| 0 <= j < after.len() && #[trigger] after[j].0@ == k;
                        if j != i {
                            assert(before[j] == after[j]);
                            assert(before[j].0@ != before[i as int].0@);
                        }
                    }
                    assert(map_of(after) =~= want);
                }
                self.entries = entries;
            },
            None => {
                let ghost after = before.push((key, value));
                let mut entries: Vec<(String, V)> = Vec::new();
                std::mem::swap(&mut entries, &mut self.entries);
                entries.push((key, value));
                proof {
                    assert(entries@ == after);
                    assert(after.drop_last() =~= before);
                }
                self.entries = entries;
            },
        }
    }

    /// The value of `key`.
    pub fn get(&self, key: &str) -> (r: Option<&V>)
        ensures
            match r {
                Some(v) => self.deep_view().dom().contains(key@) && v.deep_view()
                    == self.deep_view()[key@],
                None => !self.deep_view().dom().contains(key@),
            },
    {
        proof {
            use_type_invariant(self);
            lemma_map_of(self.entries@);
        }
        match self.position(key) {
            Some(i) => Some(&self.entries[i].1),
            None => None,
        }
    }

    /// Takes the value of `key` out.
    pub fn take(&mut self, key: &str) -> (r: Option<V>)
        ensures
            match r {
                Some(v) => old(self).deep_view().dom().contains(key@) && v.deep_view()
                    == old(self).deep_view()[key@] && final(self).deep_view()
                    == old(self).deep_view().remove(key@),
                None => !old(self).deep_view().dom().contains(key@) && final(self).deep_view()
                    == old(self).deep_view(),
            },
    {
        proof {
            use_type_invariant(&*self);
            lemma_map_of(self.entries@);
        }
        let ghost before = self.entries@;
        match self.position(key) {
            None => None,
            Some(i) => {
                let mut entries: Vec<(String, V)> = Vec::new();
                std::mem::swap(&mut entries, &mut self.entries);
                let (k, v) = entries.remove(i);
                proof {
                    let after = entries@;
                    assert forall|a: int, b: int| 0 <= a < b < after.len() implies
                        #[trigger] after[a].0@ != #[trigger] after[b].0@ by {
                        let x = if a < i { a } else { a + 1 };
                        let y = if b < i { b } else { b + 1 };
                        assert(before[x].0@ != before[y].0@);
                    }
                    lemma_map_of(after);
                    let want = map_of(before).remove(key@);
                    assert forall|n: Seq<char>| map_of(after).dom().contains(n)
                        == want.dom().contains(n) by {
                        if map_of(after).dom().contains(n) {
                            let j = choose|j: int| 0 <= j < after.len() && #[trigger] after[j].0@ == n;
                            let x = if j < i { j } else { j + 1 };
                            assert(before[x].0@ == n);
                            assert(before[x].0@ != before[i as int].0@);
                        }
                        if want.dom().contains(n) {
                            let j = choose|j: int|
                                0 <= j < before.len() && #[trigger] before[j].0@ == n;
                            let x = if j < i { j } else { j - 1 };
                            assert(after[x].0@ == n);
                        }
                    }
                    assert forall|n: Seq<char>| map_of(after).dom().contains(n) implies map_of(
                        after,
                    )[n] == want[n] by {
                        let j = choose|j: int| 0 <= j < after.len() && #[trigger] after[j].0@ == n;
                        let x = if j < i { j } else { j + 1 };
                        assert(before[x] == after[j]);
                    }
                    assert(map_of(after) =~= want);
                }
                self.entries = entries;
                Some(v)
            },
        }
    }

    /// The keys that have a value, each once.
    pub fn keys(&self) -> (r: Vec<String>)
        ensures
            r.deep_view().no_duplicates(),
            forall|k: Seq<char>|
                #[trigger] r.deep_view().contains(k) <==> self.deep_view().dom().contains(k),
    {
        proof {
            use_type_invariant(self);
            lemma_map_of(self.entries@);
        }
        let mut r: Vec<String> = Vec::new();
        let mut i: usize = 0;
        while i < self.entries.len()
            invariant
                i <= self.entries@.len(),
                r@.len() == i,
                forall|j: int| 0 <= j < i ==> #[trigger] r@[j] == self.entries@[j].0,
            decreases self.entries@.len() - i,
        {
            r.push(self.entries[i].0.clone());
            i = i + 1;
        }
        proof {
            let keys = r.deep_view();
            let entries = self.entries@;
            assert forall|j: int| 0 <= j < keys.len() implies #[trigger] keys[j] == entries[j].0@ by {
                assert(r@[j] == entries[j].0);
            }
            assert forall|k: Seq<char>| #[trigger]
                keys.contains(k) <==> self.deep_view().dom().contains(k) by {
                if keys.contains(k) {
                    let j = choose|j: int| 0 <= j < keys.len() && keys[j] == k;
                    assert(entries[j].0@ == k);
                }
                if self.deep_view().dom().contains(k) {
                    let j = choose|j: int| 0 <= j < entries.len() && #[trigger] entries[j].0@ == k;
                    assert(keys[j] == k);
                }
            }
        }
        r
    }

    /// Whether `key` has a value.
    pub fn contains_key(&self, key: &str) -> (r: bool)
        ensures
            r == self.deep_view().dom().contains(key@),
    {
        self.get(key).is_some()
    }

    /// How many keys have a value.
    pub fn len(&self) -> (r: usize)
        ensures
            r == self.deep_view().dom().len(),
    {
        proof {
            use_type_invariant(self);
            lemma_map_of(self.entries@);
        }
        self.entries.len()
    }

    /// Whether no key has a value.
    pub fn is_empty(&self) -> (r: bool)
        ensures
            r == (self.deep_view().dom().len() == 0),
    {
        self.len() == 0
    }
}

} // verus!
