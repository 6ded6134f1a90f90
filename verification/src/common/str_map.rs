//! A small map keyed by strings, kept as a list of entries with distinct
//! keys.  Its model is a `Map` from key text to value.
use vstd::prelude::*;

verus! {

/// The map that a list of entries denotes: later entries win.
pub open spec fn pairs_map<V>(s: Seq<(String, V)>) -> Map<Seq<char>, V>
    decreases s.len(),
{
    if s.len() == 0 {
        Map::empty()
    } else {
        pairs_map(s.drop_last()).insert(s.last().0@, s.last().1)
    }
}

/// The texts of a map whose values are strings.
pub open spec fn text_map(m: Map<Seq<char>, String>) -> Map<Seq<char>, Seq<char>> {
    m.map_values(|s: String| s@)
}

/// No two entries share a key.
pub open spec fn keys_distinct<V>(s: Seq<(String, V)>) -> bool {
    forall|i: int, j: int| 0 <= i < j < s.len() ==> #[trigger] s[i].0@ != #[trigger] s[j].0@
}

/// A key is in the denoted map exactly when some entry carries it.
pub proof fn lemma_pairs_map_dom<V>(s: Seq<(String, V)>, k: Seq<char>)
    ensures
        pairs_map(s).contains_key(k) <==> exists|i: int| 0 <= i < s.len() && #[trigger] s[i].0@ == k,
    decreases s.len(),
{
    if s.len() > 0 {
        let p = s.drop_last();
        lemma_pairs_map_dom(p, k);
        if pairs_map(p).contains_key(k) {
            let i = choose|i: int| 0 <= i < p.len() && #[trigger] p[i].0@ == k;
            assert(s[i].0@ == k);
        }
        if exists|i: int| 0 <= i < s.len() && #[trigger] s[i].0@ == k {
            let i = choose|i: int| 0 <= i < s.len() && #[trigger] s[i].0@ == k;
            if i < s.len() - 1 {
                assert(p[i].0@ == k);
            }
        }
    }
}

/// With distinct keys, each entry's key maps to that entry's value.
pub proof fn lemma_pairs_map_index<V>(s: Seq<(String, V)>, i: int)
    requires
        keys_distinct(s),
        0 <= i < s.len(),
    ensures
        pairs_map(s).contains_key(s[i].0@),
        pairs_map(s)[s[i].0@] == s[i].1,
    decreases s.len(),
{
    let p = s.drop_last();
    if i < s.len() - 1 {
        assert(keys_distinct(p)) by {
            assert forall|a: int, b: int| 0 <= a < b < p.len() implies #[trigger] p[a].0@
                != #[trigger] p[b].0@ by {
                assert(p[a] == s[a] && p[b] == s[b]);
            }
        }
        lemma_pairs_map_index(p, i);
        assert(p[i] == s[i]);
        assert(s[i].0@ != s[s.len() - 1].0@);
    }
}

/// The denoted map is finite and has one key per entry.
pub proof fn lemma_pairs_map_len<V>(s: Seq<(String, V)>)
    requires
        keys_distinct(s),
    ensures
        pairs_map(s).dom().finite(),
        pairs_map(s).len() == s.len(),
    decreases s.len(),
{
    if s.len() > 0 {
        let p = s.drop_last();
        assert(keys_distinct(p)) by {
            assert forall|a: int, b: int| 0 <= a < b < p.len() implies #[trigger] p[a].0@
                != #[trigger] p[b].0@ by {
                assert(p[a] == s[a] && p[b] == s[b]);
            }
        }
        lemma_pairs_map_len(p);
        lemma_pairs_map_dom(p, s.last().0@);
        if pairs_map(p).contains_key(s.last().0@) {
            let i = choose|i: int| 0 <= i < p.len() && #[trigger] p[i].0@ == s.last().0@;
            assert(s[i].0@ == s[s.len() - 1].0@);
        }
    }
}

/// Removing entry `i` removes its key from the denoted map.
pub proof fn lemma_pairs_map_remove<V>(s: Seq<(String, V)>, i: int)
    requires
        keys_distinct(s),
        0 <= i < s.len(),
    ensures
        keys_distinct(s.remove(i)),
        pairs_map(s.remove(i)) == pairs_map(s).remove(s[i].0@),
{
    let t = s.remove(i);
    assert forall|a: int, b: int| 0 <= a < b < t.len() implies #[trigger] t[a].0@
        != #[trigger] t[b].0@ by {
        let a2 = if a < i { a } else { a + 1 };
        let b2 = if b < i { b } else { b + 1 };
        assert(t[a] == s[a2] && t[b] == s[b2]);
    }
    let m1 = pairs_map(t);
    let m2 = pairs_map(s).remove(s[i].0@);
    assert forall|k: Seq<char>| m1.contains_key(k) <==> m2.contains_key(k) by {
        lemma_pairs_map_dom(t, k);
        lemma_pairs_map_dom(s, k);
        if m1.contains_key(k) {
            let a = choose|a: int| 0 <= a < t.len() && #[trigger] t[a].0@ == k;
            let a2 = if a < i { a } else { a + 1 };
            assert(s[a2].0@ == k);
            assert(a2 != i);
        }
        if m2.contains_key(k) {
            let a = choose|a: int| 0 <= a < s.len() && #[trigger] s[a].0@ == k;
            assert(a != i);
            let a1 = if a < i { a } else { a - 1 };
            assert(t[a1] == s[a]);
        }
    }
    assert forall|k: Seq<char>| m1.contains_key(k) implies m1[k] == m2[k] by {
        lemma_pairs_map_dom(t, k);
        let a = choose|a: int| 0 <= a < t.len() && #[trigger] t[a].0@ == k;
        let a2 = if a < i { a } else { a + 1 };
        assert(t[a] == s[a2]);
        lemma_pairs_map_index(t, a);
        lemma_pairs_map_index(s, a2);
    }
    assert(m1 =~= m2);
}

/// A map from strings to values, in insertion order.
#[derive(Debug)]
pub struct StrMap<V> {
    entries: Vec<(String, V)>,
}

impl<V> View for StrMap<V> {
    type V = Map<Seq<char>, V>;

    closed spec fn view(&self) -> Map<Seq<char>, V> {
        pairs_map(self.entries@)
    }
}

impl<V> StrMap<V> {
    /// The entries in insertion order.
    pub closed spec fn spec_entries(&self) -> Seq<(String, V)> {
        self.entries@
    }

    #[verifier::type_invariant]
    closed spec fn wf(&self) -> bool {
        keys_distinct(self.entries@)
    }

    /// An empty map.
    pub fn new() -> (r: Self)
        ensures
            r@ == Map::<Seq<char>, V>::empty(),
            r.spec_entries().len() == 0,
    {
        StrMap { entries: Vec::new() }
    }

    /// The position of `key` among the entries.
    pub fn find(&self, key: &str) -> (r: Option<usize>)
        ensures
            match r {
                Some(i) => i < self.spec_entries().len() && self.spec_entries()[i as int].0@
                    == key@,
                None => forall|i: int|
                    0 <= i < self.spec_entries().len() ==> #[trigger] self.spec_entries()[i].0@
                        != key@,
            },
            r is Some <==> self@.contains_key(key@),
    {
        proof {
            use_type_invariant(self);
            lemma_pairs_map_dom(self.entries@, key@);
        }
        let k = String::from_str(key);
        let mut i: usize = 0;
        while i < self.entries.len()
            invariant
                i <= self.entries@.len(),
                k@ == key@,
                forall|j: int| 0 <= j < i ==> #[trigger] self.entries@[j].0@ != key@,
            decreases self.entries@.len() - i,
        {
            if self.entries[i].0 == k {
                assert(self.entries@[i as int].0@ == key@);
                proof {
                    lemma_pairs_map_dom(self.entries@, key@);
                }
                return Some(i);
            }
            i = i + 1;
        }
        None
    }

    /// Whether `key` is present.
    pub fn contains_key(&self, key: &str) -> (r: bool)
        ensures
            r == self@.contains_key(key@),
    {
        self.find(key).is_some()
    }

    /// The value under `key`.
    pub fn get(&self, key: &str) -> (r: Option<&V>)
        ensures
            match r {
                Some(v) => self@.contains_key(key@) && *v == self@[key@],
                None => !self@.contains_key(key@),
            },
    {
        match self.find(key) {
            Some(i) => {
                proof {
                    use_type_invariant(self);
                    lemma_pairs_map_index(self.entries@, i as int);
                }
                Some(&self.entries[i].1)
            },
            None => None,
        }
    }

    /// Sets the value under `key`, replacing any value there; an existing
    /// key keeps its place, a new one goes last.  Hands back the value it
    /// replaced.
    pub fn insert(&mut self, key: String, value: V) -> (r: Option<V>)
        ensures
            final(self)@ == old(self)@.insert(key@, value),
            match r {
                Some(v) => old(self)@.contains_key(key@) && v == old(self)@[key@],
                None => !old(self)@.contains_key(key@),
            },
    {
        proof {
            use_type_invariant(&*self);
        }
        match self.find(key.as_str()) {
            Some(i) => {
                let ghost pre = self.entries@;
                proof {
                    lemma_pairs_map_index(pre, i as int);
                }
                let mut entry = (key, value);
                let mut entries = Vec::new();
                core::mem::swap(&mut entries, &mut self.entries);
                core::mem::swap(&mut entries[i], &mut entry);
                let ghost post = entries@;
                assert(post == pre.update(i as int, (key, value)));
                assert(keys_distinct(post)) by {
                    assert forall|a: int, b: int| 0 <= a < b < post.len() implies #[trigger] post[a].0@
                        != #[trigger] post[b].0@ by {
                        assert(post[a].0@ == pre[a].0@ && post[b].0@ == pre[b].0@);
                    }
                }
                assert(pairs_map(post) =~= pairs_map(pre).insert(key@, value)) by {
                    assert forall|k: Seq<char>| #[trigger] pairs_map(post).contains_key(k)
                        <==> pairs_map(pre).insert(key@, value).contains_key(k) by {
                        lemma_pairs_map_dom(post, k);
                        lemma_pairs_map_dom(pre, k);
                        if exists|a: int| 0 <= a < post.len() && #[trigger] post[a].0@ == k {
                            let a = choose|a: int| 0 <= a < post.len() && #[trigger] post[a].0@ == k;
                            assert(pre[a].0@ == k);
                        }
                        if exists|a: int| 0 <= a < pre.len() && #[trigger] pre[a].0@ == k {
                            let a = choose|a: int| 0 <= a < pre.len() && #[trigger] pre[a].0@ == k;
                            assert(post[a].0@ == k);
                        }
                    }
                    assert forall|k: Seq<char>| #[trigger] pairs_map(post).contains_key(k)
                        implies pairs_map(post)[k] == pairs_map(pre).insert(key@, value)[k] by {
                        lemma_pairs_map_dom(post, k);
                        let a = choose|a: int| 0 <= a < post.len() && #[trigger] post[a].0@ == k;
                        lemma_pairs_map_index(post, a);
                        if a != i {
                            lemma_pairs_map_index(pre, a);
                        }
                    }
                }
                self.entries = entries;
                Some(entry.1)
            },
            None => {
                let ghost pre = self.entries@;
                assert forall|a: int| 0 <= a < pre.len() implies pre[a].0@ != key@ by {
                    assert(self.spec_entries()[a].0@ != key@);
                }
                let mut entries = Vec::new();
                core::mem::swap(&mut entries, &mut self.entries);
                entries.push((key, value));
                assert(entries@.drop_last() == pre);
                assert(keys_distinct(entries@)) by {
                    let post = entries@;
                    assert forall|a: int, b: int| 0 <= a < b < post.len() implies #[trigger] post[a].0@
                        != #[trigger] post[b].0@ by {
                        if b == post.len() - 1 {
                            assert(pre[a].0@ != key@);
                        } else {
                            assert(post[a] == pre[a] && post[b] == pre[b]);
                        }
                    }
                }
                self.entries = entries;
                Option::None
            },
        }
    }

    /// Removes `key`, handing back its value.
    pub fn remove(&mut self, key: &str) -> (r: Option<V>)
        ensures
            final(self)@ == old(self)@.remove(key@),
            match r {
                Some(v) => old(self)@.contains_key(key@) && v == old(self)@[key@],
                None => !old(self)@.contains_key(key@),
            },
    {
        proof {
            use_type_invariant(&*self);
        }
        match self.find(key) {
            Some(i) => {
                let ghost pre = self.entries@;
                proof {
                    lemma_pairs_map_index(pre, i as int);
                    lemma_pairs_map_remove(pre, i as int);
                }
                let mut entries = Vec::new();
                core::mem::swap(&mut entries, &mut self.entries);
                let (_, v) = entries.remove(i);
                self.entries = entries;
                Some(v)
            },
            None => {
                assert(old(self)@.remove(key@) =~= old(self)@);
                None
            },
        }
    }

    /// Takes out the first entry.
    pub fn pop_first(&mut self) -> (r: Option<(String, V)>)
        ensures
            match r {
                Some((k, v)) => {
                    &&& old(self)@.contains_key(k@)
                    &&& old(self)@[k@] == v
                    &&& final(self)@ == old(self)@.remove(k@)
                    &&& final(self).spec_entries().len() + 1 == old(self).spec_entries().len()
                },
                None => final(self)@ == old(self)@ && old(self).spec_entries().len() == 0
                    && old(self)@ == Map::<Seq<char>, V>::empty(),
            },
    {
        proof {
            use_type_invariant(&*self);
        }
        if self.entries.len() == 0 {
            assert(self@ =~= Map::<Seq<char>, V>::empty());
            return None;
        }
        let ghost pre = self.entries@;
        proof {
            lemma_pairs_map_index(pre, 0);
            lemma_pairs_map_remove(pre, 0);
        }
        let mut entries = Vec::new();
        core::mem::swap(&mut entries, &mut self.entries);
        let e = entries.remove(0);
        self.entries = entries;
        Some(e)
    }

    /// The number of keys.
    pub fn len(&self) -> (r: usize)
        ensures
            r == self@.len(),
            r == self.spec_entries().len(),
            self@.dom().finite(),
            self@ == pairs_map(self.spec_entries()),
            keys_distinct(self.spec_entries()),
    {
        proof {
            use_type_invariant(self);
            lemma_pairs_map_len(self.entries@);
        }
        self.entries.len()
    }

    /// Whether the map has no keys.
    pub fn is_empty(&self) -> (r: bool)
        ensures
            r == (self@.len() == 0),
            r == (self@ == Map::<Seq<char>, V>::empty()),
    {
        proof {
            use_type_invariant(self);
            lemma_pairs_map_len(self.entries@);
            if self@.len() == 0 {
                assert(self@ =~= Map::<Seq<char>, V>::empty());
            }
        }
        self.entries.len() == 0
    }

    /// The entry at position `i`, in insertion order.
    pub fn entry_at(&self, i: usize) -> (r: (&String, &V))
        requires
            i < self.spec_entries().len(),
        ensures
            *r.0 == self.spec_entries()[i as int].0,
            *r.1 == self.spec_entries()[i as int].1,
            self@.contains_key(r.0@),
            self@[r.0@] == *r.1,
    {
        proof {
            use_type_invariant(self);
            lemma_pairs_map_index(self.entries@, i as int);
        }
        (&self.entries[i].0, &self.entries[i].1)
    }

    /// The keys, in insertion order.
    pub fn keys(&self) -> (r: Vec<String>)
        ensures
            r@.len() == self.spec_entries().len(),
            forall|i: int| 0 <= i < r@.len() ==> #[trigger] r@[i]@ == self.spec_entries()[i].0@,
    {
        let mut out: Vec<String> = Vec::new();
        let mut i: usize = 0;
        while i < self.entries.len()
            invariant
                i <= self.entries@.len(),
                out@.len() == i,
                forall|j: int| 0 <= j < i ==> #[trigger] out@[j]@ == self.entries@[j].0@,
            decreases self.entries@.len() - i,
        {
            out.push(self.entries[i].0.clone());
            i = i + 1;
        }
        out
    }
}

impl StrMap<String> {
    /// Copies a map of texts.
    pub fn clone_texts(&self) -> (r: Self)
        ensures
            r@ == self@,
            r.spec_entries() == self.spec_entries(),
    {
        let r = self.clone();
        assert forall|i: int| 0 <= i < r.entries@.len() implies #[trigger] r.entries@[i]
            == self.entries@[i] by {
            assert(r.spec_entries()[i].0 == self.spec_entries()[i].0);
            assert(cloned(self.spec_entries()[i].1, r.spec_entries()[i].1));
        }
        assert(r.entries@ =~= self.entries@);
        r
    }
}

impl<V: Clone> Clone for StrMap<V> {
    /// Copies the map: the same keys in the same order, each value a clone.
    fn clone(&self) -> (r: Self)
        ensures
            r.spec_entries().len() == self.spec_entries().len(),
            forall|i: int|
                0 <= i < r.spec_entries().len() ==> #[trigger] r.spec_entries()[i].0
                    == self.spec_entries()[i].0 && cloned(
                    self.spec_entries()[i].1,
                    r.spec_entries()[i].1,
                ),
    {
        proof {
            use_type_invariant(self);
        }
        let mut out: Vec<(String, V)> = Vec::new();
        let mut i: usize = 0;
        while i < self.entries.len()
            invariant
                i <= self.entries@.len(),
                keys_distinct(self.entries@),
                out@.len() == i,
                forall|j: int|
                    0 <= j < i ==> #[trigger] out@[j].0 == self.entries@[j].0 && cloned(
                        self.entries@[j].1,
                        out@[j].1,
                    ),
            decreases self.entries@.len() - i,
        {
            let k = self.entries[i].0.clone();
            let v = self.entries[i].1.clone();
            out.push((k, v));
            i = i + 1;
        }
        assert(keys_distinct(out@)) by {
            assert forall|a: int, b: int| 0 <= a < b < out@.len() implies #[trigger] out@[a].0@
                != #[trigger] out@[b].0@ by {
                assert(out@[a].0 == self.entries@[a].0);
                assert(out@[b].0 == self.entries@[b].0);
            }
        }
        StrMap { entries: out }
    }
}

} // verus!
