//! Association list from string keys to values.
//!
//! This is the entry store underlying the per-request session, the cookie
//! jar model and the in-memory storage backend. Keys are unique; the
//! abstraction is the finite map from key characters to values.

use vstd::prelude::*;

verus! {

/// The map denoted by a sequence of key/value pairs. A later pair for the
/// same key overrides an earlier one, so a well-formed (duplicate-free)
/// sequence denotes exactly its pairs.
pub open spec fn kv_map<V>(s: Seq<(String, V)>) -> Map<Seq<char>, V>
    decreases s.len(),
{
    if s.len() == 0 {
        Map::empty()
    } else {
        kv_map(s.drop_last()).insert(s.last().0@, s.last().1)
    }
}

/// No two pairs share a key.
pub open spec fn unique_keys<V>(s: Seq<(String, V)>) -> bool {
    forall|i: int, j: int| 0 <= i < j < s.len() ==> s[i].0@ != s[j].0@
}

/// A key is in the map exactly when some pair holds it.
pub proof fn lemma_kv_map_contains<V>(s: Seq<(String, V)>, k: Seq<char>)
    ensures
        kv_map(s).contains_key(k) <==> exists|i: int| 0 <= i < s.len() && s[i].0@ == k,
    decreases s.len(),
{
    if s.len() == 0 {
    } else {
        lemma_kv_map_contains(s.drop_last(), k);
        if s.last().0@ == k {
            assert(s[s.len() - 1].0@ == k);
        } else {
            if exists|i: int| 0 <= i < s.len() && s[i].0@ == k {
                let i = choose|i: int| 0 <= i < s.len() && s[i].0@ == k;
                assert(s.drop_last()[i].0@ == k);
            }
        }
    }
}

pub proof fn lemma_unique_drop_last<V>(s: Seq<(String, V)>)
    requires
        unique_keys(s),
        s.len() > 0,
    ensures
        unique_keys(s.drop_last()),
{
    assert forall|i: int, j: int|
        0 <= i < j < s.drop_last().len() implies s.drop_last()[i].0@ != s.drop_last()[j].0@ by {
        assert(s.drop_last()[i] == s[i]);
        assert(s.drop_last()[j] == s[j]);
    }
}

/// Under unique keys, each pair is what the map holds for its key.
pub proof fn lemma_kv_map_index<V>(s: Seq<(String, V)>, i: int)
    requires
        unique_keys(s),
        0 <= i < s.len(),
    ensures
        kv_map(s).contains_key(s[i].0@),
        kv_map(s)[s[i].0@] == s[i].1,
    decreases s.len(),
{
    if i == s.len() - 1 {
    } else {
        assert(s[i].0@ != s[s.len() - 1].0@);
        lemma_unique_drop_last(s);
        lemma_kv_map_index(s.drop_last(), i);
        assert(s.drop_last()[i] == s[i]);
    }
}

/// Appending a pair denotes inserting its binding.
pub proof fn lemma_kv_map_push<V>(s: Seq<(String, V)>, p: (String, V))
    ensures
        kv_map(s.push(p)) == kv_map(s).insert(p.0@, p.1),
{
    assert(s.push(p).drop_last() =~= s);
    assert(s.push(p).last() == p);
}

/// Overwriting the pair that holds a key denotes inserting the new binding.
pub proof fn lemma_kv_map_update<V>(s: Seq<(String, V)>, i: int, p: (String, V))
    requires
        unique_keys(s),
        0 <= i < s.len(),
        p.0@ == s[i].0@,
    ensures
        kv_map(s.update(i, p)) == kv_map(s).insert(p.0@, p.1),
    decreases s.len(),
{
    let t = s.update(i, p);
    if i == s.len() - 1 {
        assert(t.drop_last() =~= s.drop_last());
        assert(t.last() == p);
        assert(kv_map(s).insert(p.0@, p.1) =~= kv_map(s.drop_last()).insert(p.0@, p.1));
    } else {
        assert(s[i].0@ != s[s.len() - 1].0@);
        lemma_unique_drop_last(s);
        lemma_kv_map_update(s.drop_last(), i, p);
        assert(t.drop_last() =~= s.drop_last().update(i, p));
        assert(t.last() == s.last());
        assert(kv_map(s.drop_last()).insert(p.0@, p.1).insert(s.last().0@, s.last().1) =~= kv_map(
            s.drop_last(),
        ).insert(s.last().0@, s.last().1).insert(p.0@, p.1));
    }
}

pub proof fn lemma_unique_remove<V>(s: Seq<(String, V)>, i: int)
    requires
        unique_keys(s),
        0 <= i < s.len(),
    ensures
        unique_keys(s.remove(i)),
{
    let t = s.remove(i);
    assert forall|x: int, y: int| 0 <= x < y < t.len() implies t[x].0@ != t[y].0@ by {
        let x0: int = if x < i { x } else { x + 1 };
        let y0: int = if y < i { y } else { y + 1 };
        assert(t[x] == s[x0]);
        assert(t[y] == s[y0]);
    }
}

/// Deleting the pair that holds a key denotes removing its binding.
pub proof fn lemma_kv_map_remove<V>(s: Seq<(String, V)>, i: int)
    requires
        unique_keys(s),
        0 <= i < s.len(),
    ensures
        kv_map(s.remove(i)) == kv_map(s).remove(s[i].0@),
    decreases s.len(),
{
    let k = s[i].0@;
    let t = s.remove(i);
    if i == s.len() - 1 {
        assert(t =~= s.drop_last());
        lemma_kv_map_contains(s.drop_last(), k);
        assert forall|j: int|
            0 <= j < s.drop_last().len() implies s.drop_last()[j].0@ != k by {
            assert(s.drop_last()[j] == s[j]);
        }
        assert(!kv_map(s.drop_last()).contains_key(k));
        assert(kv_map(s).remove(k) =~= kv_map(s.drop_last()));
    } else {
        assert(k != s[s.len() - 1].0@);
        lemma_unique_drop_last(s);
        lemma_kv_map_remove(s.drop_last(), i);
        assert(t.drop_last() =~= s.drop_last().remove(i));
        assert(t.last() == s.last());
        assert(kv_map(s.drop_last()).remove(k).insert(s.last().0@, s.last().1) =~= kv_map(
            s.drop_last(),
        ).insert(s.last().0@, s.last().1).remove(k));
    }
}

/// A duplicate-free list of key/value pairs, read as a map.
pub struct KvList<V> {
    pub pairs: Vec<(String, V)>,
}

impl<V> View for KvList<V> {
    type V = Map<Seq<char>, V>;

    open spec fn view(&self) -> Map<Seq<char>, V> {
        kv_map(self.pairs@)
    }
}

impl<V> KvList<V> {
    /// Internal shape: no key occurs twice.
    pub open spec fn wf(self) -> bool {
        unique_keys(self.pairs@)
    }

    /// The empty list, denoting the empty map.
    pub fn new() -> (r: Self)
        ensures
            r@ == Map::<Seq<char>, V>::empty(),
            r.wf(),
    {
        let r = KvList { pairs: Vec::new() };
        proof {
            assert(r@ =~= Map::<Seq<char>, V>::empty());
        }
        r
    }

    /// Look a key up.
    pub fn get(&self, key: &String) -> (r: Option<&V>)
        requires
            self.wf(),
        ensures
            match r {
                Some(v) => self@.contains_key(key@) && *v == self@[key@],
                None => !self@.contains_key(key@),
            },
    {
        let n = self.pairs.len();
        let mut i: usize = 0;
        while i < n
            invariant
                n == self.pairs@.len(),
                i <= n,
                self.wf(),
                forall|j: int| 0 <= j < i ==> self.pairs@[j].0@ != key@,
            decreases n - i,
        {
            if self.pairs[i].0 == *key {
                proof {
                    lemma_kv_map_index(self.pairs@, i as int);
                }
                return Some(&self.pairs[i].1);
            }
            i = i + 1;
        }
        proof {
            lemma_kv_map_contains(self.pairs@, key@);
        }
        None
    }

    /// Bind a key to a value, overwriting any earlier binding.
    pub fn set(&mut self, key: String, value: V)
        requires
            old(self).wf(),
        ensures
            final(self).wf(),
            final(self)@ == old(self)@.insert(key@, value),
    {
        let ghost s0 = self.pairs@;
        let n = self.pairs.len();
        let mut i: usize = 0;
        while i < n
            invariant
                n == self.pairs@.len(),
                i <= n,
                self.pairs@ == s0,
                old(self).pairs@ == s0,
                unique_keys(s0),
                forall|j: int| 0 <= j < i ==> s0[j].0@ != key@,
            decreases n - i,
        {
            if self.pairs[i].0 == *(&key) {
                self.pairs[i] = (key, value);
                proof {
                    let p = self.pairs@[i as int];
                    assert(self.pairs@ == s0.update(i as int, p));
                    lemma_kv_map_update(s0, i as int, p);
                    assert forall|x: int, y: int|
                        0 <= x < y < self.pairs@.len() implies self.pairs@[x].0@
                        != self.pairs@[y].0@ by {
                        assert(p.0@ == s0[i as int].0@);
                        if x != i {
                            assert(self.pairs@[x] == s0[x]);
                        }
                        if y != i {
                            assert(self.pairs@[y] == s0[y]);
                        }
                    }
                }
                return;
            }
            i = i + 1;
        }
        proof {
            lemma_kv_map_contains(s0, key@);
        }
        self.pairs.push((key, value));
        proof {
            let p = self.pairs@.last();
            assert(self.pairs@ == s0.push(p));
            lemma_kv_map_push(s0, p);
            assert forall|x: int, y: int|
                0 <= x < y < self.pairs@.len() implies self.pairs@[x].0@ != self.pairs@[y].0@ by {
                if y < s0.len() {
                    assert(self.pairs@[x] == s0[x]);
                    assert(self.pairs@[y] == s0[y]);
                } else {
                    assert(self.pairs@[x] == s0[x]);
                    assert(self.pairs@[y] == p);
                }
            }
        }
    }

    /// Drop a key's binding, if any.
    pub fn remove(&mut self, key: &String)
        requires
            old(self).wf(),
        ensures
            final(self).wf(),
            final(self)@ == old(self)@.remove(key@),
    {
        let ghost s0 = self.pairs@;
        let n = self.pairs.len();
        let mut i: usize = 0;
        while i < n
            invariant
                n == self.pairs@.len(),
                i <= n,
                self.pairs@ == s0,
                old(self).pairs@ == s0,
                unique_keys(s0),
                forall|j: int| 0 <= j < i ==> s0[j].0@ != key@,
            decreases n - i,
        {
            if self.pairs[i].0 == *key {
                proof {
                    lemma_kv_map_remove(s0, i as int);
                    lemma_unique_remove(s0, i as int);
                }
                self.pairs.remove(i);
                return;
            }
            i = i + 1;
        }
        proof {
            lemma_kv_map_contains(s0, key@);
            assert(kv_map(s0).remove(key@) =~= kv_map(s0));
        }
    }
}

} // verus!
