//! Maps keyed by text, kept in ascending key order.

use vstd::prelude::*;

use crate::order::{before, lemma_before_irreflexive, lemma_before_transitive, place, Place};

verus! {

/// Entries whose keys ascend strictly.
pub open spec fn ascending<V>(p: Seq<(Seq<char>, V)>) -> bool {
    forall|i: int, j: int| 0 <= i < j < p.len() ==> before(#[trigger] p[i].0, #[trigger] p[j].0)
}

/// Whether `k` is the key of an entry.
pub open spec fn has_key<V>(p: Seq<(Seq<char>, V)>, k: Seq<char>) -> bool {
    exists|i: int| 0 <= i < p.len() && #[trigger] p[i].0 == k
}

/// The position of the entry with key `k`.
pub open spec fn position<V>(p: Seq<(Seq<char>, V)>, k: Seq<char>) -> int {
    choose|i: int| 0 <= i < p.len() && #[trigger] p[i].0 == k
}

/// The map that a list of entries stands for.
pub open spec fn map_of<V>(p: Seq<(Seq<char>, V)>) -> Map<Seq<char>, V> {
    Map::new(|k: Seq<char>| has_key(p, k), |k: Seq<char>| p[position(p, k)].1)
}

/// A map from texts to values, walked in ascending key order.
#[derive(Debug, PartialEq, Eq)]
#[verifier::reject_recursive_types(V)]
pub struct TextMap<V> {
    entries: Vec<(String, V)>,
}

pub closed spec fn views<V>(e: Seq<(String, V)>) -> Seq<(Seq<char>, V)> {
    Seq::new(e.len(), |i: int| (e[i].0@, e[i].1))
}

/// In ascending entries a key stands at one position only.
pub proof fn lemma_unique_key<V>(p: Seq<(Seq<char>, V)>, i: int)
    requires
        ascending(p),
        0 <= i < p.len(),
    ensures
        has_key(p, p[i].0),
        position(p, p[i].0) == i,
        map_of(p).dom().contains(p[i].0),
        map_of(p)[p[i].0] == p[i].1,
{
    let j = position(p, p[i].0);
    assert(0 <= j < p.len() && p[j].0 == p[i].0);
    lemma_before_irreflexive(p[i].0);
    assert(!(i < j) && !(j < i));
}

impl<V> TextMap<V> {
    #[verifier::type_invariant]
    spec fn keys_ascend(self) -> bool {
        ascending(views(self.entries@))
    }

    /// The entries in key order.
    pub closed spec fn pairs(self) -> Seq<(Seq<char>, V)> {
        views(self.entries@)
    }

    /// The map as a mathematical map.
    pub open spec fn view(&self) -> Map<Seq<char>, V> {
        map_of(self.pairs())
    }

    /// The map without entries.
    pub fn new() -> (r: Self)
        ensures
            r.pairs() == Seq::<(Seq<char>, V)>::empty(),
            r@ == Map::<Seq<char>, V>::empty(),
    {
        let r = TextMap { entries: Vec::new() };
        assert(r.pairs() == Seq::<(Seq<char>, V)>::empty());
        assert(r@ == Map::<Seq<char>, V>::empty());
        r
    }

    /// The number of entries, which ascend by key.
    pub fn len(&self) -> (n: usize)
        ensures
            n == self.pairs().len(),
            ascending(self.pairs()),
    {
        proof {
            use_type_invariant(self);
        }
        self.entries.len()
    }

    /// The key of the entry at position `i`.
    pub fn key(&self, i: usize) -> (k: &String)
        requires
            i < self.pairs().len(),
        ensures
            k@ == self.pairs()[i as int].0,
    {
        &self.entries[i].0
    }

    /// The value of the entry at position `i`.
    pub fn value(&self, i: usize) -> (v: &V)
        requires
            i < self.pairs().len(),
        ensures
            *v == self.pairs()[i as int].1,
    {
        &self.entries[i].1
    }

    /// The position of the first entry whose key does not come before `key`.
    fn slot(&self, key: &str) -> (r: (usize, bool))
        ensures
            r.0 <= self.pairs().len(),
            forall|i: int| 0 <= i < r.0 ==> before(#[trigger] self.pairs()[i].0, key@),
            r.1 ==> r.0 < self.pairs().len() && self.pairs()[r.0 as int].0 == key@,
            !r.1 ==> forall|i: int|
                r.0 <= i < self.pairs().len() ==> before(key@, #[trigger] self.pairs()[i].0),
            r.1 == has_key(self.pairs(), key@),
            ascending(self.pairs()),
    {
        proof {
            use_type_invariant(self);
        }
        let ghost p = self.pairs();
        let mut i: usize = 0;
        while i < self.entries.len()
            invariant
                i <= self.entries@.len(),
                p == views(self.entries@),
                p == self.pairs(),
                ascending(p),
                forall|j: int| 0 <= j < i ==> before(#[trigger] p[j].0, key@),
            decreases self.entries.len() - i,
        {
            match place(self.entries[i].0.as_str(), key) {
                Place::Before => {
                    i = i + 1;
                },
                Place::Same => {
                    assert(p[i as int].0 == key@);
                    return (i, true);
                },
                Place::After => {
                    proof {
                        assert(before(key@, p[i as int].0));
                        assert forall|j: int| i <= j < p.len() implies before(
                            key@,
                            #[trigger] p[j].0,
                        ) by {
                            if j > i {
                                lemma_before_transitive(key@, p[i as int].0, p[j].0);
                            }
                        }
                        lemma_absent(p, key@, i as int);
                    }
                    return (i, false);
                },
            }
        }
        proof {
            lemma_absent(p, key@, i as int);
        }
        (i, false)
    }

    /// The value stored for `key`.
    pub fn get(&self, key: &str) -> (r: Option<&V>)
        ensures
            match r {
                Some(v) => self@.dom().contains(key@) && *v == self@[key@],
                None => !self@.dom().contains(key@),
            },
    {
        let (i, found) = self.slot(key);
        if found {
            proof {
                lemma_unique_key(self.pairs(), i as int);
            }
            Some(&self.entries[i].1)
        } else {
            None
        }
    }

    /// Stores `value` for `key`, in place of an earlier value.
    pub fn insert(&mut self, key: String, value: V)
        ensures
            final(self)@ == old(self)@.insert(key@, value),
            ascending(final(self).pairs()),
    {
        let (i, found) = self.slot(key.as_str());
        let ghost p = self.pairs();
        let ghost k = key@;
        let mut entries: Vec<(String, V)> = Vec::new();
        std::mem::swap(&mut entries, &mut self.entries);
        assert(views(entries@) == p);
        if found {
            entries.set(i, (key, value));
            let ghost q = views(entries@);
            proof {
                assert(q == p.update(i as int, (k, value)));
                assert(ascending(q));
                lemma_replaced(p, q, i as int, k, value);
            }
        } else {
            entries.insert(i, (key, value));
            let ghost q = views(entries@);
            proof {
                assert(q == p.insert(i as int, (k, value)));
                lemma_inserted(p, q, i as int, k, value);
            }
        }
        *self = TextMap { entries };
    }

    /// Removes the entry of `key`.
    pub fn remove(&mut self, key: &str) -> (r: Option<V>)
        ensures
            final(self)@ == old(self)@.remove(key@),
            ascending(final(self).pairs()),
            match r {
                Some(v) => old(self)@.dom().contains(key@) && v == old(self)@[key@],
                None => !old(self)@.dom().contains(key@),
            },
    {
        let (i, found) = self.slot(key);
        let ghost p = self.pairs();
        if !found {
            assert(self@ =~= self@.remove(key@));
            return None;
        }
        let mut entries: Vec<(String, V)> = Vec::new();
        std::mem::swap(&mut entries, &mut self.entries);
        assert(views(entries@) == p);
        let (k, v) = entries.remove(i);
        let ghost q = views(entries@);
        proof {
            assert(q == p.remove(i as int));
            lemma_unique_key(p, i as int);
            lemma_removed(p, q, i as int);
        }
        *self = TextMap { entries };
        Some(v)
    }
}

impl<V: Clone> Clone for TextMap<V> {
    fn clone(&self) -> (r: Self)
        ensures
            r.pairs().len() == self.pairs().len(),
            forall|i: int|
                0 <= i < self.pairs().len() ==> (#[trigger] r.pairs()[i]).0 == self.pairs()[i].0
                    && cloned(self.pairs()[i].1, r.pairs()[i].1),
    {
        proof {
            use_type_invariant(self);
        }
        let ghost p = views(self.entries@);
        let mut entries: Vec<(String, V)> = Vec::new();
        let mut i: usize = 0;
        while i < self.entries.len()
            invariant
                i <= self.entries@.len(),
                p == views(self.entries@),
                ascending(p),
                entries@.len() == i,
                forall|j: int|
                    0 <= j < i ==> (#[trigger] views(entries@)[j]).0 == p[j].0 && cloned(
                        p[j].1,
                        views(entries@)[j].1,
                    ),
            decreases self.entries.len() - i,
        {
            let ghost prior = entries@;
            entries.push((self.entries[i].0.clone(), self.entries[i].1.clone()));
            proof {
                assert forall|j: int| 0 <= j < i + 1 implies (#[trigger] views(entries@)[j]).0
                    == p[j].0 && cloned(p[j].1, views(entries@)[j].1) by {
                    if j < i {
                        assert(views(entries@)[j] == views(prior)[j]);
                    }
                }
            }
            i = i + 1;
        }
        assert(ascending(views(entries@)));
        TextMap { entries }
    }
}

proof fn lemma_absent<V>(p: Seq<(Seq<char>, V)>, k: Seq<char>, i: int)
    requires
        0 <= i <= p.len(),
        forall|j: int| 0 <= j < i ==> before(#[trigger] p[j].0, k),
        forall|j: int| i <= j < p.len() ==> before(k, #[trigger] p[j].0),
    ensures
        !has_key(p, k),
{
    lemma_before_irreflexive(k);
    assert forall|j: int| 0 <= j < p.len() implies #[trigger] p[j].0 != k by {
        if j < i {
        }
    }
}

proof fn lemma_replaced<V>(p: Seq<(Seq<char>, V)>, q: Seq<(Seq<char>, V)>, i: int, k: Seq<char>, v: V)
    requires
        ascending(p),
        ascending(q),
        0 <= i < p.len(),
        p[i].0 == k,
        q == p.update(i, (k, v)),
    ensures
        map_of(q) == map_of(p).insert(k, v),
{
    let a = map_of(q);
    let b = map_of(p).insert(k, v);
    assert forall|x: Seq<char>| #[trigger] a.dom().contains(x) <==> b.dom().contains(x) by {
        if has_key(q, x) {
            let j = position(q, x);
            assert(p[j].0 == x);
        }
        if has_key(p, x) {
            let j = position(p, x);
            assert(q[j].0 == x);
        }
        assert(q[i].0 == k);
    }
    assert forall|x: Seq<char>| #[trigger] a.dom().contains(x) implies a[x] == b[x] by {
        let j = position(q, x);
        lemma_unique_key(q, j);
        lemma_unique_key(p, j);
        if x == k {
            lemma_unique_key(p, i);
        }
    }
    assert(a =~= b);
}

proof fn lemma_inserted<V>(p: Seq<(Seq<char>, V)>, q: Seq<(Seq<char>, V)>, i: int, k: Seq<char>, v: V)
    requires
        ascending(p),
        0 <= i <= p.len(),
        forall|j: int| 0 <= j < i ==> before(#[trigger] p[j].0, k),
        forall|j: int| i <= j < p.len() ==> before(k, #[trigger] p[j].0),
        q == p.insert(i, (k, v)),
    ensures
        ascending(q),
        map_of(q) == map_of(p).insert(k, v),
{
    assert forall|x: int, y: int| 0 <= x < y < q.len() implies before(
        #[trigger] q[x].0,
        #[trigger] q[y].0,
    ) by {
        if x < i {
            assert(q[x] == p[x]);
        } else if x > i {
            assert(q[x] == p[x - 1]);
        }
        if y < i {
            assert(q[y] == p[y]);
        } else if y > i {
            assert(q[y] == p[y - 1]);
        }
    }
    let a = map_of(q);
    let b = map_of(p).insert(k, v);
    assert forall|x: Seq<char>| #[trigger] a.dom().contains(x) <==> b.dom().contains(x) by {
        if has_key(q, x) {
            let j = position(q, x);
            if j < i {
                assert(p[j].0 == x);
            } else if j > i {
                assert(p[j - 1].0 == x);
            }
        }
        if has_key(p, x) {
            let j = position(p, x);
            if j < i {
                assert(q[j].0 == x);
            } else {
                assert(q[j + 1].0 == x);
            }
        }
        assert(q[i].0 == k);
    }
    assert forall|x: Seq<char>| #[trigger] a.dom().contains(x) implies a[x] == b[x] by {
        let j = position(q, x);
        lemma_unique_key(q, j);
        if j == i {
        } else {
            lemma_absent(p, k, i);
            let m = if j < i {
                j
            } else {
                j - 1
            };
            assert(p[m].0 == x);
            lemma_unique_key(p, m);
        }
    }
    assert(a =~= b);
}

proof fn lemma_removed<V>(p: Seq<(Seq<char>, V)>, q: Seq<(Seq<char>, V)>, i: int)
    requires
        ascending(p),
        0 <= i < p.len(),
        q == p.remove(i),
    ensures
        ascending(q),
        map_of(q) == map_of(p).remove(p[i].0),
{
    assert forall|x: int, y: int| 0 <= x < y < q.len() implies before(
        #[trigger] q[x].0,
        #[trigger] q[y].0,
    ) by {
        assert(q[x] == p[if x < i { x } else { x + 1 }]);
        assert(q[y] == p[if y < i { y } else { y + 1 }]);
    }
    let a = map_of(q);
    let b = map_of(p).remove(p[i].0);
    assert forall|x: Seq<char>| #[trigger] a.dom().contains(x) <==> b.dom().contains(x) by {
        if has_key(q, x) {
            let j = position(q, x);
            let m = if j < i { j } else { j + 1 };
            assert(p[m].0 == x);
            lemma_unique_key(p, m);
            lemma_unique_key(p, i);
        }
        if has_key(p, x) && x != p[i].0 {
            let j = position(p, x);
            assert(q[if j < i { j } else { j - 1 }].0 == x);
        }
    }
    assert forall|x: Seq<char>| #[trigger] a.dom().contains(x) implies a[x] == b[x] by {
        let j = position(q, x);
        lemma_unique_key(q, j);
        let m = if j < i { j } else { j + 1 };
        assert(p[m].0 == x);
        lemma_unique_key(p, m);
    }
    assert(a =~= b);
}

/// Ascending entries are determined by the map that they stand for.
pub proof fn law_entries_determined<V>(p: Seq<(Seq<char>, V)>, q: Seq<(Seq<char>, V)>)
    requires
        ascending(p),
        ascending(q),
        map_of(p) == map_of(q),
    ensures
        p == q,
    decreases p.len(),
{
    if p.len() == 0 {
        if q.len() > 0 {
            lemma_unique_key(q, 0);
            assert(has_key(p, q[0].0));
        }
        assert(p == q);
    } else {
        lemma_unique_key(p, 0);
        assert(has_key(q, p[0].0));
        lemma_unique_key(q, 0);
        assert(has_key(p, q[0].0));
        let j = position(q, p[0].0);
        let m = position(p, q[0].0);
        if j > 0 && m > 0 {
            lemma_before_transitive(p[0].0, p[m].0, q[j].0);
            lemma_before_irreflexive(p[0].0);
        }
        assert(p[0].0 == q[0].0);
        lemma_removed(p, p.remove(0), 0);
        lemma_removed(q, q.remove(0), 0);
        law_entries_determined(p.remove(0), q.remove(0));
        assert(p == seq![p[0]] + p.remove(0));
        assert(q == seq![q[0]] + q.remove(0));
    }
}

// ---------------------------------------------------------------------------------------------
// Maps from texts to texts
// ---------------------------------------------------------------------------------------------
/// Environment variables by name.
pub type EnvMap = TextMap<String>;

/// The entries of a map of texts, with the characters of the values.
pub open spec fn text_pairs(m: TextMap<String>) -> Seq<(Seq<char>, Seq<char>)> {
    Seq::new(m.pairs().len(), |i: int| (m.pairs()[i].0, m.pairs()[i].1@))
}

/// A copy of a map of texts.
pub fn copy_env(m: &EnvMap) -> (r: EnvMap)
    ensures
        text_pairs(r) == text_pairs(*m),
        r.pairs() == m.pairs(),
        r@ == m@,
        ascending(r.pairs()),
{
    let r = m.clone();
    proof {
        use_type_invariant(&r);
    }
    assert(r.pairs() == m.pairs());
    r
}

/// Whether two maps of texts hold the same entries.
pub fn same_env(a: &EnvMap, b: &EnvMap) -> (r: bool)
    ensures
        r == (text_pairs(*a) == text_pairs(*b)),
{
    if a.len() != b.len() {
        assert(text_pairs(*a).len() != text_pairs(*b).len());
        return false;
    }
    let n: usize = a.len();
    let mut i: usize = 0;
    while i < n
        invariant
            i <= n == a.pairs().len(),
            n == b.pairs().len(),
            forall|j: int| 0 <= j < i ==> #[trigger] text_pairs(*a)[j] == text_pairs(*b)[j],
        decreases n - i,
    {
        if *a.key(i) != *b.key(i) || *a.value(i) != *b.value(i) {
            assert(text_pairs(*a)[i as int] != text_pairs(*b)[i as int]);
            return false;
        }
        i = i + 1;
    }
    assert(text_pairs(*a) == text_pairs(*b));
    true
}

/// A map of texts, with the characters of the values.
pub open spec fn env_of(m: Map<Seq<char>, String>) -> Map<Seq<char>, Seq<char>> {
    Map::new(|k: Seq<char>| m.dom().contains(k), |k: Seq<char>| m[k]@)
}

/// The variables of `base` with those of `over` on top.
pub open spec fn overlaid(
    base: Map<Seq<char>, Seq<char>>,
    over: Map<Seq<char>, Seq<char>>,
) -> Map<Seq<char>, Seq<char>> {
    base.union_prefer_right(over)
}

/// The entries of a map of texts stand for that map.
pub proof fn lemma_text_pairs(m: EnvMap)
    requires
        ascending(m.pairs()),
    ensures
        ascending(text_pairs(m)),
        map_of(text_pairs(m)) == env_of(m@),
{
    let p = m.pairs();
    let q = text_pairs(m);
    assert(forall|i: int| 0 <= i < p.len() ==> q[i].0 == p[i].0);
    assert forall|k: Seq<char>| has_key(q, k) == has_key(p, k) by {
        if has_key(q, k) {
            assert(p[position(q, k)].0 == k);
        }
        if has_key(p, k) {
            assert(q[position(p, k)].0 == k);
        }
    }
    assert forall|k: Seq<char>| has_key(q, k) implies #[trigger] map_of(q)[k] == env_of(m@)[k] by {
        let i = position(q, k);
        lemma_unique_key(p, i);
        lemma_unique_key(q, i);
    }
    assert(map_of(q) =~= env_of(m@));
}

/// The first `n` entries as a map.
pub open spec fn entries_map<V>(p: Seq<(Seq<char>, V)>, n: int) -> Map<Seq<char>, V> {
    map_of(p.subrange(0, n))
}

/// The variables of `base` with those of `over` on top.
pub fn overlay(base: &EnvMap, over: &EnvMap) -> (r: EnvMap)
    ensures
        env_of(r@) == overlaid(env_of(base@), env_of(over@)),
        map_of(text_pairs(r)) == overlaid(map_of(text_pairs(*base)), map_of(text_pairs(*over))),
        ascending(r.pairs()),
{
    let mut r = copy_env(base);
    let n: usize = over.len();
    let mut i: usize = 0;
    let ghost p = over.pairs();
    assert(entries_map(p, 0) =~= Map::<Seq<char>, String>::empty());
    assert(r@ =~= base@.union_prefer_right(entries_map(p, 0)));
    while i < n
        invariant
            i <= n == p.len(),
            p == over.pairs(),
            ascending(p),
            ascending(base.pairs()),
            ascending(r.pairs()),
            r@ == base@.union_prefer_right(entries_map(p, i as int)),
        decreases n - i,
    {
        r.insert(over.key(i).clone(), over.value(i).clone());
        proof {
            lemma_entries_map_step(p, i as int);
            assert(r@ =~= base@.union_prefer_right(entries_map(p, i + 1)));
        }
        i = i + 1;
    }
    assert(p.subrange(0, n as int) =~= p);
    assert(env_of(r@) =~= overlaid(env_of(base@), env_of(over@)));
    proof {
        lemma_text_pairs(*base);
        lemma_text_pairs(*over);
        lemma_text_pairs(r);
    }
    r
}

proof fn lemma_entries_map_step<V>(p: Seq<(Seq<char>, V)>, i: int)
    requires
        ascending(p),
        0 <= i < p.len(),
    ensures
        entries_map(p, i + 1) == entries_map(p, i).insert(p[i].0, p[i].1),
{
    let a = p.subrange(0, i);
    let b = p.subrange(0, i + 1);
    assert(ascending(a));
    assert(ascending(b));
    assert forall|k: Seq<char>| has_key(b, k) == (has_key(a, k) || k == p[i].0) by {
        if has_key(b, k) {
            let j = position(b, k);
            if j < i {
                assert(a[j].0 == k);
            }
        }
        if has_key(a, k) {
            let j = position(a, k);
            assert(b[j].0 == k);
        }
        if k == p[i].0 {
            assert(b[i].0 == k);
        }
    }
    assert forall|k: Seq<char>| has_key(b, k) implies #[trigger] map_of(b)[k] == (if k == p[i].0 {
        p[i].1
    } else {
        map_of(a)[k]
    }) by {
        let j = position(b, k);
        lemma_unique_key(b, j);
        if k == p[i].0 {
            lemma_unique_key(b, i);
        } else {
            assert(j < i);
            lemma_unique_key(a, j);
        }
    }
    assert(map_of(b) =~= map_of(a).insert(p[i].0, p[i].1));
}

/// Sets a variable.
pub fn set_var(env: &mut EnvMap, name: &str, value: &str)
    ensures
        ascending(final(env).pairs()),
        map_of(text_pairs(*final(env))) == map_of(text_pairs(*old(env))).insert(name@, value@),
        env_of(final(env)@) == env_of(old(env)@).insert(name@, value@),
{
    proof {
        use_type_invariant(&*env);
        lemma_text_pairs(*env);
    }
    env.insert(name.to_owned(), value.to_owned());
    proof {
        lemma_text_pairs(*env);
        assert(env_of(env@) =~= env_of(old(env)@).insert(name@, value@));
    }
}

} // verus!
