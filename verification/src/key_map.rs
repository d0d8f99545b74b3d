//! Models by key, in the order of the keys.
use vstd::prelude::*;

use crate::models::{AnyModel, AnyModelView};
use crate::text::{
    lemma_precedes_irreflexive, lemma_precedes_total, lemma_precedes_transitive, precedes, same,
    stands_before, texts_of,
};

verus! {

/// Whether each text of the list stands before all that follow it.
pub open spec fn ascending(keys: Seq<Seq<char>>) -> bool {
    forall|i: int, j: int| 0 <= i < j < keys.len() ==> precedes(#[trigger] keys[i], #[trigger] keys[j])
}

/// Whether the list holds the keys of the map, each once, in ascending order.
pub open spec fn lists_keys(keys: Seq<Seq<char>>, m: Map<Seq<char>, AnyModelView>) -> bool {
    &&& ascending(keys)
    &&& forall|k: Seq<char>| #[trigger] m.contains_key(k) <==> keys.contains(k)
}

/// The keys of the map in ascending order.
pub open spec fn ordered_keys(m: Map<Seq<char>, AnyModelView>) -> Seq<Seq<char>> {
    choose|keys: Seq<Seq<char>>| lists_keys(keys, m)
}

proof fn lemma_ascending_unique(a: Seq<Seq<char>>, b: Seq<Seq<char>>)
    requires
        ascending(a),
        ascending(b),
        forall|k: Seq<char>|
            #![trigger a.contains(k)]
            #![trigger b.contains(k)]
            a.contains(k) <==> b.contains(k),
    ensures
        a == b,
    decreases a.len(),
{
    if a.len() == 0 {
        if b.len() > 0 {
            assert(b.contains(b[0]));
        }
        assert(a =~= b);
    } else {
        assert(a.contains(a[0]));
        let j = choose|j: int| 0 <= j < b.len() && b[j] == a[0];
        assert(b.contains(b[0]));
        let i = choose|i: int| 0 <= i < a.len() && a[i] == b[0];
        if i > 0 && j > 0 {
            lemma_precedes_transitive(a[0], a[i], a[0]);
            lemma_precedes_irreflexive(a[0]);
        }
        assert(a[0] == b[0]);
        let x = a.skip(1);
        let y = b.skip(1);
        assert forall|k: Seq<char>| #[trigger] x.contains(k) implies #[trigger] y.contains(k) by {
            let p = choose|p: int| 0 <= p < x.len() && x[p] == k;
            assert(a[p + 1] == k);
            assert(a.contains(k));
            assert(precedes(a[0], a[p + 1]));
            lemma_precedes_irreflexive(k);
            let q = choose|q: int| 0 <= q < b.len() && b[q] == k;
            assert(y[q - 1] == k);
        }
        assert forall|k: Seq<char>| #[trigger] y.contains(k) implies #[trigger] x.contains(k) by {
            let p = choose|p: int| 0 <= p < y.len() && y[p] == k;
            assert(b[p + 1] == k);
            assert(b.contains(k));
            assert(precedes(b[0], b[p + 1]));
            lemma_precedes_irreflexive(k);
            let q = choose|q: int| 0 <= q < a.len() && a[q] == k;
            assert(x[q - 1] == k);
        }
        assert forall|p: int, q: int| 0 <= p < q < x.len() implies precedes(
            #[trigger] x[p],
            #[trigger] x[q],
        ) by {
            assert(precedes(a[p + 1], a[q + 1]));
        }
        assert forall|p: int, q: int| 0 <= p < q < y.len() implies precedes(
            #[trigger] y[p],
            #[trigger] y[q],
        ) by {
            assert(precedes(b[p + 1], b[q + 1]));
        }
        lemma_ascending_unique(x, y);
        assert(a =~= seq![a[0]] + x);
        assert(b =~= seq![b[0]] + y);
    }
}

/// A map has one list of its keys in ascending order.
pub proof fn ordered_keys_are_unique(keys: Seq<Seq<char>>, m: Map<Seq<char>, AnyModelView>)
    requires
        lists_keys(keys, m),
    ensures
        ordered_keys(m) == keys,
{
    let chosen = ordered_keys(m);
    assert(lists_keys(chosen, m));
    assert forall|k: Seq<char>| #[trigger] keys.contains(k) <==> #[trigger] chosen.contains(k) by {
        assert(m.contains_key(k) <==> keys.contains(k));
        assert(m.contains_key(k) <==> chosen.contains(k));
    }
    lemma_ascending_unique(keys, chosen);
}

/// A map from keys to models that is walked in the order of its keys.
pub struct KeyMap {
    entries: Vec<(String, AnyModel)>,
}

spec fn keys_of(e: Seq<(String, AnyModel)>) -> Seq<Seq<char>> {
    e.map_values(|p: (String, AnyModel)| p.0@)
}

spec fn has_key(e: Seq<(String, AnyModel)>, k: Seq<char>) -> bool {
    exists|i: int| 0 <= i < e.len() && (#[trigger] e[i]).0@ == k
}

spec fn index_of(e: Seq<(String, AnyModel)>, k: Seq<char>) -> int {
    choose|i: int| 0 <= i < e.len() && (#[trigger] e[i]).0@ == k
}

spec fn model_at(e: Seq<(String, AnyModel)>, k: Seq<char>) -> AnyModelView {
    e[index_of(e, k)].1@
}

spec fn map_of(e: Seq<(String, AnyModel)>) -> Map<Seq<char>, AnyModelView> {
    Map::new(|k: Seq<char>| has_key(e, k), |k: Seq<char>| model_at(e, k))
}

proof fn lemma_model_at(e: Seq<(String, AnyModel)>, i: int)
    requires
        ascending(keys_of(e)),
        0 <= i < e.len(),
    ensures
        map_of(e).contains_key(e[i].0@),
        map_of(e)[e[i].0@] == e[i].1@,
{
    let k = e[i].0@;
    let j = index_of(e, k);
    assert(has_key(e, k));
    if i != j {
        assert(keys_of(e)[i] == k && keys_of(e)[j] == k);
        lemma_precedes_irreflexive(k);
    }
}

impl View for KeyMap {
    type V = Map<Seq<char>, AnyModelView>;

    closed spec fn view(&self) -> Map<Seq<char>, AnyModelView> {
        map_of(self.entries@)
    }
}

impl KeyMap {
    /// Whether the entries stand in the order of their keys, no key twice.
    pub closed spec fn wf(self) -> bool {
        ascending(keys_of(self.entries@))
    }

    proof fn lemma_lists(self)
        requires
            self.wf(),
        ensures
            lists_keys(keys_of(self.entries@), self@),
            ordered_keys(self@) == keys_of(self.entries@),
    {
        let e = self.entries@;
        let keys = keys_of(e);
        assert forall|k: Seq<char>| #[trigger] self@.contains_key(k) <==> keys.contains(k) by {
            if has_key(e, k) {
                let i = choose|i: int| 0 <= i < e.len() && (#[trigger] e[i]).0@ == k;
                assert(keys[i] == k);
            }
            if keys.contains(k) {
                let i = choose|i: int| 0 <= i < keys.len() && keys[i] == k;
                assert(e[i].0@ == k);
            }
        }
        ordered_keys_are_unique(keys, self@);
    }

    /// A map without entries.
    pub fn new() -> (m: Self)
        ensures
            m.wf(),
            m@ == Map::<Seq<char>, AnyModelView>::empty(),
    {
        let m = KeyMap { entries: Vec::new() };
        assert(m@ =~= Map::<Seq<char>, AnyModelView>::empty());
        m
    }

    /// How many of the entries stand before the key.
    fn place_of(&self, key: &str) -> (at: usize)
        requires
            self.wf(),
        ensures
            at <= self.entries.len(),
            forall|i: int| 0 <= i < at ==> precedes((#[trigger] self.entries@[i]).0@, key@),
            forall|i: int|
                at <= i < self.entries.len() ==> !precedes((#[trigger] self.entries@[i]).0@, key@),
    {
        let mut at: usize = 0;
        while at < self.entries.len() && stands_before(self.entries[at].0.as_str(), key)
            invariant
                at <= self.entries.len(),
                forall|i: int| 0 <= i < at ==> precedes((#[trigger] self.entries@[i]).0@, key@),
            decreases self.entries.len() - at,
        {
            at = at + 1;
        }
        proof {
            let e = self.entries@;
            assert forall|i: int| at <= i < e.len() implies !precedes(
                (#[trigger] e[i]).0@,
                key@,
            ) by {
                if at < i && precedes(e[i].0@, key@) {
                    assert(precedes(keys_of(e)[at as int], keys_of(e)[i]));
                    lemma_precedes_transitive(e[at as int].0@, e[i].0@, key@);
                }
            }
        }
        at
    }

    /// Puts the model at the key, in place of the one that stood there.
    pub fn insert(&mut self, key: String, model: AnyModel)
        requires
            old(self).wf(),
        ensures
            final(self).wf(),
            final(self)@ == old(self)@.insert(key@, model@),
    {
        let at = self.place_of(key.as_str());
        let ghost e = self.entries@;
        let ghost k = key@;
        let ghost m = model@;
        if at < self.entries.len() && same(self.entries[at].0.as_str(), key.as_str()) {
            self.entries.set(at, (key, model));
            let ghost d = self.entries@;
            proof {
                assert(keys_of(d) =~= keys_of(e));
                assert(d[at as int].0@ == k);
                lemma_model_at(d, at as int);
                assert forall|q: Seq<char>| #[trigger] map_of(d).contains_key(q) <==> map_of(e).insert(
                    k,
                    m,
                ).contains_key(q) by {
                    if has_key(d, q) {
                        let i = choose|i: int| 0 <= i < d.len() && (#[trigger] d[i]).0@ == q;
                        assert(e[i].0@ == keys_of(e)[i] && d[i].0@ == keys_of(d)[i]);
                    }
                    if has_key(e, q) {
                        let i = choose|i: int| 0 <= i < e.len() && (#[trigger] e[i]).0@ == q;
                        assert(e[i].0@ == keys_of(e)[i] && d[i].0@ == keys_of(d)[i]);
                    }
                }
                assert forall|q: Seq<char>| #[trigger] map_of(d).contains_key(q) implies map_of(d)[q]
                    == map_of(e).insert(k, m)[q] by {
                    let i = choose|i: int| 0 <= i < d.len() && (#[trigger] d[i]).0@ == q;
                    lemma_model_at(d, i);
                    assert(e[i].0@ == keys_of(e)[i] && d[i].0@ == keys_of(d)[i]);
                    lemma_model_at(e, i);
                    if q != k {
                        assert(i != at);
                    }
                }
                assert(map_of(d) =~= map_of(e).insert(k, m));
            }
        } else {
            self.entries.insert(at, (key, model));
            let ghost d = self.entries@;
            proof {
                if at < e.len() {
                    lemma_precedes_total(e[at as int].0@, k);
                }
                assert forall|i: int| at <= i < e.len() implies precedes(k, (#[trigger] e[i]).0@) by {
                    if i > at {
                        assert(precedes(keys_of(e)[at as int], keys_of(e)[i]));
                        lemma_precedes_transitive(k, e[at as int].0@, e[i].0@);
                    }
                }
                let a = keys_of(d);
                assert forall|i: int, j: int| 0 <= i < j < a.len() implies precedes(
                    #[trigger] a[i],
                    #[trigger] a[j],
                ) by {
                    let p = if i < at { i } else { i - 1 };
                    let q = if j < at { j } else { j - 1 };
                    if i != at {
                        assert(d[i] == e[p]);
                    }
                    if j != at {
                        assert(d[j] == e[q]);
                    }
                    if i != at && j != at {
                        assert(precedes(keys_of(e)[p], keys_of(e)[q]));
                    }
                }
                assert(ascending(a));
                assert(d[at as int].0@ == k);
                lemma_model_at(d, at as int);
                assert forall|q: Seq<char>| #[trigger] map_of(d).contains_key(q) <==> map_of(e).insert(
                    k,
                    m,
                ).contains_key(q) by {
                    if has_key(d, q) {
                        let i = choose|i: int| 0 <= i < d.len() && (#[trigger] d[i]).0@ == q;
                        if i != at {
                            let p = if i < at { i } else { i - 1 };
                            assert(d[i] == e[p]);
                        }
                    }
                    if has_key(e, q) {
                        let i = choose|i: int| 0 <= i < e.len() && (#[trigger] e[i]).0@ == q;
                        let p = if i < at { i } else { i + 1 };
                        assert(d[p] == e[i]);
                    }
                }
                assert forall|q: Seq<char>| #[trigger] map_of(d).contains_key(q) implies map_of(d)[q]
                    == map_of(e).insert(k, m)[q] by {
                    let i = choose|i: int| 0 <= i < d.len() && (#[trigger] d[i]).0@ == q;
                    lemma_model_at(d, i);
                    if i != at {
                        let p = if i < at { i } else { i - 1 };
                        assert(d[i] == e[p]);
                        lemma_model_at(e, p);
                        lemma_precedes_irreflexive(k);
                    }
                }
                assert(map_of(d) =~= map_of(e).insert(k, m));
            }
        }
    }

    /// The model at the key.
    pub fn get(&self, key: &str) -> (r: Option<&AnyModel>)
        requires
            self.wf(),
        ensures
            match r {
                Some(m) => self@.contains_key(key@) && self@[key@] == m@,
                None => !self@.contains_key(key@),
            },
    {
        let at = self.place_of(key);
        if at < self.entries.len() && same(self.entries[at].0.as_str(), key) {
            proof {
                lemma_model_at(self.entries@, at as int);
            }
            Some(&self.entries[at].1)
        } else {
            proof {
                let e = self.entries@;
                if has_key(e, key@) {
                    let i = choose|i: int| 0 <= i < e.len() && (#[trigger] e[i]).0@ == key@;
                    lemma_precedes_irreflexive(key@);
                    assert(i >= at);
                    if i > at {
                        assert(precedes(keys_of(e)[at as int], keys_of(e)[i]));
                    }
                }
            }
            None
        }
    }

    /// How many keys there are.
    pub fn len(&self) -> (n: usize)
        requires
            self.wf(),
        ensures
            n == ordered_keys(self@).len(),
    {
        proof {
            self.lemma_lists();
        }
        self.entries.len()
    }

    /// The `i`-th key in ascending order, and the model there.
    pub fn entry(&self, i: usize) -> (r: (&String, &AnyModel))
        requires
            self.wf(),
            i < ordered_keys(self@).len(),
        ensures
            r.0@ == ordered_keys(self@)[i as int],
            self@.contains_key(r.0@),
            r.1@ == self@[r.0@],
    {
        proof {
            self.lemma_lists();
            lemma_model_at(self.entries@, i as int);
        }
        (&self.entries[i].0, &self.entries[i].1)
    }

    /// The keys in ascending order.
    pub fn keys(&self) -> (r: Vec<String>)
        requires
            self.wf(),
        ensures
            texts_of(r@) == ordered_keys(self@),
            lists_keys(texts_of(r@), self@),
    {
        proof {
            self.lemma_lists();
        }
        let mut r: Vec<String> = Vec::new();
        let mut i: usize = 0;
        while i < self.entries.len()
            invariant
                i <= self.entries.len(),
                texts_of(r@) =~= keys_of(self.entries@).take(i as int),
            decreases self.entries.len() - i,
        {
            let ghost before = texts_of(r@);
            let ghost all = keys_of(self.entries@);
            r.push(self.entries[i].0.clone());
            assert(texts_of(r@) =~= before.push(all[i as int]));
            assert(all.take(i + 1) =~= all.take(i as int).push(all[i as int]));
            i = i + 1;
        }
        assert(texts_of(r@) =~= keys_of(self.entries@));
        r
    }
}

/// The keys of a map come in the order of texts, each once, and all of them.
pub proof fn keys_come_in_order(keys: Seq<Seq<char>>, m: Map<Seq<char>, AnyModelView>, i: int, j: int)
    requires
        lists_keys(keys, m),
        0 <= i < j < keys.len(),
    ensures
        precedes(keys[i], keys[j]),
        keys[i] != keys[j],
        m.contains_key(keys[i]),
        forall|k: Seq<char>| #[trigger] m.contains_key(k) ==> keys.contains(k),
{
    lemma_precedes_irreflexive(keys[i]);
    assert(keys.contains(keys[i]));
}

} // verus!
