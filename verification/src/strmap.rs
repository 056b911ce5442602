//! `StrMap`: a map from text keys to text values that remembers the order in
//! which keys were first inserted.  Its view is a `Map<Seq<char>, Seq<char>>`.

use vstd::prelude::*;
use vstd::std_specs::cmp::PartialEqSpecImpl;
use crate::text::{lex_lt, lemma_lex_irrefl, lemma_lex_total, lemma_lex_trans, str_eq, str_lt};

verus! {

broadcast use vstd::string::group_string_axioms;

/// A key/value pair of texts.
pub type Pair = (Seq<char>, Seq<char>);

/// The views of a key and its value.
pub open spec fn pair_view<V: View>(p: (String, V)) -> (Seq<char>, V::V) {
    (p.0@, p.1@)
}

/// The views of a sequence of keyed values.
pub open spec fn pairs_of<V: View>(v: Seq<(String, V)>) -> Seq<(Seq<char>, V::V)> {
    v.map_values(|p: (String, V)| pair_view(p))
}

/// No key occurs twice.
pub open spec fn distinct_keys<W>(p: Seq<(Seq<char>, W)>) -> bool {
    forall|i: int, j: int| 0 <= i < j < p.len() ==> (#[trigger] p[i]).0 != (#[trigger] p[j]).0
}

/// Some pair has key `k`.
pub open spec fn has_key<W>(p: Seq<(Seq<char>, W)>, k: Seq<char>) -> bool {
    exists|i: int| 0 <= i < p.len() && (#[trigger] p[i]).0 == k
}

/// The map of a sequence of pairs (later pairs win).
pub open spec fn pairs_map<W>(p: Seq<(Seq<char>, W)>) -> Map<Seq<char>, W>
    decreases p.len(),
{
    if p.len() == 0 {
        Map::empty()
    } else {
        pairs_map(p.drop_last()).insert(p.last().0, p.last().1)
    }
}

/// Keys strictly increasing.
pub open spec fn keys_sorted(p: Seq<Pair>) -> bool {
    forall|i: int, j: int| 0 <= i < j < p.len() ==> lex_lt((#[trigger] p[i]).0, (#[trigger] p[j]).0)
}

/// What the map of a sequence of pairs with distinct keys holds.
pub proof fn lemma_pairs_map<W>(p: Seq<(Seq<char>, W)>)
    requires
        distinct_keys(p),
    ensures
        forall|k: Seq<char>| #[trigger] pairs_map(p).contains_key(k) <==> has_key(p, k),
        forall|i: int| 0 <= i < p.len() ==> pairs_map(p)[(#[trigger] p[i]).0] == p[i].1,
        pairs_map(p).dom().finite(),
        pairs_map(p).len() == p.len(),
    decreases p.len(),
{
    broadcast use vstd::set::group_set_axioms;
    if p.len() > 0 {
        let q = p.drop_last();
        assert(distinct_keys(q)) by {
            assert forall|i: int, j: int| 0 <= i < j < q.len() implies (#[trigger] q[i]).0 != (
            #[trigger] q[j]).0 by {
                assert(q[i] == p[i]);
                assert(q[j] == p[j]);
            }
        }
        lemma_pairs_map(q);
        let last = p.last();
        assert(!has_key(q, last.0)) by {
            if has_key(q, last.0) {
                let i = choose|i: int| 0 <= i < q.len() && (#[trigger] q[i]).0 == last.0;
                assert(p[i] == q[i]);
                assert(p[p.len() - 1] == last);
            }
        }
        assert forall|k: Seq<char>| #[trigger] pairs_map(p).contains_key(k) <==> has_key(p, k) by {
            if has_key(q, k) {
                let i = choose|i: int| 0 <= i < q.len() && (#[trigger] q[i]).0 == k;
                assert(p[i] == q[i]);
            }
            if has_key(p, k) && k != last.0 {
                let i = choose|i: int| 0 <= i < p.len() && (#[trigger] p[i]).0 == k;
                assert(i < p.len() - 1);
                assert(q[i] == p[i]);
            }
            if k == last.0 {
                assert(p[p.len() - 1] == last);
            }
        }
        assert forall|i: int| 0 <= i < p.len() implies pairs_map(p)[(#[trigger] p[i]).0] == p[i].1 by {
            if i < p.len() - 1 {
                assert(q[i] == p[i]);
                assert(p[i].0 != last.0);
            }
        }
        assert(pairs_map(q).dom().insert(last.0) =~= pairs_map(p).dom());
    } else {
        assert(pairs_map(p).dom() =~= Set::<Seq<char>>::empty());
    }
}

/// Two sequences of pairs with distinct keys and the same pairs (in any
/// order) have the same map.
pub proof fn lemma_pairs_map_same_elements<W>(p: Seq<(Seq<char>, W)>, q: Seq<(Seq<char>, W)>)
    requires
        distinct_keys(p),
        distinct_keys(q),
        forall|i: int| 0 <= i < p.len() ==> q.contains(#[trigger] p[i]),
        forall|i: int| 0 <= i < q.len() ==> p.contains(#[trigger] q[i]),
    ensures
        pairs_map(p) == pairs_map(q),
{
    lemma_pairs_map(p);
    lemma_pairs_map(q);
    assert forall|k: Seq<char>| #[trigger] pairs_map(p).contains_key(k) <==> pairs_map(
        q,
    ).contains_key(k) by {
        if has_key(p, k) {
            let i = choose|i: int| 0 <= i < p.len() && (#[trigger] p[i]).0 == k;
            let j = choose|j: int| 0 <= j < q.len() && q[j] == p[i];
            assert(q[j].0 == k);
        }
        if has_key(q, k) {
            let i = choose|i: int| 0 <= i < q.len() && (#[trigger] q[i]).0 == k;
            let j = choose|j: int| 0 <= j < p.len() && p[j] == q[i];
            assert(p[j].0 == k);
        }
    }
    assert forall|k: Seq<char>| pairs_map(p).contains_key(k) implies pairs_map(p)[k] == pairs_map(
        q,
    )[k] by {
        let i = choose|i: int| 0 <= i < p.len() && (#[trigger] p[i]).0 == k;
        let j = choose|j: int| 0 <= j < q.len() && q[j] == p[i];
        assert(pairs_map(q)[q[j].0] == q[j].1);
    }
    assert(pairs_map(p) =~= pairs_map(q));
}

/// A map from text keys to values, in first-insertion order.
#[derive(Debug)]
pub struct KeyMap<V: View> {
    entries: Vec<(String, V)>,
}

/// A map from text keys to text values, in first-insertion order.
pub type StrMap = KeyMap<String>;

impl<V: View> KeyMap<V> {
    /// The keys and value views in order.
    pub closed spec fn pairs(self) -> Seq<(Seq<char>, V::V)> {
        pairs_of(self.entries@)
    }

    #[verifier::type_invariant]
    closed spec fn keys_distinct(self) -> bool {
        distinct_keys(self.pairs())
    }
}

impl<V: View> View for KeyMap<V> {
    type V = Map<Seq<char>, V::V>;

    open spec fn view(&self) -> Map<Seq<char>, V::V> {
        pairs_map(self.pairs())
    }
}

impl<V: View> KeyMap<V> {
    /// An empty map.
    pub fn new() -> (m: Self)
        ensures
            m.pairs() == Seq::<(Seq<char>, V::V)>::empty(),
            m@ == Map::<Seq<char>, V::V>::empty(),
    {
        let m = KeyMap { entries: Vec::new() };
        assert(m.pairs() =~= Seq::<(Seq<char>, V::V)>::empty());
        m
    }

    /// The pairs have distinct keys and make up the view.
    pub fn check(&self)
        ensures
            distinct_keys(self.pairs()),
            forall|k: Seq<char>| #[trigger] self@.contains_key(k) <==> has_key(self.pairs(), k),
            forall|i: int|
                0 <= i < self.pairs().len() ==> self@[(#[trigger] self.pairs()[i]).0]
                    == self.pairs()[i].1,
            self@.dom().finite(),
            self@.len() == self.pairs().len(),
    {
        proof {
            use_type_invariant(self);
            lemma_pairs_map(self.pairs());
        }
    }

    /// Number of key-value pairs.
    pub fn len(&self) -> (n: usize)
        ensures
            n == self@.len(),
            n == self.pairs().len(),
            distinct_keys(self.pairs()),
    {
        self.check();
        self.entries.len()
    }

    /// Whether the map is empty.
    pub fn is_empty(&self) -> (r: bool)
        ensures
            r == (self@.len() == 0),
            r == (self.pairs().len() == 0),
    {
        self.len() == 0
    }

    /// The position of `key`.
    fn find(&self, key: &str) -> (r: Option<usize>)
        ensures
            match r {
                Some(i) => i < self.pairs().len() && self.pairs()[i as int].0 == key@,
                None => !has_key(self.pairs(), key@),
            },
    {
        let mut i: usize = 0;
        while i < self.entries.len()
            invariant
                i <= self.entries.len(),
                forall|j: int| 0 <= j < i ==> (#[trigger] self.pairs()[j]).0 != key@,
            decreases self.entries.len() - i,
        {
            if str_eq(self.entries[i].0.as_str(), key) {
                assert(self.pairs()[i as int] == pair_view(self.entries@[i as int]));
                return Some(i);
            }
            assert(self.pairs()[i as int] == pair_view(self.entries@[i as int]));
            i += 1;
        }
        None
    }

    /// The key at position `i`.
    pub fn key_at(&self, i: usize) -> (k: &String)
        requires
            i < self.pairs().len(),
        ensures
            k@ == self.pairs()[i as int].0,
    {
        assert(self.pairs()[i as int] == pair_view(self.entries@[i as int]));
        &self.entries[i].0
    }

    /// The value at position `i`.
    pub fn value_at(&self, i: usize) -> (v: &V)
        requires
            i < self.pairs().len(),
        ensures
            v@ == self.pairs()[i as int].1,
    {
        assert(self.pairs()[i as int] == pair_view(self.entries@[i as int]));
        &self.entries[i].1
    }

    /// The value for `key`.
    pub fn get(&self, key: &str) -> (r: Option<&V>)
        ensures
            r is Some == self@.contains_key(key@),
            r matches Some(v) ==> v@ == self@[key@],
    {
        self.check();
        match self.find(key) {
            Some(i) => Some(self.value_at(i)),
            None => None,
        }
    }

    /// Whether `key` is present.
    pub fn contains_key(&self, key: &str) -> (r: bool)
        ensures
            r == self@.contains_key(key@),
    {
        self.get(key).is_some()
    }

    /// Insert or replace the value for `key`, returning the previous value.
    /// A new key goes last; a present key keeps its place.
    pub fn insert(&mut self, key: String, value: V) -> (r: Option<V>)
        ensures
            final(self)@ == old(self)@.insert(key@, value@),
            r is Some == old(self)@.contains_key(key@),
            r matches Some(v) ==> v@ == old(self)@[key@],
            !has_key(old(self).pairs(), key@) ==> final(self).pairs() == old(self).pairs().push(
                (key@, value@),
            ),
            forall|i: int|
                0 <= i < old(self).pairs().len() && (#[trigger] old(self).pairs()[i]).0 == key@
                    ==> final(self).pairs() == old(self).pairs().update(i, (key@, value@)),
    {
        proof {
            use_type_invariant(&*self);
            lemma_pairs_map(self.pairs());
        }
        let ghost old_pairs = self.pairs();
        let found = self.find(key.as_str());
        let mut entries: Vec<(String, V)> = Vec::new();
        std::mem::swap(&mut entries, &mut self.entries);
        assert(pairs_of(entries@) == old_pairs);
        let ghost pm = pairs_map(old_pairs);
        match found {
            Some(i) => {
                let (k, old_v) = entries.remove(i);
                entries.insert(i, (k, value));
                let ghost new_pairs = pairs_of(entries@);
                assert(new_pairs =~= old_pairs.update(i as int, (key@, value@)));
                proof {
                    assert(distinct_keys(new_pairs)) by {
                        assert forall|a: int, b: int| 0 <= a < b < new_pairs.len() implies (
                        #[trigger] new_pairs[a]).0 != (#[trigger] new_pairs[b]).0 by {
                            assert(new_pairs[a].0 == old_pairs[a].0);
                            assert(new_pairs[b].0 == old_pairs[b].0);
                        }
                    }
                    lemma_pairs_map(new_pairs);
                    assert forall|k2: Seq<char>| #[trigger] pairs_map(new_pairs).contains_key(k2)
                        <==> pm.insert(key@, value@).contains_key(k2) by {
                        if has_key(old_pairs, k2) {
                            let j = choose|j: int| 0 <= j < old_pairs.len() && (#[trigger] old_pairs[j]).0 == k2;
                            assert(new_pairs[j].0 == k2);
                        }
                        if has_key(new_pairs, k2) {
                            let j = choose|j: int| 0 <= j < new_pairs.len() && (#[trigger] new_pairs[j]).0 == k2;
                            assert(old_pairs[j].0 == k2);
                        }
                    }
                    assert forall|k2: Seq<char>| #[trigger] pairs_map(new_pairs).contains_key(k2)
                        implies pairs_map(new_pairs)[k2] == pm.insert(key@, value@)[k2] by {
                        let j = choose|j: int| 0 <= j < new_pairs.len() && (#[trigger] new_pairs[j]).0 == k2;
                        if j != i {
                            assert(old_pairs[j] == new_pairs[j]);
                        }
                    }
                    assert(pairs_map(new_pairs) =~= pm.insert(key@, value@));
                    assert forall|j: int|
                        0 <= j < old_pairs.len() && (#[trigger] old_pairs[j]).0 == key@ implies new_pairs
                        == old_pairs.update(j, (key@, value@)) by {
                        if j != i {
                            assert(old_pairs[i as int].0 == key@);
                        }
                    }
                }
                self.entries = entries;
                Some(old_v)
            },
            None => {
                entries.push((key, value));
                let ghost new_pairs = pairs_of(entries@);
                assert(new_pairs =~= old_pairs.push((key@, value@)));
                assert(distinct_keys(new_pairs)) by {
                    assert forall|a: int, b: int| 0 <= a < b < new_pairs.len() implies (
                    #[trigger] new_pairs[a]).0 != (#[trigger] new_pairs[b]).0 by {
                        if b == old_pairs.len() {
                            assert(new_pairs[a] == old_pairs[a]);
                            assert(old_pairs[a].0 != key@);
                        } else {
                            assert(new_pairs[a] == old_pairs[a]);
                            assert(new_pairs[b] == old_pairs[b]);
                        }
                    }
                }
                assert(new_pairs.drop_last() =~= old_pairs);
                self.entries = entries;
                None
            },
        }
    }

    /// Insert or replace the value for `key` (given as `&str`).
    pub fn set(&mut self, key: &str, value: V)
        ensures
            final(self)@ == old(self)@.insert(key@, value@),
            !has_key(old(self).pairs(), key@) ==> final(self).pairs() == old(self).pairs().push(
                (key@, value@),
            ),
    {
        let k = key.to_string();
        let _ = self.insert(k, value);
    }

    /// Remove `key`, returning its value.  The other pairs keep their order.
    pub fn remove(&mut self, key: &str) -> (r: Option<V>)
        ensures
            final(self)@ == old(self)@.remove(key@),
            r is Some == old(self)@.contains_key(key@),
            r matches Some(v) ==> v@ == old(self)@[key@],
    {
        proof {
            use_type_invariant(&*self);
            lemma_pairs_map(self.pairs());
        }
        let ghost old_pairs = self.pairs();
        let ghost pm = pairs_map(old_pairs);
        match self.find(key) {
            None => {
                assert(pm.remove(key@) =~= pm);
                None
            },
            Some(i) => {
                let mut entries: Vec<(String, V)> = Vec::new();
                std::mem::swap(&mut entries, &mut self.entries);
                let (_k, v) = entries.remove(i);
                let ghost new_pairs = pairs_of(entries@);
                assert(new_pairs =~= old_pairs.remove(i as int));
                proof {
                    assert(distinct_keys(new_pairs)) by {
                        assert forall|a: int, b: int| 0 <= a < b < new_pairs.len() implies (
                        #[trigger] new_pairs[a]).0 != (#[trigger] new_pairs[b]).0 by {
                            let a2 = if a < i { a } else { a + 1 };
                            let b2 = if b < i { b } else { b + 1 };
                            assert(new_pairs[a] == old_pairs[a2]);
                            assert(new_pairs[b] == old_pairs[b2]);
                        }
                    }
                    lemma_pairs_map(new_pairs);
                    assert forall|k2: Seq<char>| #[trigger] pairs_map(new_pairs).contains_key(k2)
                        <==> pm.remove(key@).contains_key(k2) by {
                        if has_key(old_pairs, k2) && k2 != key@ {
                            let j = choose|j: int| 0 <= j < old_pairs.len() && (#[trigger] old_pairs[j]).0 == k2;
                            let j2 = if j < i { j } else { j - 1 };
                            assert(j != i);
                            assert(new_pairs[j2] == old_pairs[j]);
                        }
                        if has_key(new_pairs, k2) {
                            let j = choose|j: int| 0 <= j < new_pairs.len() && (#[trigger] new_pairs[j]).0 == k2;
                            let j2 = if j < i { j } else { j + 1 };
                            assert(new_pairs[j] == old_pairs[j2]);
                            assert(j2 != i);
                        }
                    }
                    assert forall|k2: Seq<char>| #[trigger] pairs_map(new_pairs).contains_key(k2)
                        implies pairs_map(new_pairs)[k2] == pm.remove(key@)[k2] by {
                        let j = choose|j: int| 0 <= j < new_pairs.len() && (#[trigger] new_pairs[j]).0 == k2;
                        let j2 = if j < i { j } else { j + 1 };
                        assert(new_pairs[j] == old_pairs[j2]);
                    }
                    assert(pairs_map(new_pairs) =~= pm.remove(key@));
                }
                self.entries = entries;
                Some(v)
            },
        }
    }

    /// All keys, in order.
    pub fn keys(&self) -> (r: Vec<String>)
        ensures
            r.len() == self.pairs().len(),
            forall|i: int| 0 <= i < r.len() ==> (#[trigger] r[i])@ == self.pairs()[i].0,
    {
        let mut out: Vec<String> = Vec::new();
        let mut i: usize = 0;
        while i < self.entries.len()
            invariant
                i <= self.entries.len(),
                out.len() == i,
                forall|j: int| 0 <= j < i ==> (#[trigger] out[j])@ == self.pairs()[j].0,
            decreases self.entries.len() - i,
        {
            assert(self.pairs()[i as int] == pair_view(self.entries@[i as int]));
            out.push(self.entries[i].0.clone());
            i += 1;
        }
        out
    }

}

impl KeyMap<String> {
    /// The value for `key` as a `&str`.
    pub fn get_str(&self, key: &str) -> (r: Option<&str>)
        ensures
            r is Some == self@.contains_key(key@),
            r matches Some(v) ==> v@ == self@[key@],
    {
        match self.get(key) {
            Some(v) => Some(v.as_str()),
            None => None,
        }
    }

    /// A copy holding the same pairs in the same order.
    pub fn copy(&self) -> (r: Self)
        ensures
            r.pairs() == self.pairs(),
            r@ == self@,
    {
        proof {
            use_type_invariant(self);
        }
        let mut entries: Vec<(String, String)> = Vec::new();
        let mut i: usize = 0;
        while i < self.entries.len()
            invariant
                i <= self.entries.len(),
                pairs_of(entries@) == self.pairs().take(i as int),
            decreases self.entries.len() - i,
        {
            assert(self.pairs()[i as int] == pair_view(self.entries@[i as int]));
            let k = self.entries[i].0.clone();
            let v = self.entries[i].1.clone();
            let ghost prev = entries@;
            assert(k@ == self.pairs()[i as int].0 && v@ == self.pairs()[i as int].1);
            entries.push((k, v));
            assert(pairs_of(entries@) =~= pairs_of(prev).push(self.pairs()[i as int]));
            assert(self.pairs().take(i + 1) =~= self.pairs().take(i as int).push(self.pairs()[i as int]));
            i += 1;
        }
        assert(self.pairs().take(i as int) =~= self.pairs());
        KeyMap { entries }
    }

    /// The pairs ordered by key.
    pub fn sorted_pairs(&self) -> (r: Vec<(String, String)>)
        ensures
            keys_sorted(pairs_of(r@)),
            distinct_keys(pairs_of(r@)),
            pairs_map(pairs_of(r@)) == self@,
            r.len() == self.pairs().len(),
    {
        proof {
            use_type_invariant(self);
        }
        let ghost src = self.pairs();
        let mut out: Vec<(String, String)> = Vec::new();
        let mut i: usize = 0;
        while i < self.entries.len()
            invariant
                i <= self.entries.len(),
                src == self.pairs(),
                distinct_keys(src),
                keys_sorted(pairs_of(out@)),
                out.len() == i,
                forall|a: int| 0 <= a < out.len() ==> src.take(i as int).contains(#[trigger] pairs_of(out@)[a]),
                forall|a: int| 0 <= a < i ==> pairs_of(out@).contains(#[trigger] src[a]),
            decreases self.entries.len() - i,
        {
            let ghost o = pairs_of(out@);
            let k = self.entries[i].0.clone();
            let v = self.entries[i].1.clone();
            assert(src[i as int] == pair_view(self.entries@[i as int]));
            // position: first element whose key sorts after `k`
            let mut pos: usize = 0;
            while pos < out.len() && str_lt(out[pos].0.as_str(), k.as_str())
                invariant
                    pos <= out.len(),
                    o == pairs_of(out@),
                    forall|a: int| 0 <= a < pos ==> lex_lt((#[trigger] o[a]).0, k@),
                decreases out.len() - pos,
            {
                assert(o[pos as int] == pair_view(out@[pos as int]));
                pos += 1;
            }
            proof {
                // k differs from every key already placed
                assert forall|a: int| 0 <= a < o.len() implies (#[trigger] o[a]).0 != k@ by {
                    let b = choose|b: int| 0 <= b < i && src.take(i as int)[b] == o[a];
                    assert(src[b] == o[a]);
                }
                if pos < out.len() {
                    assert(o[pos as int] == pair_view(out@[pos as int]));
                    lemma_lex_total(o[pos as int].0, k@);
                }
            }
            out.insert(pos, (k, v));
            let ghost n = pairs_of(out@);
            assert(n =~= o.insert(pos as int, src[i as int]));
            proof {
                assert forall|a: int, b: int| 0 <= a < b < n.len() implies lex_lt(
                    (#[trigger] n[a]).0,
                    (#[trigger] n[b]).0,
                ) by {
                    if b < pos {
                        assert(n[a] == o[a] && n[b] == o[b]);
                    } else if b == pos {
                        assert(n[a] == o[a]);
                    } else if a < pos {
                        assert(n[a] == o[a] && n[b] == o[b - 1]);
                        if pos < o.len() {
                            assert(lex_lt(k@, o[pos as int].0));
                            if b - 1 > pos {
                                lemma_lex_trans(k@, o[pos as int].0, o[b - 1].0);
                            }
                            lemma_lex_trans(o[a].0, k@, o[b - 1].0);
                        }
                    } else if a == pos {
                        assert(n[b] == o[b - 1]);
                        assert(lex_lt(k@, o[pos as int].0));
                        if b - 1 > pos {
                            lemma_lex_trans(k@, o[pos as int].0, o[b - 1].0);
                        }
                    } else {
                        assert(n[a] == o[a - 1] && n[b] == o[b - 1]);
                    }
                }
                assert forall|a: int| 0 <= a < n.len() implies src.take(i + 1).contains(#[trigger] n[a]) by {
                    if a < pos {
                        assert(n[a] == o[a]);
                        let b = choose|b: int| 0 <= b < i && src.take(i as int)[b] == o[a];
                        assert(src.take(i + 1)[b] == o[a]);
                    } else if a == pos {
                        assert(src.take(i + 1)[i as int] == src[i as int]);
                    } else {
                        assert(n[a] == o[a - 1]);
                        let b = choose|b: int| 0 <= b < i && src.take(i as int)[b] == o[a - 1];
                        assert(src.take(i + 1)[b] == o[a - 1]);
                    }
                }
                assert forall|a: int| 0 <= a < i + 1 implies n.contains(#[trigger] src[a]) by {
                    if a == i {
                        assert(n[pos as int] == src[a]);
                    } else {
                        let b = choose|b: int| 0 <= b < o.len() && o[b] == src[a];
                        if b < pos {
                            assert(n[b] == o[b]);
                        } else {
                            assert(n[b + 1] == o[b]);
                        }
                    }
                }
            }
            i += 1;
        }
        proof {
            let r = pairs_of(out@);
            assert(src.take(i as int) =~= src);
            assert(distinct_keys(r)) by {
                assert forall|a: int, b: int| 0 <= a < b < r.len() implies (#[trigger] r[a]).0 != (
                #[trigger] r[b]).0 by {
                    if r[a].0 == r[b].0 {
                        lemma_lex_irrefl(r[a].0);
                    }
                }
            }
            lemma_pairs_map_same_elements(r, src);
        }
        out
    }
}

impl Clone for StrMap {
    fn clone(&self) -> (r: Self)
        ensures
            r@ == self@,
    {
        self.copy()
    }
}

impl PartialEq for StrMap {
    fn eq(&self, other: &Self) -> (r: bool) {
        self.check();
        other.check();
        if self.len() != other.len() {
            return false;
        }
        let mut i: usize = 0;
        while i < self.entries.len()
            invariant
                i <= self.entries.len(),
                self.entries.len() == self.pairs().len(),
                self@.len() == other@.len(),
                distinct_keys(self.pairs()),
                self@.dom().finite(),
                other@.dom().finite(),
                forall|k: Seq<char>| #[trigger] self@.contains_key(k) <==> has_key(self.pairs(), k),
                forall|j: int|
                    0 <= j < self.pairs().len() ==> self@[(#[trigger] self.pairs()[j]).0]
                        == self.pairs()[j].1,
                forall|j: int|
                    0 <= j < i ==> other@.contains_key((#[trigger] self.pairs()[j]).0) && other@[self.pairs()[j].0]
                        == self.pairs()[j].1,
            decreases self.entries.len() - i,
        {
            assert(self.pairs()[i as int] == pair_view(self.entries@[i as int]));
            match other.get(self.entries[i].0.as_str()) {
                Some(v) => {
                    if !str_eq(v.as_str(), self.entries[i].1.as_str()) {
                        return false;
                    }
                },
                None => {
                    return false;
                },
            }
            i += 1;
        }
        proof {
            assert(self@.dom().subset_of(other@.dom())) by {
                assert forall|k: Seq<char>| self@.dom().contains(k) implies other@.dom().contains(k) by {
                    assert(self@.contains_key(k));
                    let j = choose|j: int| 0 <= j < self.pairs().len() && (#[trigger] self.pairs()[j]).0 == k;
                }
            }
            vstd::set_lib::lemma_subset_equality(self@.dom(), other@.dom());
            assert forall|k: Seq<char>| self@.contains_key(k) implies self@[k] == other@[k] by {
                let j = choose|j: int| 0 <= j < self.pairs().len() && (#[trigger] self.pairs()[j]).0 == k;
            }
            assert(self@ =~= other@);
        }
        true
    }
}

impl PartialEqSpecImpl for StrMap {
    open spec fn obeys_eq_spec() -> bool {
        true
    }

    open spec fn eq_spec(&self, other: &StrMap) -> bool {
        self@ == other@
    }
}

} // verus!
