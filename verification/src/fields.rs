//! The fields of an entry that have no place of their own: a mapping from
//! key to value that is kept in the order of its keys.

use crate::json::{json_object_text, object_literal, EncodingError};
use crate::text::{lemma_text_lt_order, str_eq, str_lt, text_lt};
use vstd::prelude::*;
use vstd::string::*;

verus! {

/// The keys and values of `v`, each as the sequence of its characters.
pub open spec fn pair_views(v: Seq<(String, String)>) -> Seq<(Seq<char>, Seq<char>)> {
    Seq::new(v.len(), |i: int| (v[i].0@, v[i].1@))
}

/// The value that the last pair with key `key` gives it, if there is such a pair.
pub open spec fn last_value(pairs: Seq<(Seq<char>, Seq<char>)>, key: Seq<char>) -> Option<
    Seq<char>,
>
    decreases pairs.len(),
{
    if pairs.len() == 0 {
        None
    } else if pairs.last().0 == key {
        Some(pairs.last().1)
    } else {
        last_value(pairs.drop_last(), key)
    }
}

/// Whether the keys of `s` grow strictly from each pair to every later one.
pub open spec fn strictly_sorted(s: Seq<(Seq<char>, Seq<char>)>) -> bool {
    forall|i: int, j: int| 0 <= i < j < s.len() ==> text_lt(#[trigger] s[i].0, #[trigger] s[j].0)
}

/// The number of pairs at the head of `s` whose keys come before `key`.
pub open spec fn rank(s: Seq<(Seq<char>, Seq<char>)>, key: Seq<char>) -> int
    decreases s.len(),
{
    if s.len() == 0 {
        0
    } else if text_lt(s[0].0, key) {
        1 + rank(s.drop_first(), key)
    } else {
        0
    }
}

/// The sorted sequence `s` once `key` stands for `value`: the pair takes the
/// place of the one with that key, or its place in the order where there is none.
pub open spec fn put(s: Seq<(Seq<char>, Seq<char>)>, key: Seq<char>, value: Seq<char>) -> Seq<
    (Seq<char>, Seq<char>),
> {
    let p = rank(s, key);
    if p < s.len() && s[p].0 == key {
        s.update(p, (key, value))
    } else {
        s.insert(p, (key, value))
    }
}

/// What `rank` counts: it stops at the first key that does not come before `key`.
pub proof fn lemma_rank(s: Seq<(Seq<char>, Seq<char>)>, key: Seq<char>)
    ensures
        0 <= rank(s, key) <= s.len(),
        forall|j: int| 0 <= j < rank(s, key) ==> text_lt(#[trigger] s[j].0, key),
        rank(s, key) < s.len() ==> !text_lt(s[rank(s, key)].0, key),
    decreases s.len(),
{
    if s.len() > 0 && text_lt(s[0].0, key) {
        let t = s.drop_first();
        lemma_rank(t, key);
        assert forall|j: int| 0 <= j < rank(s, key) implies text_lt(#[trigger] s[j].0, key) by {
            if j > 0 {
                assert(s[j] == t[j - 1]);
            }
        }
        if rank(s, key) < s.len() {
            assert(s[rank(s, key)] == t[rank(t, key)]);
        }
    }
}

/// The place at which a scan from the head stops is the rank.
pub proof fn lemma_rank_is(s: Seq<(Seq<char>, Seq<char>)>, key: Seq<char>, i: int)
    requires
        0 <= i <= s.len(),
        forall|j: int| 0 <= j < i ==> text_lt(#[trigger] s[j].0, key),
        i < s.len() ==> !text_lt(s[i].0, key),
    ensures
        rank(s, key) == i,
{
    lemma_rank(s, key);
    let p = rank(s, key);
    if p < i {
        assert(text_lt(s[p].0, key));
    } else if i < p {
        assert(text_lt(s[i].0, key));
    }
}

/// Putting a key into a sorted sequence leaves it sorted, and changes what it
/// holds for that key only.
pub proof fn lemma_put(s: Seq<(Seq<char>, Seq<char>)>, key: Seq<char>, value: Seq<char>)
    requires
        strictly_sorted(s),
    ensures
        strictly_sorted(put(s, key, value)),
        forall|x: (Seq<char>, Seq<char>)| #[trigger]
            put(s, key, value).contains(x) <==> (x == (key, value) || (s.contains(x) && x.0
                != key)),
{
    lemma_rank(s, key);
    let p = rank(s, key);
    let t = put(s, key, value);
    let new = (key, value);
    // no key from `p` on comes before `key`, and only the one at `p` can be `key`
    assert forall|j: int| p <= j < s.len() implies !text_lt(#[trigger] s[j].0, key) && (j > p
        ==> s[j].0 != key) by {
        lemma_text_lt_order(s[p].0, s[j].0, key);
        lemma_text_lt_order(key, key, key);
        if j > p {
            assert(text_lt(s[p].0, s[j].0));
        }
    }
    assert forall|j: int| 0 <= j < p implies s[j].0 != key by {
        lemma_text_lt_order(key, key, key);
        assert(text_lt(s[j].0, key));
    }
    if p < s.len() && s[p].0 == key {
        assert forall|i: int, j: int| 0 <= i < j < t.len() implies text_lt(
            #[trigger] t[i].0,
            #[trigger] t[j].0,
        ) by {
            assert(t[i].0 == s[i].0);
            assert(t[j].0 == s[j].0);
        }
        assert forall|x: (Seq<char>, Seq<char>)| #[trigger]
            t.contains(x) <==> (x == new || (s.contains(x) && x.0 != key)) by {
            if t.contains(x) {
                let i = choose|i: int| 0 <= i < t.len() && t[i] == x;
                if i != p {
                    assert(s[i] == x);
                }
            }
            if x == new {
                assert(t[p] == x);
            }
            if s.contains(x) && x.0 != key {
                let i = choose|i: int| 0 <= i < s.len() && s[i] == x;
                assert(t[i] == x);
            }
        }
    } else {
        assert forall|j: int| p <= j < s.len() implies text_lt(key, #[trigger] s[j].0) by {
            lemma_text_lt_order(key, s[j].0, key);
        }
        assert forall|i: int, j: int| 0 <= i < j < t.len() implies text_lt(
            #[trigger] t[i].0,
            #[trigger] t[j].0,
        ) by {
            if j < p {
                assert(t[i] == s[i] && t[j] == s[j]);
            } else if j == p {
                assert(t[i] == s[i]);
                assert(text_lt(s[i].0, key));
            } else if i < p {
                assert(t[i] == s[i] && t[j] == s[j - 1]);
                if i == j - 1 {
                } else {
                    assert(text_lt(s[i].0, s[j - 1].0));
                }
                assert(text_lt(s[i].0, key));
                assert(text_lt(key, s[j - 1].0));
                lemma_text_lt_order(s[i].0, key, s[j - 1].0);
            } else if i == p {
                assert(t[j] == s[j - 1]);
                assert(text_lt(key, s[j - 1].0));
            } else {
                assert(t[i] == s[i - 1] && t[j] == s[j - 1]);
            }
        }
        assert forall|x: (Seq<char>, Seq<char>)| #[trigger]
            t.contains(x) <==> (x == new || (s.contains(x) && x.0 != key)) by {
            if t.contains(x) {
                let i = choose|i: int| 0 <= i < t.len() && t[i] == x;
                if i < p {
                    assert(s[i] == x);
                } else if i > p {
                    assert(s[i - 1] == x);
                }
            }
            if x == new {
                assert(t[p] == x);
            }
            if s.contains(x) && x.0 != key {
                let i = choose|i: int| 0 <= i < s.len() && s[i] == x;
                if i < p {
                    assert(t[i] == x);
                } else {
                    assert(t[i + 1] == x);
                }
            }
        }
    }
}

/// A sorted sequence is known by what it holds: two of them with the same
/// pairs are the same sequence.
pub proof fn lemma_sorted_unique(s: Seq<(Seq<char>, Seq<char>)>, t: Seq<(Seq<char>, Seq<char>)>)
    requires
        strictly_sorted(s),
        strictly_sorted(t),
        forall|x: (Seq<char>, Seq<char>)| s.contains(x) <==> t.contains(x),
    ensures
        s == t,
    decreases s.len(),
{
    if s.len() == 0 {
        if t.len() > 0 {
            assert(t.contains(t[0]));
        }
        assert(s =~= t);
    } else if t.len() == 0 {
        assert(s.contains(s[0]));
    } else {
        assert(s.contains(s[0]));
        assert(t.contains(t[0]));
        let j = choose|j: int| 0 <= j < t.len() && t[j] == s[0];
        let i = choose|i: int| 0 <= i < s.len() && s[i] == t[0];
        lemma_text_lt_order(s[0].0, t[0].0, s[0].0);
        if i > 0 {
            assert(text_lt(s[0].0, s[i].0));
        }
        if j > 0 {
            assert(text_lt(t[0].0, t[j].0));
        }
        assert(s[0] == t[0]);
        let s1 = s.drop_first();
        let t1 = t.drop_first();
        assert forall|x: (Seq<char>, Seq<char>)| s1.contains(x) <==> t1.contains(x) by {
            lemma_text_lt_order(x.0, x.0, x.0);
            if s1.contains(x) {
                let a = choose|a: int| 0 <= a < s1.len() && s1[a] == x;
                assert(s[a + 1] == x);
                assert(text_lt(s[0].0, s[a + 1].0));
                assert(t.contains(x));
                let b = choose|b: int| 0 <= b < t.len() && t[b] == x;
                assert(b != 0);
                assert(t1[b - 1] == x);
            }
            if t1.contains(x) {
                let b = choose|b: int| 0 <= b < t1.len() && t1[b] == x;
                assert(t[b + 1] == x);
                assert(text_lt(t[0].0, t[b + 1].0));
                assert(s.contains(x));
                let a = choose|a: int| 0 <= a < s.len() && s[a] == x;
                assert(a != 0);
                assert(s1[a - 1] == x);
            }
        }
        assert forall|a: int, b: int| 0 <= a < b < s1.len() implies text_lt(
            #[trigger] s1[a].0,
            #[trigger] s1[b].0,
        ) by {
            assert(s1[a] == s[a + 1] && s1[b] == s[b + 1]);
        }
        assert forall|a: int, b: int| 0 <= a < b < t1.len() implies text_lt(
            #[trigger] t1[a].0,
            #[trigger] t1[b].0,
        ) by {
            assert(t1[a] == t[a + 1] && t1[b] == t[b + 1]);
        }
        lemma_sorted_unique(s1, t1);
        assert(s =~= seq![s[0]] + s1);
        assert(t =~= seq![t[0]] + t1);
    }
}

/// A mapping from key to value, held in the order of its keys. No key occurs
/// twice.
#[derive(Debug)]
pub struct Fields {
    pairs: Vec<(String, String)>,
}

impl View for Fields {
    type V = Seq<(Seq<char>, Seq<char>)>;

    closed spec fn view(&self) -> Seq<(Seq<char>, Seq<char>)> {
        pair_views(self.pairs@)
    }
}

/// The place in `pairs` at which `key` stands or would be put.
fn position(pairs: &Vec<(String, String)>, key: &str) -> (i: usize)
    ensures
        i == rank(pair_views(pairs@), key@),
        i <= pairs@.len(),
{
    let n: usize = pairs.len();
    let mut i: usize = 0;
    while i < n && str_lt(pairs[i].0.as_str(), key)
        invariant
            n == pairs@.len(),
            i <= n,
            forall|j: int| 0 <= j < i ==> text_lt(#[trigger] pair_views(pairs@)[j].0, key@),
        decreases n - i,
    {
        i = i + 1;
    }
    proof {
        lemma_rank_is(pair_views(pairs@), key@, i as int);
    }
    i
}

impl Fields {
    #[verifier::type_invariant]
    spec fn sorted(&self) -> bool {
        strictly_sorted(pair_views(self.pairs@))
    }

    /// The empty mapping.
    pub fn new() -> (r: Fields)
        ensures
            r@ == Seq::<(Seq<char>, Seq<char>)>::empty(),
    {
        let r: Fields = Fields { pairs: Vec::new() };
        assert(r@ =~= Seq::empty());
        r
    }

    /// The number of keys.
    pub fn len(&self) -> (n: usize)
        ensures
            n == self@.len(),
            strictly_sorted(self@),
    {
        proof {
            use_type_invariant(self);
        }
        self.pairs.len()
    }

    /// The key and the value at place `i` in the order of the keys, where
    /// there are that many.
    pub fn get(&self, i: usize) -> (r: Option<(&str, &str)>)
        ensures
            match r {
                Some(pair) => i < self@.len() && (pair.0@, pair.1@) == self@[i as int],
                None => i >= self@.len(),
            },
    {
        if i < self.pairs.len() {
            Some((self.pairs[i].0.as_str(), self.pairs[i].1.as_str()))
        } else {
            None
        }
    }

    /// The mapping as a JSON object, with its keys in order.
    pub fn to_json(&self) -> (r: Result<String, EncodingError>)
        ensures
            match r {
                Ok(t) => json_object_text(self@) == Some(t@),
                Err(_) => json_object_text(self@) is None,
            },
    {
        proof {
            use_type_invariant(self);
        }
        match object_literal(&self.pairs) {
            Ok(t) => Ok(t),
            Err(e) => Err(EncodingError { details: e.to_string() }),
        }
    }

    /// Lets `key` stand for `value`, in place of what it stood for before.
    pub fn insert(&mut self, key: String, value: String)
        ensures
            final(self)@ == put(old(self)@, key@, value@),
            strictly_sorted(final(self)@),
    {
        proof {
            use_type_invariant(&*self);
            lemma_put(self@, key@, value@);
        }
        let mut pairs: Vec<(String, String)> = Vec::new();
        std::mem::swap(&mut self.pairs, &mut pairs);
        let i: usize = position(&pairs, key.as_str());
        let replace: bool = i < pairs.len() && str_eq(pairs[i].0.as_str(), key.as_str());
        let ghost after = put(pair_views(pairs@), key@, value@);
        if replace {
            pairs.set(i, (key, value));
        } else {
            pairs.insert(i, (key, value));
        }
        assert(pair_views(pairs@) =~= after);
        self.pairs = pairs;
    }
}

} // verus!
