//! A bounded cache of shaped labels, keyed by font size and text.
//!
//! Shaping and measuring a label is costly, so its result is kept per (size,
//! text). The cache never holds more than [`LABEL_CACHE_LIMIT`] entries: an
//! insertion of a new key into a full cache empties it first. One cache belongs
//! to each rendering context.

use vstd::prelude::*;

verus! {

/// The most entries a label cache holds.
pub const LABEL_CACHE_LIMIT: usize = 10_000;

/// The key of an entry: the font size's bit pattern and the text.
pub open spec fn key_of<V>(e: (u32, String, V)) -> (u32, Seq<char>) {
    (e.0, e.1@)
}

/// The map that a list of entries stands for.
pub open spec fn map_of<V>(es: Seq<(u32, String, V)>) -> Map<(u32, Seq<char>), V>
    decreases es.len(),
{
    if es.len() == 0 {
        Map::empty()
    } else {
        map_of(es.drop_last()).insert(key_of(es.last()), es.last().2)
    }
}

/// No two entries share a key.
pub open spec fn keys_unique<V>(es: Seq<(u32, String, V)>) -> bool {
    forall|i: int, j: int|
        0 <= i < j < es.len() ==> key_of(#[trigger] es[i]) != key_of(#[trigger] es[j])
}

proof fn lemma_map_of_keys<V>(es: Seq<(u32, String, V)>, k: (u32, Seq<char>))
    ensures
        map_of(es).contains_key(k) <==> exists|i: int| 0 <= i < es.len() && key_of(#[trigger] es[i]) == k,
    decreases es.len(),
{
    if es.len() > 0 {
        let init = es.drop_last();
        lemma_map_of_keys(init, k);
        if map_of(es).contains_key(k) {
            if key_of(es.last()) != k {
                let i = choose|i: int| 0 <= i < init.len() && key_of(#[trigger] init[i]) == k;
                assert(es[i] == init[i]);
            }
        } else {
            assert forall|i: int| 0 <= i < es.len() implies key_of(#[trigger] es[i]) != k by {
                if i < init.len() {
                    assert(es[i] == init[i]);
                }
            }
        }
    }
}

proof fn lemma_map_of_value<V>(es: Seq<(u32, String, V)>, i: int)
    requires
        keys_unique(es),
        0 <= i < es.len(),
    ensures
        map_of(es).contains_key(key_of(es[i])),
        map_of(es)[key_of(es[i])] == es[i].2,
    decreases es.len(),
{
    let init = es.drop_last();
    if i < es.len() - 1 {
        assert(init[i] == es[i]);
        assert(keys_unique(init)) by {
            assert forall|a: int, b: int| 0 <= a < b < init.len() implies key_of(#[trigger] init[a])
                != key_of(#[trigger] init[b]) by {
                assert(init[a] == es[a] && init[b] == es[b]);
            }
        }
        lemma_map_of_value(init, i);
        assert(key_of(es[i]) != key_of(es[es.len() - 1]));
    }
}

proof fn lemma_keys_unique_init<V>(es: Seq<(u32, String, V)>)
    requires
        keys_unique(es),
        es.len() > 0,
    ensures
        keys_unique(es.drop_last()),
{
    let init = es.drop_last();
    assert forall|a: int, b: int| 0 <= a < b < init.len() implies key_of(#[trigger] init[a])
        != key_of(#[trigger] init[b]) by {
        assert(init[a] == es[a] && init[b] == es[b]);
    }
}

proof fn lemma_map_of_len<V>(es: Seq<(u32, String, V)>)
    requires
        keys_unique(es),
    ensures
        map_of(es).dom().finite(),
        map_of(es).len() == es.len(),
    decreases es.len(),
{
    if es.len() > 0 {
        let init = es.drop_last();
        lemma_keys_unique_init(es);
        lemma_map_of_len(init);
        lemma_map_of_keys(init, key_of(es.last()));
        assert forall|i: int| 0 <= i < init.len() implies key_of(#[trigger] init[i]) != key_of(
            es.last(),
        ) by {
            assert(init[i] == es[i]);
        }
    }
}

proof fn lemma_map_of_update<V>(es: Seq<(u32, String, V)>, i: int, e: (u32, String, V))
    requires
        keys_unique(es),
        0 <= i < es.len(),
        key_of(e) == key_of(es[i]),
    ensures
        keys_unique(es.update(i, e)),
        map_of(es.update(i, e)) == map_of(es).insert(key_of(e), e.2),
    decreases es.len(),
{
    let es2 = es.update(i, e);
    assert forall|a: int, b: int| 0 <= a < b < es2.len() implies key_of(#[trigger] es2[a])
        != key_of(#[trigger] es2[b]) by {
        assert(key_of(es2[a]) == key_of(es[a]));
        assert(key_of(es2[b]) == key_of(es[b]));
    }
    let init = es.drop_last();
    if i == es.len() - 1 {
        assert(es2.drop_last() =~= init);
        assert(map_of(es2) =~= map_of(es).insert(key_of(e), e.2));
    } else {
        lemma_keys_unique_init(es);
        assert(es2.drop_last() =~= init.update(i, e));
        assert(init[i] == es[i]);
        lemma_map_of_update(init, i, e);
        assert(key_of(es[i]) != key_of(es.last()));
        assert(map_of(es2) =~= map_of(es).insert(key_of(e), e.2));
    }
}

/// Shaped labels by (size bit pattern, text).
pub struct LabelCache<V> {
    entries: Vec<(u32, String, V)>,
}

impl<V> View for LabelCache<V> {
    type V = Map<(u32, Seq<char>), V>;

    closed spec fn view(&self) -> Map<(u32, Seq<char>), V> {
        map_of(self.entries@)
    }
}

impl<V> LabelCache<V> {
    /// The cache's invariant: keys are unique and the bound holds.
    pub closed spec fn wf(&self) -> bool {
        &&& keys_unique(self.entries@)
        &&& self.entries@.len() <= LABEL_CACHE_LIMIT
    }

    /// An empty cache.
    pub fn new() -> (r: Self)
        ensures
            r.wf(),
            r@ == Map::<(u32, Seq<char>), V>::empty(),
    {
        LabelCache { entries: Vec::new() }
    }

    /// The number of cached labels; never more than the limit.
    pub fn len(&self) -> (r: usize)
        requires
            self.wf(),
        ensures
            r == self@.len(),
            r <= LABEL_CACHE_LIMIT,
            self@.dom().finite(),
    {
        proof {
            lemma_map_of_len(self.entries@);
        }
        self.entries.len()
    }

    fn find(&self, size: u32, text: &String) -> (r: Option<usize>)
        requires
            self.wf(),
        ensures
            match r {
                Some(i) => i < self.entries@.len() && key_of(self.entries@[i as int]) == (size, text@),
                None => !self@.contains_key((size, text@)),
            },
    {
        let mut i: usize = 0;
        while i < self.entries.len()
            invariant
                i <= self.entries@.len(),
                forall|j: int|
                    0 <= j < i ==> key_of(#[trigger] self.entries@[j]) != (size, text@),
            decreases self.entries@.len() - i,
        {
            let e = &self.entries[i];
            if e.0 == size && e.1 == *text {
                return Some(i);
            }
            i += 1;
        }
        proof {
            lemma_map_of_keys(self.entries@, (size, text@));
        }
        None
    }

    /// The cached value for `text` at the font size whose bit pattern is
    /// `size`, if there is one.
    pub fn get(&self, size: u32, text: &String) -> (r: Option<&V>)
        requires
            self.wf(),
        ensures
            match r {
                Some(v) => self@.contains_key((size, text@)) && *v == self@[(size, text@)],
                None => !self@.contains_key((size, text@)),
            },
    {
        match self.find(size, text) {
            Some(i) => {
                proof {
                    lemma_map_of_value(self.entries@, i as int);
                }
                Some(&self.entries[i].2)
            },
            None => None,
        }
    }

    /// Caches `value` for `text` at the font size whose bit pattern is `size`.
    /// A key already present has its value replaced; a new key entering a full
    /// cache first empties it.
    pub fn insert(&mut self, size: u32, text: String, value: V)
        requires
            old(self).wf(),
        ensures
            final(self).wf(),
            old(self)@.contains_key((size, text@)) ==> final(self)@ == old(self)@.insert(
                (size, text@),
                value,
            ),
            !old(self)@.contains_key((size, text@)) && old(self)@.len() < LABEL_CACHE_LIMIT
                ==> final(self)@ == old(self)@.insert((size, text@), value),
            !old(self)@.contains_key((size, text@)) && old(self)@.len() >= LABEL_CACHE_LIMIT
                ==> final(self)@ == Map::<(u32, Seq<char>), V>::empty().insert(
                (size, text@),
                value,
            ),
    {
        proof {
            lemma_map_of_len(self.entries@);
        }
        let ghost k = (size, text@);
        match self.find(size, &text) {
            Some(i) => {
                proof {
                    lemma_map_of_value(self.entries@, i as int);
                    lemma_map_of_update(self.entries@, i as int, (size, text, value));
                }
                self.entries.set(i, (size, text, value));
            },
            None => {
                if self.entries.len() >= LABEL_CACHE_LIMIT {
                    self.entries.clear();
                }

                proof {
                    lemma_map_of_keys(self.entries@, k);
                }
                let ghost before = self.entries@;
                self.entries.push((size, text, value));
                proof {
                    assert(self.entries@.drop_last() =~= before);
                    assert(self.entries@.last() == (size, text, value));
                    if before.len() == 0 {
                        assert(map_of(before) =~= Map::<(u32, Seq<char>), V>::empty());
                    }
                    assert forall|a: int, b: int|
                        0 <= a < b < self.entries@.len() implies key_of(
                        #[trigger] self.entries@[a],
                    ) != key_of(#[trigger] self.entries@[b]) by {
                        if b < before.len() {
                            assert(self.entries@[a] == before[a] && self.entries@[b] == before[b]);
                        } else {
                            assert(self.entries@[a] == before[a]);
                        }
                    }
                }
            },
        }
    }

    /// Empties the cache.
    pub fn clear(&mut self)
        requires
            old(self).wf(),
        ensures
            final(self).wf(),
            final(self)@ == Map::<(u32, Seq<char>), V>::empty(),
    {
        self.entries.clear();
    }
}

} // verus!
