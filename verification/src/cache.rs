//! A small cache of recent query results, oldest first, so that repeating a
//! query answers without asking the services again.
use vstd::prelude::*;

use crate::dict::{QueryOutput, QueryOutputView};
use crate::text::str_eq;

verus! {

/// How many results the cache keeps.
pub const QUERY_CACHE_CAPACITY: usize = 32;

/// A cache entry's content: the query and its result.
pub type CacheEntry = (Seq<char>, QueryOutputView);

/// Recent results keyed by query, oldest first. No query occurs twice and
/// there are at most `QUERY_CACHE_CAPACITY` entries.
pub struct QueryCache {
    entries: Vec<(String, QueryOutput)>,
}

/// The position of `q` among the entries' queries, first match.
pub open spec fn key_index(s: Seq<CacheEntry>, q: Seq<char>) -> Option<int>
    decreases s.len(),
{
    if s.len() == 0 {
        None
    } else if s[0].0 == q {
        Some(0)
    } else {
        match key_index(s.drop_first(), q) {
            Some(i) => Some(i + 1),
            None => None,
        }
    }
}

/// Whether no query occurs twice.
pub open spec fn keys_unique(s: Seq<CacheEntry>) -> bool {
    forall|i: int, j: int| 0 <= i < j < s.len() ==> #[trigger] s[i].0 != #[trigger] s[j].0
}

/// The result stored for `q`.
pub open spec fn cache_lookup(s: Seq<CacheEntry>, q: Seq<char>) -> Option<QueryOutputView> {
    match key_index(s, q) {
        Some(i) => Some(s[i].1),
        None => None,
    }
}

/// The entries after storing `r` for `q`: an older entry for `q` is dropped,
/// the new one goes last, and the oldest entry leaves when the cache would
/// hold more than its capacity.
pub open spec fn cache_insert_spec(s: Seq<CacheEntry>, q: Seq<char>, r: QueryOutputView) -> Seq<
    CacheEntry,
> {
    let t = match key_index(s, q) {
        Some(i) => s.remove(i),
        None => s,
    }.push((q, r));
    if t.len() > QUERY_CACHE_CAPACITY {
        t.skip(t.len() - QUERY_CACHE_CAPACITY)
    } else {
        t
    }
}

proof fn lemma_key_index(s: Seq<CacheEntry>, q: Seq<char>)
    ensures
        key_index(s, q) matches Some(i) ==> 0 <= i < s.len() && s[i].0 == q,
        key_index(s, q) is None ==> forall|j: int| 0 <= j < s.len() ==> s[j].0 != q,
    decreases s.len(),
{
    if s.len() > 0 {
        lemma_key_index(s.drop_first(), q);
        if key_index(s, q) is None {
            assert forall|j: int| 0 <= j < s.len() implies s[j].0 != q by {
                if j > 0 {
                    assert(s[j] == s.drop_first()[j - 1]);
                }
            }
        }
        if let Some(i) = key_index(s, q) {
            if i > 0 {
                assert(s[i] == s.drop_first()[i - 1]);
            }
        }
    }
}

proof fn lemma_key_index_unique(s: Seq<CacheEntry>, q: Seq<char>, k: int)
    requires
        keys_unique(s),
        0 <= k < s.len(),
        s[k].0 == q,
    ensures
        key_index(s, q) == Some(k),
{
    lemma_key_index(s, q);
    if let Some(i) = key_index(s, q) {
        if i != k {
            if i < k {
                assert(s[i].0 != s[k].0);
            } else {
                assert(s[k].0 != s[i].0);
            }
        }
    }
}

impl View for QueryCache {
    type V = Seq<CacheEntry>;

    closed spec fn view(&self) -> Seq<CacheEntry> {
        self.entries@.map_values(|e: (String, QueryOutput)| (e.0@, e.1@))
    }
}

impl QueryCache {
    /// No query occurs twice and the capacity is respected.
    pub open spec fn wf(&self) -> bool {
        keys_unique(self@) && self@.len() <= QUERY_CACHE_CAPACITY
    }

    /// An empty cache.
    pub fn new() -> (r: QueryCache)
        ensures
            r@ == Seq::<CacheEntry>::empty(),
            r.wf(),
    {
        let r = QueryCache { entries: Vec::new() };
        assert(r@ =~= Seq::<CacheEntry>::empty());
        r
    }

    /// The number of cached results.
    pub fn len(&self) -> (r: usize)
        ensures
            r == self@.len(),
    {
        self.entries.len()
    }

    fn position(&self, query: &str) -> (r: Option<usize>)
        ensures
            match r {
                Some(i) => key_index(self@, query@) == Some(i as int) && i < self.entries@.len(),
                None => key_index(self@, query@) is None,
            },
    {
        let ghost s = self@;
        let n = self.entries.len();
        assert(s.skip(0) == s);
        for i in 0..n
            invariant
                n == self.entries@.len(),
                s == self@,
                s.len() == n,
                forall|j: int|
                    0 <= j < n ==> (#[trigger] s[j]).0 == self.entries@[j].0@ && s[j].1
                        == self.entries@[j].1@,
                key_index(s, query@) == match key_index(s.skip(i as int), query@) {
                    Some(k) => Some(k + i),
                    None => None,
                },
        {
            assert(s.skip(i as int).drop_first() == s.skip(i + 1));
            assert(s.skip(i as int)[0] == s[i as int]);
            if str_eq(self.entries[i].0.as_str(), query) {
                return Some(i);
            }
        }
        assert(s.skip(n as int) == Seq::<CacheEntry>::empty());
        None
    }

    /// The result cached for `query`, if any.
    pub fn get(&self, query: &str) -> (r: Option<QueryOutput>)
        ensures
            match r {
                Some(o) => cache_lookup(self@, query@) == Some(o@),
                None => cache_lookup(self@, query@) is None,
            },
    {
        match self.position(query) {
            Some(i) => {
                assert(self@[i as int] == (self.entries@[i as int].0@, self.entries@[i as int].1@));
                Some(self.entries[i].1.clone())
            },
            None => None,
        }
    }

    /// Stores `result` for `query`, replacing an older result for it and
    /// dropping the oldest entry when the cache is full.
    pub fn insert(&mut self, query: &str, result: QueryOutput)
        requires
            old(self).wf(),
        ensures
            final(self)@ == cache_insert_spec(old(self)@, query@, result@),
            final(self).wf(),
    {
        let ghost s0 = self@;
        match self.position(query) {
            Some(i) => {
                let ghost before = self.entries@;
                self.entries.remove(i);
                assert(self@ =~= s0.remove(i as int));
            },
            None => {},
        }
        let ghost s1 = self@;
        let ghost prev = self.entries@;
        self.entries.push((query.to_string(), result));
        assert(self@ =~= s1.push((query@, result@)));
        proof {
            lemma_key_index(s0, query@);
            assert(forall|j: int| 0 <= j < s1.len() ==> s1[j].0 != query@);
            assert(keys_unique(self@));
        }
        if self.entries.len() > QUERY_CACHE_CAPACITY {
            let ghost s2 = self@;
            self.entries.remove(0);
            assert(self@ =~= s2.skip(s2.len() - QUERY_CACHE_CAPACITY));
        }
    }
}

/// After a result is stored for a query, looking the query up gives it back.
pub proof fn lemma_lookup_after_insert(s: Seq<CacheEntry>, q: Seq<char>, r: QueryOutputView)
    requires
        keys_unique(s),
        s.len() <= QUERY_CACHE_CAPACITY,
    ensures
        cache_lookup(cache_insert_spec(s, q, r), q) == Some(r),
        keys_unique(cache_insert_spec(s, q, r)),
        cache_insert_spec(s, q, r).len() <= QUERY_CACHE_CAPACITY,
{
    lemma_key_index(s, q);
    let s1 = match key_index(s, q) {
        Some(i) => s.remove(i),
        None => s,
    };
    assert(forall|j: int| 0 <= j < s1.len() ==> s1[j].0 != q);
    let t = s1.push((q, r));
    assert(keys_unique(t));
    let u = cache_insert_spec(s, q, r);
    assert(u.len() > 0 && u[u.len() - 1] == (q, r));
    assert(keys_unique(u));
    lemma_key_index_unique(u, q, u.len() - 1);
}

/// Storing a result for one query keeps the result of every other query,
/// unless that entry was the oldest and made room.
pub proof fn lemma_insert_keeps_others(
    s: Seq<CacheEntry>,
    q: Seq<char>,
    r: QueryOutputView,
    other: Seq<char>,
)
    requires
        keys_unique(s),
        s.len() <= QUERY_CACHE_CAPACITY,
        other != q,
    ensures
        cache_lookup(cache_insert_spec(s, q, r), other) is None || cache_lookup(
            cache_insert_spec(s, q, r),
            other,
        ) == cache_lookup(s, other),
{
    lemma_lookup_after_insert(s, q, r);
    let u = cache_insert_spec(s, q, r);
    lemma_key_index(u, other);
    if let Some(k) = key_index(u, other) {
        lemma_key_index(s, q);
        let s1 = match key_index(s, q) {
            Some(i) => s.remove(i),
            None => s,
        };
        let t = s1.push((q, r));
        let off = if t.len() > QUERY_CACHE_CAPACITY {
            t.len() - QUERY_CACHE_CAPACITY
        } else {
            0
        };
        assert(u[k] == t[k + off]);
        assert(k + off < s1.len());
        let e = s1[k + off];
        assert(e.0 == other);
        let j: int = match key_index(s, q) {
            Some(i) => if k + off < i {
                k + off
            } else {
                k + off + 1
            },
            None => k + off,
        };
        assert(0 <= j < s.len() && s[j] == e);
        lemma_key_index_unique(s, other, j);
    }
}

} // verus!
