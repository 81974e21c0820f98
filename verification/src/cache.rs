//! The key-set cache: one entry per source, good for a fixed time from the
//! moment it was fetched.

use vstd::prelude::*;
use crate::jwk::{JwkView, KeySet};
use crate::text::same_text;

verus! {

/// How long a fetched key set is served, in seconds. The time runs from the
/// fetch and is not extended by use.
pub const TTL_SECONDS: i64 = 3600;

/// A key set with the source it came from and the time it was fetched.
pub struct CacheEntry {
    uri: String,
    keys: KeySet,
    fetched_at: i64,
}

pub struct EntryView {
    pub keys: Seq<JwkView>,
    pub fetched_at: i64,
}

/// An entry fetched at `fetched_at` is served at `now` while less than the
/// time to live has passed since.
pub open spec fn fresh(fetched_at: i64, now: i64) -> bool {
    now - fetched_at < TTL_SECONDS
}

/// What a lookup at `now` serves for `uri` out of the given entries: the
/// entry's keys while it is fresh, nothing otherwise.
pub open spec fn served_from(
    entries: Map<Seq<char>, EntryView>,
    uri: Seq<char>,
    now: i64,
) -> Option<Seq<JwkView>> {
    if entries.contains_key(uri) && fresh(entries[uri].fetched_at, now) {
        Some(entries[uri].keys)
    } else {
        None
    }
}

/// A stored key set is served for its source from the fetch until the time
/// to live has passed and not a second longer, whatever was cached before;
/// what is served for any other source does not change.
pub proof fn lemma_store_then_serve(
    entries: Map<Seq<char>, EntryView>,
    uri: Seq<char>,
    keys: Seq<JwkView>,
    fetched_at: i64,
    other: Seq<char>,
    now: i64,
)
    ensures
        now - fetched_at < TTL_SECONDS ==> served_from(
            entries.insert(uri, EntryView { keys, fetched_at }),
            uri,
            now,
        ) == Some(keys),
        now - fetched_at >= TTL_SECONDS ==> served_from(
            entries.insert(uri, EntryView { keys, fetched_at }),
            uri,
            now,
        ) is None,
        other != uri ==> served_from(
            entries.insert(uri, EntryView { keys, fetched_at }),
            other,
            now,
        ) == served_from(entries, other, now),
{
}

/// The cache. Its entries are keyed by the exact text of the source's URI.
pub struct JwksCache {
    entries: Vec<CacheEntry>,
}

impl JwksCache {
    /// No two entries stand for the same source.
    pub closed spec fn wf(self) -> bool {
        forall|i: int, j: int|
            0 <= i < j < self.entries.len() ==> (#[trigger] self.entries[i]).uri@ != (
            #[trigger] self.entries[j]).uri@
    }

    spec fn holds(self, uri: Seq<char>, i: int) -> bool {
        0 <= i < self.entries.len() && self.entries[i].uri@ == uri
    }

    /// The entries by source.
    pub closed spec fn view(&self) -> Map<Seq<char>, EntryView> {
        Map::new(
            |uri: Seq<char>| exists|i: int| self.holds(uri, i),
            |uri: Seq<char>|
                {
                    let i = choose|i: int| self.holds(uri, i);
                    EntryView {
                        keys: self.entries[i].keys@,
                        fetched_at: self.entries[i].fetched_at,
                    }
                },
        )
    }

    /// What a lookup at `now` serves for `uri`.
    pub open spec fn served(&self, uri: Seq<char>, now: i64) -> Option<Seq<JwkView>> {
        served_from(self@, uri, now)
    }

    proof fn lemma_entry(self, uri: Seq<char>, i: int)
        requires
            self.wf(),
            self.holds(uri, i),
        ensures
            self@.contains_key(uri),
            self@[uri] == (EntryView {
                keys: self.entries[i].keys@,
                fetched_at: self.entries[i].fetched_at,
            }),
    {
        let k = choose|k: int| self.holds(uri, k);
        assert(self.holds(uri, k));
        if k < i {
            assert(self.entries[k].uri@ != self.entries[i].uri@);
        } else if i < k {
            assert(self.entries[i].uri@ != self.entries[k].uri@);
        }
    }

    /// An empty cache.
    pub fn new() -> (r: JwksCache)
        ensures
            r.wf(),
            r@ == Map::<Seq<char>, EntryView>::empty(),
    {
        let r = JwksCache { entries: Vec::new() };
        assert(r@ =~= Map::<Seq<char>, EntryView>::empty());
        r
    }

    fn position(&self, uri: &str) -> (r: Option<usize>)
        ensures
            match r {
                Some(i) => self.holds(uri@, i as int),
                None => forall|i: int| !self.holds(uri@, i),
            },
    {
        let mut i: usize = 0;
        while i < self.entries.len()
            invariant
                i <= self.entries.len(),
                forall|j: int| 0 <= j < i ==> !self.holds(uri@, j),
            decreases self.entries.len() - i,
        {
            if same_text(self.entries[i].uri.as_str(), uri) {
                return Some(i);
            }
            i = i + 1;
        }
        None
    }

    /// The key set cached for `uri`, where there is one and it is still fresh
    /// at `now`. A miss asks for a fetch; an entry past its time is a miss.
    pub fn get(&self, uri: &str, now: i64) -> (r: Option<&KeySet>)
        requires
            self.wf(),
        ensures
            match r {
                Some(keys) => self.served(uri@, now) == Some(keys@),
                None => self.served(uri@, now) is None,
            },
    {
        match self.position(uri) {
            Some(i) => {
                proof {
                    self.lemma_entry(uri@, i as int);
                }
                let entry: &CacheEntry = &self.entries[i];
                if (now as i128) - (entry.fetched_at as i128) < (TTL_SECONDS as i128) {
                    Some(&entry.keys)
                } else {
                    None
                }
            },
            None => None,
        }
    }

    /// Stores `keys` as fetched from `uri` at `now`, in place of whatever was
    /// cached for that source. Entries of other sources stay as they are.
    pub fn put(&mut self, uri: &str, keys: KeySet, now: i64)
        requires
            old(self).wf(),
        ensures
            final(self).wf(),
            final(self)@ == old(self)@.insert(uri@, EntryView { keys: keys@, fetched_at: now }),
    {
        let ghost before = *self;
        let entry = CacheEntry { uri: uri.to_owned(), keys, fetched_at: now };
        match self.position(uri) {
            Some(i) => {
                self.entries.set(i, entry);
                proof {
                    let after = *self;
                    assert forall|a: int, b: int| 0 <= a < b < after.entries.len() implies (
                    #[trigger] after.entries[a]).uri@ != (#[trigger] after.entries[b]).uri@ by {
                        assert(before.entries[a].uri@ != before.entries[b].uri@);
                    }
                    let expected = before@.insert(uri@, EntryView { keys: keys@, fetched_at: now });
                    assert forall|u: Seq<char>|
                        after@.dom().contains(u) <==> expected.dom().contains(u) by {
                        if after@.dom().contains(u) {
                            let k = choose|k: int| after.holds(u, k);
                            assert(before.holds(u, k));
                        }
                        if expected.dom().contains(u) {
                            if u == uri@ {
                                assert(after.holds(u, i as int));
                            } else {
                                let k = choose|k: int| before.holds(u, k);
                                assert(after.holds(u, k));
                            }
                        }
                    }
                    assert forall|u: Seq<char>| after@.dom().contains(u) implies after@[u]
                        == expected[u] by {
                        let k = choose|k: int| after.holds(u, k);
                        after.lemma_entry(u, k);
                        if k != i {
                            assert(before.holds(u, k));
                            before.lemma_entry(u, k);
                        }
                    }
                    assert(after@ =~= expected);
                }
            },
            None => {
                self.entries.push(entry);
                proof {
                    let after = *self;
                    let last = after.entries.len() - 1;
                    assert forall|a: int, b: int| 0 <= a < b < after.entries.len() implies (
                    #[trigger] after.entries[a]).uri@ != (#[trigger] after.entries[b]).uri@ by {
                        if b == last {
                            assert(!before.holds(uri@, a));
                        } else {
                            assert(before.entries[a].uri@ != before.entries[b].uri@);
                        }
                    }
                    let expected = before@.insert(uri@, EntryView { keys: keys@, fetched_at: now });
                    assert forall|u: Seq<char>|
                        after@.dom().contains(u) <==> expected.dom().contains(u) by {
                        if after@.dom().contains(u) {
                            let k = choose|k: int| after.holds(u, k);
                            if k != last {
                                assert(before.holds(u, k));
                            }
                        }
                        if expected.dom().contains(u) {
                            if u == uri@ {
                                assert(after.holds(u, last));
                            } else {
                                let k = choose|k: int| before.holds(u, k);
                                assert(after.holds(u, k));
                            }
                        }
                    }
                    assert forall|u: Seq<char>| after@.dom().contains(u) implies after@[u]
                        == expected[u] by {
                        let k = choose|k: int| after.holds(u, k);
                        after.lemma_entry(u, k);
                        if k != last {
                            assert(before.holds(u, k));
                            before.lemma_entry(u, k);
                        }
                    }
                    assert(after@ =~= expected);
                }
            },
        }
    }
}

} // verus!
