use vstd::prelude::*;

verus! {

/// The identity of a listed asset at the specification level: the item
/// identifier and the collection (contract) address, as character sequences.
pub type AssetKeyV = (Seq<char>, Seq<char>);

/// One stored row: the two key components and the record.
type Entry<V> = (String, String, V);

/// The key of a stored row.
pub open spec fn entry_key<V>(e: Entry<V>) -> AssetKeyV {
    (e.0@, e.1@)
}

/// The record stored under `k`, scanning from the back of the sequence.
pub open spec fn table_at<V: View>(s: Seq<Entry<V>>, k: AssetKeyV) -> Option<V::V>
    decreases s.len(),
{
    if s.len() == 0 {
        None
    } else if entry_key(s.last()) == k {
        Some(s.last().2@)
    } else {
        table_at(s.drop_last(), k)
    }
}

/// No two rows share a key.
pub open spec fn distinct_keys<V>(s: Seq<Entry<V>>) -> bool {
    forall|i: int, j: int| 0 <= i < j < s.len() ==> entry_key(s[i]) != entry_key(s[j])
}

proof fn lemma_table_at_push<V: View>(s: Seq<Entry<V>>, e: Entry<V>, k: AssetKeyV)
    ensures
        table_at(s.push(e), k) == (if entry_key(e) == k {
            Some(e.2@)
        } else {
            table_at(s, k)
        }),
{
    assert(s.push(e).last() == e);
    assert(s.push(e).drop_last() =~= s);
}

proof fn lemma_table_at_index<V: View>(s: Seq<Entry<V>>, i: int, k: AssetKeyV)
    requires
        distinct_keys(s),
        0 <= i < s.len(),
        entry_key(s[i]) == k,
    ensures
        table_at(s, k) == Some(s[i].2@),
    decreases s.len(),
{
    if i == s.len() - 1 {
        assert(s.last() == s[i]);
    } else {
        assert(entry_key(s.last()) != k);
        assert(s.drop_last()[i] == s[i]);
        lemma_table_at_index(s.drop_last(), i, k);
    }
}

proof fn lemma_table_at_absent<V: View>(s: Seq<Entry<V>>, k: AssetKeyV)
    requires
        forall|i: int| 0 <= i < s.len() ==> entry_key(s[i]) != k,
    ensures
        table_at(s, k) is None,
    decreases s.len(),
{
    if s.len() > 0 {
        assert(entry_key(s.last()) != k);
        lemma_table_at_absent(s.drop_last(), k);
    }
}

proof fn lemma_table_at_remove<V: View>(s: Seq<Entry<V>>, i: int, k2: AssetKeyV)
    requires
        distinct_keys(s),
        0 <= i < s.len(),
    ensures
        table_at(s.remove(i), k2) == (if entry_key(s[i]) == k2 {
            None::<V::V>
        } else {
            table_at(s, k2)
        }),
    decreases s.len(),
{
    if i == s.len() - 1 {
        assert(s.remove(i) =~= s.drop_last());
        if entry_key(s[i]) == k2 {
            assert forall|j: int| 0 <= j < s.drop_last().len() implies entry_key(
                s.drop_last()[j],
            ) != k2 by {
                assert(s.drop_last()[j] == s[j]);
            }
            lemma_table_at_absent(s.drop_last(), k2);
        }
    } else {
        let t = s.remove(i);
        assert(t.len() == s.len() - 1);
        assert(t.last() == s.last());
        assert(t.drop_last() =~= s.drop_last().remove(i));
        assert(s.drop_last()[i] == s[i]);
        assert(distinct_keys(s.drop_last()));
        lemma_table_at_remove(s.drop_last(), i, k2);
        if entry_key(s.last()) == k2 {
            assert(entry_key(s[i]) != k2);
        }
    }
}

proof fn lemma_table_at_update<V: View>(s: Seq<Entry<V>>, i: int, e: Entry<V>, k2: AssetKeyV)
    requires
        distinct_keys(s),
        0 <= i < s.len(),
        entry_key(e) == entry_key(s[i]),
    ensures
        table_at(s.update(i, e), k2) == (if entry_key(s[i]) == k2 {
            Some(e.2@)
        } else {
            table_at(s, k2)
        }),
    decreases s.len(),
{
    let t = s.update(i, e);
    assert(t.len() == s.len());
    if i == s.len() - 1 {
        assert(t.last() == e);
        assert(t.drop_last() =~= s.drop_last());
    } else {
        assert(t.last() == s.last());
        assert(t.drop_last() =~= s.drop_last().update(i, e));
        assert(s.drop_last()[i] == s[i]);
        assert(distinct_keys(s.drop_last()));
        lemma_table_at_update(s.drop_last(), i, e, k2);
        if entry_key(s.last()) == k2 {
            assert(entry_key(s[i]) != k2);
        }
    }
}

proof fn lemma_distinct_remove<V: View>(s: Seq<Entry<V>>, i: int)
    requires
        distinct_keys(s),
        0 <= i < s.len(),
    ensures
        distinct_keys(s.remove(i)),
{
    let t = s.remove(i);
    assert forall|p: int, q: int| 0 <= p < q < t.len() implies entry_key(t[p]) != entry_key(
        t[q],
    ) by {
        let p0 = if p < i {
            p
        } else {
            p + 1
        };
        let q0 = if q < i {
            q
        } else {
            q + 1
        };
        assert(t[p] == s[p0]);
        assert(t[q] == s[q0]);
    }
}

/// A durable mapping from asset key to one record, owned exclusively by the
/// settlement engine. Behaves as a finite map: `at` is the logical content,
/// and `wf` says no key is stored twice.
pub struct Table<V> {
    entries: Vec<(String, String, V)>,
}

impl<V: View> Table<V> {
    /// The record stored under `k`, if any.
    pub closed spec fn at(self, k: AssetKeyV) -> Option<V::V> {
        table_at(self.entries@, k)
    }

    /// Structural well-formedness: each key is stored at most once.
    pub closed spec fn wf(self) -> bool {
        distinct_keys(self.entries@)
    }

    /// An empty table.
    pub fn new() -> (r: Table<V>)
        ensures
            r.wf(),
            forall|k: AssetKeyV| r.at(k) is None,
    {
        Table { entries: Vec::new() }
    }

    fn position(&self, token_id: &String, nft_address: &String) -> (r: Option<usize>)
        ensures
            match r {
                Some(i) => i < self.entries@.len() && entry_key(self.entries@[i as int]) == (
                    token_id@,
                    nft_address@,
                ),
                None => forall|j: int|
                    0 <= j < self.entries@.len() ==> entry_key(self.entries@[j]) != (
                    token_id@,
                    nft_address@,
                    ),
            },
    {
        let n = self.entries.len();
        let mut i: usize = 0;
        while i < n
            invariant
                n == self.entries@.len(),
                i <= n,
                forall|j: int|
                    0 <= j < i ==> entry_key(self.entries@[j]) != (token_id@, nft_address@),
            decreases n - i,
        {
            let e = &self.entries[i];
            if e.0 == *token_id && e.1 == *nft_address {
                return Some(i);
            }
            i = i + 1;
        }
        None
    }

    /// A borrow of the record stored under the given key, if any.
    pub fn get<'a>(&'a self, token_id: &String, nft_address: &String) -> (r: Option<&'a V>)
        requires
            self.wf(),
        ensures
            match r {
                Some(v) => self.at((token_id@, nft_address@)) == Some(v@),
                None => self.at((token_id@, nft_address@)) is None,
            },
    {
        match self.position(token_id, nft_address) {
            Some(i) => {
                proof {
                    lemma_table_at_index(self.entries@, i as int, (token_id@, nft_address@));
                }
                Some(&self.entries[i].2)
            },
            None => {
                proof {
                    lemma_table_at_absent(self.entries@, (token_id@, nft_address@));
                }
                None
            },
        }
    }

    /// Removes and returns the record stored under the given key, if any.
    pub fn take(&mut self, token_id: &String, nft_address: &String) -> (r: Option<V>)
        requires
            old(self).wf(),
        ensures
            final(self).wf(),
            final(self).at((token_id@, nft_address@)) is None,
            forall|k2: AssetKeyV|
                k2 != (token_id@, nft_address@) ==> final(self).at(k2) == old(self).at(k2),
            match r {
                Some(v) => old(self).at((token_id@, nft_address@)) == Some(v@),
                None => old(self).at((token_id@, nft_address@)) is None && *final(self) == *old(
                    self,
                ),
            },
    {
        let ghost k = (token_id@, nft_address@);
        match self.position(token_id, nft_address) {
            Some(i) => {
                proof {
                    lemma_table_at_index(self.entries@, i as int, k);
                    lemma_distinct_remove(self.entries@, i as int);
                    assert forall|k2: AssetKeyV| true implies table_at(
                        self.entries@.remove(i as int),
                        k2,
                    ) == (if entry_key(self.entries@[i as int]) == k2 {
                        None::<V::V>
                    } else {
                        table_at(self.entries@, k2)
                    }) by {
                        lemma_table_at_remove(self.entries@, i as int, k2);
                    }
                }
                let e = self.entries.remove(i);
                Some(e.2)
            },
            None => {
                proof {
                    lemma_table_at_absent(self.entries@, k);
                }
                None
            },
        }
    }

    /// Stores `v` under the given key, replacing whatever was there.
    pub fn put(&mut self, token_id: String, nft_address: String, v: V)
        requires
            old(self).wf(),
        ensures
            final(self).wf(),
            final(self).at((token_id@, nft_address@)) == Some(v@),
            forall|k2: AssetKeyV|
                k2 != (token_id@, nft_address@) ==> final(self).at(k2) == old(self).at(k2),
    {
        let ghost k = (token_id@, nft_address@);
        match self.position(&token_id, &nft_address) {
            Some(i) => {
                let ghost s = self.entries@;
                let ghost e = (token_id, nft_address, v);
                proof {
                    assert forall|k2: AssetKeyV| true implies table_at(
                        s.update(i as int, e),
                        k2,
                    ) == (if entry_key(s[i as int]) == k2 {
                        Some(e.2@)
                    } else {
                        table_at(s, k2)
                    }) by {
                        lemma_table_at_update(s, i as int, e, k2);
                    }
                }
                self.entries.set(i, (token_id, nft_address, v));
            },
            None => {
                let ghost s = self.entries@;
                let ghost e = (token_id, nft_address, v);
                proof {
                    assert forall|k2: AssetKeyV| true implies table_at(s.push(e), k2) == (if
                    entry_key(e) == k2 {
                        Some(e.2@)
                    } else {
                        table_at(s, k2)
                    }) by {
                        lemma_table_at_push(s, e, k2);
                    }
                    assert forall|p: int, q: int| 0 <= p < q < s.push(e).len() implies entry_key(
                        s.push(e)[p],
                    ) != entry_key(s.push(e)[q]) by {
                        if q == s.len() {
                            assert(s.push(e)[p] == s[p]);
                            assert(s.push(e)[q] == e);
                        } else {
                            assert(s.push(e)[p] == s[p]);
                            assert(s.push(e)[q] == s[q]);
                        }
                    }
                }
                self.entries.push((token_id, nft_address, v));
            },
        }
    }
}

} // verus!
