//! Lists of escrow ids by key.
use vstd::prelude::*;

use crate::host::Ids;
use crate::store::{Key, Store};

verus! {

/// A list without the places where `id` stands.
pub open spec fn without(s: Seq<u64>, id: u64) -> Seq<u64>
    decreases s.len(),
{
    if s.len() == 0 {
        s
    } else if s.last() == id {
        without(s.drop_last(), id)
    } else {
        without(s.drop_last(), id).push(s.last())
    }
}

/// The list under a key; empty where there is none.
pub open spec fn listed<K>(index: Map<K, Seq<u64>>, key: K) -> Seq<u64> {
    if index.contains_key(key) {
        index[key]
    } else {
        Seq::empty()
    }
}

/// The index with `id` at the end of the list under `key`.
pub open spec fn appended<K>(index: Map<K, Seq<u64>>, key: K, id: u64) -> Map<K, Seq<u64>> {
    index.insert(key, listed(index, key).push(id))
}

/// The index with `id` out of the list under `key`, if there is such a list.
pub open spec fn dropped<K>(index: Map<K, Seq<u64>>, key: K, id: u64) -> Map<K, Seq<u64>> {
    if index.contains_key(key) {
        index.insert(key, without(index[key], id))
    } else {
        index
    }
}

/// The ids from `offset` on, at most `limit` of them and never more than fit on
/// a page.
pub open spec fn page(s: Seq<u64>, offset: int, limit: int, most: int) -> Seq<u64> {
    let start = if offset < s.len() { offset } else { s.len() as int };
    let count = if limit < most { limit } else { most };
    let end = if start + count < s.len() { start + count } else { s.len() as int };
    s.subrange(start, end)
}

/// Taking an id out does not make a list longer.
pub proof fn lemma_without_len(s: Seq<u64>, id: u64)
    ensures
        without(s, id).len() <= s.len(),
    decreases s.len(),
{
    if s.len() > 0 {
        lemma_without_len(s.drop_last(), id);
    }
}

/// Puts `id` at the end of the list under `key`.
pub fn append_id<K: Key>(index: &mut Store<K, Ids>, host: &soroban_sdk::Env, key: K, id: u64)
    requires
        listed(old(index)@, key).len() < u32::MAX,
    ensures
        final(index)@ == appended(old(index)@, key, id),
{
    let mut ids = match index.get(key) {
        Some(ids) => ids,
        None => Ids::new(host),
    };
    ids.push_back(id);
    index.set(key, ids);
}

/// Takes `id` out of the list under `key`.
pub fn remove_id<K: Key>(index: &mut Store<K, Ids>, host: &soroban_sdk::Env, key: K, id: u64)
    ensures
        final(index)@ == dropped(old(index)@, key, id),
{
    let ids = match index.get(key) {
        Some(ids) => ids,
        None => {
            return ;
        },
    };
    let mut updated = Ids::new(host);
    let n: u32 = ids.len();
    let mut i: u32 = 0;
    while i < n
        invariant
            n == ids@.len(),
            i <= n,
            updated@ == without(ids@.take(i as int), id),
            updated@.len() <= i,
        decreases n - i,
    {
        assert(ids@.take(i + 1).drop_last() =~= ids@.take(i as int));
        match ids.get(i) {
            Some(x) => {
                if x != id {
                    updated.push_back(x);
                }
            },
            None => {},
        }
        i = i + 1;
    }
    assert(ids@.take(n as int) =~= ids@);
    index.set(key, updated);
}

/// The list under a key; empty where there is none.
pub fn list_ids<K: Key>(index: &Store<K, Ids>, host: &soroban_sdk::Env, key: K) -> (r: Ids)
    ensures
        r@ == listed(index@, key),
{
    match index.get(key) {
        Some(ids) => ids,
        None => Ids::new(host),
    }
}

/// One page of a list.
pub fn page_of(ids: &Ids, host: &soroban_sdk::Env, offset: u32, limit: u32, most: u32) -> (r: Ids)
    ensures
        r@ == page(ids@, offset as int, limit as int, most as int),
{
    let n: u32 = ids.len();
    let start: u32 = if offset < n { offset } else { n };
    let count: u32 = if limit < most { limit } else { most };
    let end: u32 = if count < n - start { start + count } else { n };
    let mut r = Ids::new(host);
    let mut i: u32 = start;
    while i < end
        invariant
            start <= i <= end <= n,
            n == ids@.len(),
            r@ == ids@.subrange(start as int, i as int),
        decreases end - i,
    {
        match ids.get(i) {
            Some(x) => {
                r.push_back(x);
            },
            None => {},
        }
        i = i + 1;
        assert(ids@.subrange(start as int, i as int) =~= ids@.subrange(start as int, i - 1).push(
            ids@[i - 1],
        ));
    }
    r
}

} // verus!
