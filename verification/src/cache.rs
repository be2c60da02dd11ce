//! Remembering the cursor each selector was resolved to.
//!
//! A selector is realised at most once. Its entry is made when its first
//! resolution succeeds and is never changed or removed afterwards; a
//! resolution that fails leaves no entry, so the next request tries again.

use std::collections::HashMap;
use vstd::prelude::*;
use crate::icon::CursorIcon;

verus! {

broadcast use vstd::std_specs::hash::group_hash_axioms;

/// The cursors realised so far, by selector. The invisible cursor, which no
/// icon selects, has a place of its own.
#[derive(Debug)]
pub struct CursorCache {
    empty: Option<u32>,
    named: HashMap<u32, u32>,
}

/// One map over all selectors, made of the place of the invisible cursor
/// and of the cursors of the icons by number.
pub open spec fn by_selector(empty: Option<u32>, named: Map<u32, u32>) -> Map<
    Option<CursorIcon>,
    u32,
> {
    Map::new(
        |key: Option<CursorIcon>|
            match key {
                None => empty is Some,
                Some(icon) => named.contains_key(icon.id),
            },
        |key: Option<CursorIcon>|
            match key {
                None => empty->Some_0,
                Some(icon) => named[icon.id],
            },
    )
}

proof fn lemma_nothing_cached(empty: Option<u32>, named: Map<u32, u32>)
    requires
        empty is None,
        named == Map::<u32, u32>::empty(),
    ensures
        by_selector(empty, named) == Map::<Option<CursorIcon>, u32>::empty(),
{
    assert(by_selector(empty, named) =~= Map::<Option<CursorIcon>, u32>::empty());
}

impl View for CursorCache {
    type V = Map<Option<CursorIcon>, u32>;

    closed spec fn view(&self) -> Map<Option<CursorIcon>, u32> {
        by_selector(self.empty, self.named@)
    }
}

/// The cache once `cursor` was realised for `key`: a selector that already
/// has a cursor keeps it.
pub open spec fn remembered(
    cache: Map<Option<CursorIcon>, u32>,
    key: Option<CursorIcon>,
    cursor: u32,
) -> Map<Option<CursorIcon>, u32> {
    if cache.contains_key(key) {
        cache
    } else {
        cache.insert(key, cursor)
    }
}

/// No two selectors share a cursor.
pub open spec fn distinct_handles(cache: Map<Option<CursorIcon>, u32>) -> bool {
    forall|a: Option<CursorIcon>, b: Option<CursorIcon>|
        cache.contains_key(a) && cache.contains_key(b) && a != b ==> cache[a] != cache[b]
}

/// No selector has `cursor` yet.
pub open spec fn unused(cache: Map<Option<CursorIcon>, u32>, cursor: u32) -> bool {
    forall|a: Option<CursorIcon>| cache.contains_key(a) ==> cache[a] != cursor
}

impl CursorCache {
    /// A cache without entries.
    pub fn new() -> (r: Self)
        ensures
            r@ == Map::<Option<CursorIcon>, u32>::empty(),
    {
        let r = CursorCache { empty: None, named: HashMap::new() };
        proof {
            lemma_nothing_cached(r.empty, r.named@);
        }
        r
    }

    /// The cursor `key` was resolved to, if it was.
    pub fn get(&self, key: Option<CursorIcon>) -> (r: Option<u32>)
        ensures
            r == (if self@.contains_key(key) {
                Some(self@[key])
            } else {
                None
            }),
    {
        match key {
            None => self.empty,
            Some(icon) => match self.named.get(&icon.id) {
                Some(cursor) => Some(*cursor),
                None => None,
            },
        }
    }

    /// Records that `key` was resolved to `cursor`, unless `key` has a
    /// cursor already, and returns the cursor `key` now stands for.
    pub fn or_insert(&mut self, key: Option<CursorIcon>, cursor: u32) -> (r: u32)
        ensures
            final(self)@ == remembered(old(self)@, key, cursor),
            r == final(self)@[key],
    {
        match self.get(key) {
            Some(known) => known,
            None => {
                match key {
                    None => {
                        self.empty = Some(cursor);
                    },
                    Some(icon) => {
                        self.named.insert(icon.id, cursor);
                    },
                }
                assert(self@ =~= old(self)@.insert(key, cursor));
                cursor
            },
        }
    }
}

/// Idempotence. Once a selector is resolved, resolving it again changes
/// nothing: the cache is the same and so is the cursor it gives.
pub proof fn lemma_second_resolution_changes_nothing(
    cache: Map<Option<CursorIcon>, u32>,
    key: Option<CursorIcon>,
    first: u32,
    second: u32,
)
    ensures
        remembered(remembered(cache, key, first), key, second) == remembered(cache, key, first),
        remembered(cache, key, first).contains_key(key),
        !cache.contains_key(key) ==> remembered(cache, key, first)[key] == first,
{
}

/// Entries are for good: resolving any selector leaves every entry that was
/// there as it was.
pub proof fn lemma_entries_are_kept(
    cache: Map<Option<CursorIcon>, u32>,
    key: Option<CursorIcon>,
    cursor: u32,
    other: Option<CursorIcon>,
)
    requires
        cache.contains_key(other),
    ensures
        remembered(cache, key, cursor).contains_key(other),
        remembered(cache, key, cursor)[other] == cache[other],
{
}

/// Two selectors resolved one after the other each get the cursor of their
/// own resolution. So where the two resolutions produced different cursors
/// the selectors stand for different cursors, even if both were found under
/// the same name.
pub proof fn lemma_each_selector_gets_its_own_cursor(
    cache: Map<Option<CursorIcon>, u32>,
    a: Option<CursorIcon>,
    b: Option<CursorIcon>,
    cursor_a: u32,
    cursor_b: u32,
)
    requires
        a != b,
        !cache.contains_key(a),
        !cache.contains_key(b),
    ensures
        ({
            let both = remembered(remembered(cache, a, cursor_a), b, cursor_b);
            &&& both[a] == cursor_a
            &&& both[b] == cursor_b
            &&& cursor_a != cursor_b ==> both[a] != both[b]
        }),
{
}

/// As long as every resolution produces a cursor that no selector has yet,
/// no two selectors ever share one.
pub proof fn lemma_fresh_cursors_stay_distinct(
    cache: Map<Option<CursorIcon>, u32>,
    key: Option<CursorIcon>,
    cursor: u32,
)
    requires
        distinct_handles(cache),
        unused(cache, cursor),
    ensures
        distinct_handles(remembered(cache, key, cursor)),
{
}

} // verus!
