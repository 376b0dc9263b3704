//! A cache of what the service has sent, with directed relationships
//! between the cached objects.

use vstd::prelude::*;
use std::collections::HashMap;
use crate::api::ids::Uuid;
use crate::api::structs::json::data::{Chapter, RelationshipKind, Tag};
use crate::api::structs::{AtHomeServerChapter, Manga};

verus! {

/// What the cache can hold.
#[derive(Clone, Debug, PartialEq, Eq)]
pub enum CacheValue {
    Manga(Manga),
    Tag(Tag),
    Chapter(Chapter),
    AtHome(AtHomeServerChapter),
}

/// A cached object and what it is related to.
pub struct ApiCacheEntry {
    pub value: CacheValue,
    pub relationships: Vec<(Uuid, RelationshipKind)>,
}

/// A cached object and what it is related to, as a mathematical value.
pub struct EntryView {
    pub value: CacheValue,
    /// The objects that this one is related to, each at most once.
    pub relationships: Seq<(Uuid, RelationshipKind)>,
}

/// The cache, as a mathematical value.
pub struct CacheView {
    /// The cached objects, by the value of their identifier.
    pub data: Map<u128, EntryView>,
    /// The times at which objects go out of date, by the value of their
    /// identifier.
    pub expires: Map<u128, u64>,
}

/// The mathematical value of an entry.
pub open spec fn entry_view(entry: ApiCacheEntry) -> EntryView {
    EntryView { value: entry.value, relationships: entry.relationships@ }
}

/// The position of the relationship to `to` in `relationships`, if there
/// is one.
pub open spec fn relation_at(relationships: Seq<(Uuid, RelationshipKind)>, to: Uuid) -> Option<int>
    decreases relationships.len(),
{
    if relationships.len() == 0 {
        None
    } else {
        match relation_at(relationships.drop_last(), to) {
            Some(at) => Some(at),
            None => if relationships.last().0 == to {
                Some(relationships.len() - 1)
            } else {
                None
            },
        }
    }
}

/// `relationships` with a relationship of kind `kind` to `to`, in place of
/// an earlier relationship to `to`.
pub open spec fn related(
    relationships: Seq<(Uuid, RelationshipKind)>,
    to: Uuid,
    kind: RelationshipKind,
) -> Seq<(Uuid, RelationshipKind)> {
    match relation_at(relationships, to) {
        Some(at) => relationships.update(at, (to, kind)),
        None => relationships.push((to, kind)),
    }
}

/// `relationships` without the relationship to `to`.
pub open spec fn unrelated(relationships: Seq<(Uuid, RelationshipKind)>, to: Uuid) -> Seq<
    (Uuid, RelationshipKind),
> {
    match relation_at(relationships, to) {
        Some(at) => relationships.remove(at),
        None => relationships,
    }
}

/// The objects to which `relationships` lead by a relationship of kind
/// `kind`, in order.
pub open spec fn related_by(relationships: Seq<(Uuid, RelationshipKind)>, kind: RelationshipKind) -> Seq<
    Uuid,
>
    decreases relationships.len(),
{
    if relationships.len() == 0 {
        Seq::empty()
    } else if relationships.last().1 == kind {
        related_by(relationships.drop_last(), kind).push(relationships.last().0)
    } else {
        related_by(relationships.drop_last(), kind)
    }
}

/// The cache with `value` under `id`, unrelated to anything, in place of
/// what was there; it goes out of date at `expire` where that is given.
pub open spec fn inserted(cache: CacheView, id: Uuid, value: CacheValue, expire: Option<u64>) -> CacheView {
    CacheView {
        data: cache.data.insert(id.value, EntryView { value, relationships: Seq::empty() }),
        expires: match expire {
            Some(at) => cache.expires.insert(id.value, at),
            None => cache.expires,
        },
    }
}

/// The cache without the object `id`.
pub open spec fn removed(cache: CacheView, id: Uuid) -> CacheView {
    CacheView { data: cache.data.remove(id.value), expires: cache.expires }
}

/// The cache with a relationship of kind `kind` from `a` to `b`. Nothing
/// changes where `a` is not cached.
pub open spec fn linked(cache: CacheView, a: Uuid, b: Uuid, kind: RelationshipKind) -> CacheView {
    if cache.data.contains_key(a.value) {
        CacheView {
            data: cache.data.insert(
                a.value,
                EntryView {
                    value: cache.data[a.value].value,
                    relationships: related(cache.data[a.value].relationships, b, kind),
                },
            ),
            expires: cache.expires,
        }
    } else {
        cache
    }
}

/// The cache without the relationship from `a` to `b`.
pub open spec fn unlinked(cache: CacheView, a: Uuid, b: Uuid) -> CacheView {
    if cache.data.contains_key(a.value) {
        CacheView {
            data: cache.data.insert(
                a.value,
                EntryView {
                    value: cache.data[a.value].value,
                    relationships: unrelated(cache.data[a.value].relationships, b),
                },
            ),
            expires: cache.expires,
        }
    } else {
        cache
    }
}

/// Whether the object `id` is out of date at the time `now`.
pub open spec fn out_of_date(cache: CacheView, id: Uuid, now: u64) -> bool {
    cache.expires.contains_key(id.value) && now > cache.expires[id.value]
}

/// The cache after the object `id` was asked for at the time `now`: an
/// object that is out of date is removed.
pub open spec fn after_get(cache: CacheView, id: Uuid, now: u64) -> CacheView {
    if out_of_date(cache, id, now) {
        removed(cache, id)
    } else {
        cache
    }
}

/// What is found under `id` at the time `now`.
pub open spec fn found(cache: CacheView, id: Uuid, now: u64) -> Option<CacheValue> {
    if !out_of_date(cache, id, now) && cache.data.contains_key(id.value) {
        Some(cache.data[id.value].value)
    } else {
        None
    }
}

/// The objects to which `id` is related by a relationship of kind `kind`;
/// nothing where `id` is not cached.
pub open spec fn linked_to(cache: CacheView, id: Uuid, kind: RelationshipKind) -> Option<Seq<Uuid>> {
    if cache.data.contains_key(id.value) {
        Some(related_by(cache.data[id.value].relationships, kind))
    } else {
        None
    }
}

/// The position of a relationship that is found first in a part of a list
/// is its position in the whole.
pub proof fn lemma_relation_at_prefix(
    relationships: Seq<(Uuid, RelationshipKind)>,
    to: Uuid,
    n: int,
)
    requires
        0 <= n <= relationships.len(),
        relation_at(relationships.subrange(0, n), to) is Some,
    ensures
        relation_at(relationships, to) == relation_at(relationships.subrange(0, n), to),
    decreases relationships.len() - n,
{
    if n < relationships.len() {
        assert(relationships.subrange(0, n + 1).drop_last() =~= relationships.subrange(0, n));
        lemma_relation_at_prefix(relationships, to, n + 1);
    } else {
        assert(relationships.subrange(0, n) =~= relationships);
    }
}

/// The position of the relationship to `to` in `relationships`.
fn find_relation(relationships: &Vec<(Uuid, RelationshipKind)>, to: Uuid) -> (at: Option<usize>)
    ensures
        match at {
            Some(i) => relation_at(relationships@, to) == Some(i as int) && i
                < relationships@.len(),
            None => relation_at(relationships@, to) is None,
        },
{
    let mut i: usize = 0;
    while i < relationships.len()
        invariant
            i <= relationships@.len(),
            relation_at(relationships@.subrange(0, i as int), to) is None,
        decreases relationships@.len() - i,
    {
        assert(relationships@.subrange(0, i + 1).drop_last() =~= relationships@.subrange(
            0,
            i as int,
        ));
        if relationships[i].0 == to {
            proof {
                lemma_relation_at_prefix(relationships@, to, i + 1);
            }
            return Some(i);
        }
        i += 1;
    }
    assert(relationships@.subrange(0, i as int) =~= relationships@);
    None
}

/// A cache of objects of the service, with directed relationships.
pub struct ApiCache {
    data: HashMap<u128, ApiCacheEntry>,
    expiration_dates: HashMap<u128, u64>,
}

impl View for ApiCache {
    type V = CacheView;

    closed spec fn view(&self) -> CacheView {
        CacheView {
            data: self.data@.map_values(|entry: ApiCacheEntry| entry_view(entry)),
            expires: self.expiration_dates@,
        }
    }
}

impl ApiCache {
    /// An empty cache.
    pub fn new() -> (cache: Self)
        ensures
            cache@.data == Map::<u128, EntryView>::empty(),
            cache@.expires == Map::<u128, u64>::empty(),
    {
        let cache = ApiCache { data: HashMap::new(), expiration_dates: HashMap::new() };
        assert(cache@.data =~= Map::<u128, EntryView>::empty());
        cache
    }

    /// Puts `value` into the cache under `uuid`, unrelated to anything, in
    /// place of what was there. It goes out of date at `expire` where that
    /// is given.
    pub fn insert(&mut self, uuid: Uuid, value: CacheValue, expire: Option<u64>)
        ensures
            final(self)@ == inserted(old(self)@, uuid, value, expire),
    {
        self.data.insert(uuid.value, ApiCacheEntry { value, relationships: Vec::new() });
        if let Some(at) = expire {
            self.expiration_dates.insert(uuid.value, at);
        }
        assert(self@.data =~= inserted(old(self)@, uuid, value, expire).data);
    }

    /// Removes the object `uuid` from the cache.
    pub fn remove(&mut self, uuid: &Uuid)
        ensures
            final(self)@ == removed(old(self)@, *uuid),
    {
        self.data.remove(&uuid.value);
        assert(self@.data =~= removed(old(self)@, *uuid).data);
    }

    /// Adds a relationship of kind `kind` from `a` to `b`, in place of an
    /// earlier relationship from `a` to `b`. Nothing changes where `a` is
    /// not cached.
    pub fn link(&mut self, a: &Uuid, b: &Uuid, kind: RelationshipKind)
        ensures
            final(self)@ == linked(old(self)@, *a, *b, kind),
    {
        match self.data.remove(&a.value) {
            Some(entry) => {
                let mut relationships = entry.relationships;
                match find_relation(&relationships, *b) {
                    Some(at) => {
                        relationships.set(at, (*b, kind));
                    },
                    None => {
                        relationships.push((*b, kind));
                    },
                }
                self.data.insert(a.value, ApiCacheEntry { value: entry.value, relationships });
                assert(self@.data =~= linked(old(self)@, *a, *b, kind).data);
            },
            None => {
                assert(self@.data =~= old(self)@.data);
            },
        }
    }

    /// Removes the relationship from `a` to `b`.
    pub fn unlink(&mut self, a: &Uuid, b: &Uuid)
        ensures
            final(self)@ == unlinked(old(self)@, *a, *b),
    {
        match self.data.remove(&a.value) {
            Some(entry) => {
                let mut relationships = entry.relationships;
                match find_relation(&relationships, *b) {
                    Some(at) => {
                        relationships.remove(at);
                    },
                    None => {},
                }
                self.data.insert(a.value, ApiCacheEntry { value: entry.value, relationships });
                assert(self@.data =~= unlinked(old(self)@, *a, *b).data);
            },
            None => {
                assert(self@.data =~= old(self)@.data);
            },
        }
    }

    /// Removes the object `uuid` if it is out of date at the time `now`,
    /// and says whether it was.
    pub fn expire(&mut self, uuid: &Uuid, now: u64) -> (gone: bool)
        ensures
            gone == out_of_date(old(self)@, *uuid, now),
            final(self)@ == after_get(old(self)@, *uuid, now),
    {
        let gone = match self.expiration_dates.get(&uuid.value) {
            Some(at) => now > *at,
            None => false,
        };
        if gone {
            self.remove(uuid);
        }
        gone
    }

    /// What is cached under `uuid`, whatever its age.
    pub fn peek(&self, uuid: &Uuid) -> (value: Option<&CacheValue>)
        ensures
            match value {
                Some(v) => self@.data.contains_key(uuid.value) && *v == self@.data[uuid.value].value,
                None => !self@.data.contains_key(uuid.value),
            },
    {
        match self.data.get(&uuid.value) {
            Some(entry) => Some(&entry.value),
            None => None,
        }
    }

    /// What is cached under `uuid` at the time `now`. An object that is out
    /// of date is removed and not found.
    pub fn get(&mut self, uuid: &Uuid, now: u64) -> (value: Option<&CacheValue>)
        ensures
            final(self)@ == after_get(old(self)@, *uuid, now),
            match found(old(self)@, *uuid, now) {
                Some(v) => value is Some && *value->0 == v,
                None => value is None,
            },
    {
        if self.expire(uuid, now) {
            return None;
        }
        self.peek(uuid)
    }

    /// The objects to which `uuid` is related by a relationship of kind
    /// `kind`, in the order in which they were first linked; nothing where
    /// `uuid` is not cached.
    pub fn get_linked(&self, uuid: &Uuid, kind: RelationshipKind) -> (ids: Option<Vec<Uuid>>)
        ensures
            match linked_to(self@, *uuid, kind) {
                Some(expected) => ids is Some && ids->0@ == expected,
                None => ids is None,
            },
    {
        match self.data.get(&uuid.value) {
            Some(entry) => {
                let mut ids: Vec<Uuid> = Vec::new();
                let mut i: usize = 0;
                while i < entry.relationships.len()
                    invariant
                        i <= entry.relationships@.len(),
                        ids@ == related_by(entry.relationships@.subrange(0, i as int), kind),
                    decreases entry.relationships@.len() - i,
                {
                    assert(entry.relationships@.subrange(0, i + 1).drop_last()
                        =~= entry.relationships@.subrange(0, i as int));
                    if entry.relationships[i].1 == kind {
                        ids.push(entry.relationships[i].0);
                    }
                    i += 1;
                }
                assert(entry.relationships@.subrange(0, i as int) =~= entry.relationships@);
                Some(ids)
            },
            None => None,
        }
    }

    /// Removes every object. The times at which objects go out of date
    /// stay.
    pub fn clear(&mut self)
        ensures
            final(self)@ == (CacheView {
                data: Map::<u128, EntryView>::empty(),
                expires: old(self)@.expires,
            }),
    {
        self.data.clear();
        assert(self@.data =~= Map::<u128, EntryView>::empty());
    }
}

} // verus!
