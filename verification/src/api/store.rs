//! How what the service sends is put into the cache.

use vstd::prelude::*;
use crate::api::cache::{inserted, linked, ApiCache, CacheValue, CacheView};
use crate::api::ids::Uuid;
use crate::api::structs::json::data::{Chapter, Relationship, RelationshipKind, Tag, Wrapper};
use crate::api::structs::json::responses::{
    AtHomeServer, ChapterView, MangaFeed, MangaList, MangaView,
};
use crate::api::structs::{kept_manga, AtHomeServerChapter, Manga};

verus! {

/// For how many seconds the record of where a chapter is served is good.
pub const AT_HOME_SECONDS: u64 = 900;

/// The cache once the object `id` is linked to each of `relationships`,
/// in order, and, where `back` names a kind, each of them back to `id` by
/// a relationship of that kind.
pub open spec fn relations_stored(
    cache: CacheView,
    id: Uuid,
    relationships: Seq<Relationship>,
    back: Option<RelationshipKind>,
) -> CacheView
    decreases relationships.len(),
{
    if relationships.len() == 0 {
        cache
    } else {
        let before = relations_stored(cache, id, relationships.drop_last(), back);
        let forth = linked(before, id, relationships.last().id, relationships.last().kind);
        match back {
            Some(kind) => linked(forth, relationships.last().id, id, kind),
            None => forth,
        }
    }
}

/// The cache once each of `tags` is cached and linked with the manga `id`,
/// both ways.
pub open spec fn tags_stored(cache: CacheView, id: Uuid, tags: Seq<Wrapper<Tag>>) -> CacheView
    decreases tags.len(),
{
    if tags.len() == 0 {
        cache
    } else {
        let before = tags_stored(cache, id, tags.drop_last());
        let tag = tags.last();
        linked(
            linked(
                inserted(before, tag.id, CacheValue::Tag(tag.attributes), None),
                id,
                tag.id,
                RelationshipKind::Tag,
            ),
            tag.id,
            id,
            RelationshipKind::Manga,
        )
    }
}

/// The cache once the manga `manga` is cached under `id` with its tags
/// and its relationships.
pub open spec fn manga_stored(
    cache: CacheView,
    id: Uuid,
    manga: Manga,
    tags: Seq<Wrapper<Tag>>,
    relationships: Seq<Relationship>,
) -> CacheView {
    relations_stored(
        tags_stored(inserted(cache, id, CacheValue::Manga(manga), None), id, tags),
        id,
        relationships,
        None,
    )
}

/// The cache once the chapter `chapter` is cached under `id` and linked
/// with what it is related to, both ways.
pub open spec fn chapter_stored(
    cache: CacheView,
    id: Uuid,
    chapter: Chapter,
    relationships: Seq<Relationship>,
) -> CacheView {
    relations_stored(
        inserted(cache, id, CacheValue::Chapter(chapter), None),
        id,
        relationships,
        Some(RelationshipKind::Chapter),
    )
}

/// The time at which a record that was made at `now` goes out of date.
pub open spec fn at_home_expiry(now: u64) -> u64 {
    if now + AT_HOME_SECONDS <= u64::MAX {
        (now + AT_HOME_SECONDS) as u64
    } else {
        u64::MAX
    }
}

/// The cache once the record `record` of where the chapter `chapter` is
/// served is cached under `id` at the time `now` and linked with the
/// chapter, both ways.
pub open spec fn at_home_stored(
    cache: CacheView,
    id: Uuid,
    chapter: Uuid,
    record: AtHomeServerChapter,
    now: u64,
) -> CacheView {
    linked(
        linked(
            inserted(cache, id, CacheValue::AtHome(record), Some(at_home_expiry(now))),
            chapter,
            id,
            RelationshipKind::AtHome,
        ),
        id,
        chapter,
        RelationshipKind::Chapter,
    )
}

/// Links the object `id` to each of `relationships`, and each of them back
/// where `back` names a kind.
fn store_relations(
    cache: &mut ApiCache,
    id: Uuid,
    relationships: &Vec<Relationship>,
    back: Option<RelationshipKind>,
)
    ensures
        final(cache)@ == relations_stored(old(cache)@, id, relationships@, back),
{
    let mut i: usize = 0;
    assert(relationships@.subrange(0, 0) =~= Seq::<Relationship>::empty());
    while i < relationships.len()
        invariant
            i <= relationships@.len(),
            cache@ == relations_stored(old(cache)@, id, relationships@.subrange(0, i as int), back),
        decreases relationships@.len() - i,
    {
        let relationship = relationships[i];
        assert(relationships@.subrange(0, i + 1).drop_last() =~= relationships@.subrange(
            0,
            i as int,
        ));
        cache.link(&id, &relationship.id, relationship.kind);
        if let Some(kind) = back {
            cache.link(&relationship.id, &id, kind);
        }
        i += 1;
    }
    assert(relationships@.subrange(0, i as int) =~= relationships@);
}

/// Caches the manga `manga` under `id`, with its tags and its
/// relationships.
pub fn store_manga(
    cache: &mut ApiCache,
    id: Uuid,
    manga: Manga,
    tags: Vec<Wrapper<Tag>>,
    relationships: &Vec<Relationship>,
)
    ensures
        final(cache)@ == manga_stored(old(cache)@, id, manga, tags@, relationships@),
{
    cache.insert(id, CacheValue::Manga(manga), None);
    let ghost with_manga = cache@;
    let ghost all = tags@;
    let mut tags = tags;
    let mut done: Ghost<int> = Ghost(0);
    assert(all.subrange(0, 0) =~= Seq::<Wrapper<Tag>>::empty());
    while tags.len() > 0
        invariant
            0 <= done@ <= all.len(),
            tags@ == all.subrange(done@, all.len() as int),
            cache@ == tags_stored(with_manga, id, all.subrange(0, done@)),
        decreases tags@.len(),
    {
        let tag = tags.remove(0);
        assert(tag == all[done@]);
        assert(all.subrange(0, done@ + 1).drop_last() =~= all.subrange(0, done@));
        cache.insert(tag.id, CacheValue::Tag(tag.attributes), None);
        cache.link(&id, &tag.id, RelationshipKind::Tag);
        cache.link(&tag.id, &id, RelationshipKind::Manga);
        proof {
            done@ = done@ + 1;
        }
        assert(tags@ =~= all.subrange(done@, all.len() as int));
    }
    assert(all.subrange(0, done@) =~= all);
    store_relations(cache, id, relationships, None);
}

impl MangaView {
    /// Caches the manga with its tags and its relationships, and returns
    /// its identifier.
    pub fn store(self, cache: &mut ApiCache) -> (id: Uuid)
        ensures
            id == self.data.id,
            final(cache)@ == manga_stored(
                old(cache)@,
                self.data.id,
                kept_manga(self.data.attributes),
                self.data.attributes.tags@,
                self.data.relationships@,
            ),
    {
        let id = self.data.id;
        let relationships = self.data.relationships;
        let (manga, tags) = Manga::split(self.data.attributes);
        store_manga(cache, id, manga, tags, &relationships);
        id
    }
}

impl ChapterView {
    /// Caches the chapter, links it with what it is related to, both
    /// ways, and returns its identifier.
    pub fn store(self, cache: &mut ApiCache) -> (id: Uuid)
        ensures
            id == self.data.id,
            final(cache)@ == chapter_stored(
                old(cache)@,
                self.data.id,
                self.data.attributes,
                self.data.relationships@,
            ),
    {
        let id = self.data.id;
        cache.insert(id, CacheValue::Chapter(self.data.attributes), None);
        store_relations(cache, id, &self.data.relationships, Some(RelationshipKind::Chapter));
        id
    }
}

/// The identifiers of `items`, in order.
pub open spec fn ids_of<T>(items: Seq<Wrapper<T>>) -> Seq<Uuid> {
    items.map_values(|item: Wrapper<T>| id_of(item))
}

/// The identifier of `item`.
pub open spec fn id_of<T>(item: Wrapper<T>) -> Uuid {
    item.id
}

/// The cache once each of `chapters` is cached, in order.
pub open spec fn chapters_stored(cache: CacheView, chapters: Seq<Wrapper<Chapter>>) -> CacheView
    decreases chapters.len(),
{
    if chapters.len() == 0 {
        cache
    } else {
        chapter_stored(
            chapters_stored(cache, chapters.drop_last()),
            chapters.last().id,
            chapters.last().attributes,
            chapters.last().relationships@,
        )
    }
}

impl MangaFeed {
    /// Caches every chapter of the page and returns their identifiers, in
    /// order.
    pub fn store(self, cache: &mut ApiCache) -> (ids: Vec<Uuid>)
        ensures
            ids@ == ids_of(self.data@),
            final(cache)@ == chapters_stored(old(cache)@, self.data@),
    {
        let ghost all = self.data@;
        let mut rest = self.data;
        let mut ids: Vec<Uuid> = Vec::new();
        assert(all.subrange(0, 0) =~= Seq::<Wrapper<Chapter>>::empty());
        while rest.len() > 0
            invariant
                ids@.len() <= all.len(),
                rest@ == all.subrange(ids@.len() as int, all.len() as int),
                ids@ == ids_of(all.subrange(0, ids@.len() as int)),
                cache@ == chapters_stored(old(cache)@, all.subrange(0, ids@.len() as int)),
            decreases rest@.len(),
        {
            let ghost done = ids@.len() as int;
            let chapter = rest.remove(0);
            assert(chapter == all[done]);
            assert(all.subrange(0, done + 1).drop_last() =~= all.subrange(0, done));
            ids.push(chapter.id);
            ChapterView { data: chapter }.store(cache);
            assert(rest@ =~= all.subrange(done + 1, all.len() as int));
            assert(ids@ =~= ids_of(all.subrange(0, done + 1)));
        }
        assert(all.subrange(0, ids@.len() as int) =~= all);
        ids
    }
}

/// The cache once each of `mangas` is cached, in order.
pub open spec fn mangas_stored(
    cache: CacheView,
    mangas: Seq<Wrapper<crate::api::structs::json::data::Manga>>,
) -> CacheView
    decreases mangas.len(),
{
    if mangas.len() == 0 {
        cache
    } else {
        manga_stored(
            mangas_stored(cache, mangas.drop_last()),
            mangas.last().id,
            kept_manga(mangas.last().attributes),
            mangas.last().attributes.tags@,
            mangas.last().relationships@,
        )
    }
}

impl MangaList {
    /// Caches every manga of the page and returns their identifiers, in
    /// order.
    pub fn store(self, cache: &mut ApiCache) -> (ids: Vec<Uuid>)
        ensures
            ids@ == ids_of(self.data@),
            final(cache)@ == mangas_stored(old(cache)@, self.data@),
    {
        let ghost all = self.data@;
        let mut rest = self.data;
        let mut ids: Vec<Uuid> = Vec::new();
        assert(all.subrange(0, 0) =~= Seq::<Wrapper<crate::api::structs::json::data::Manga>>::empty());
        while rest.len() > 0
            invariant
                ids@.len() <= all.len(),
                rest@ == all.subrange(ids@.len() as int, all.len() as int),
                ids@ == ids_of(all.subrange(0, ids@.len() as int)),
                cache@ == mangas_stored(old(cache)@, all.subrange(0, ids@.len() as int)),
            decreases rest@.len(),
        {
            let ghost done = ids@.len() as int;
            let manga = rest.remove(0);
            assert(manga == all[done]);
            assert(all.subrange(0, done + 1).drop_last() =~= all.subrange(0, done));
            ids.push(manga.id);
            MangaView { data: manga }.store(cache);
            assert(rest@ =~= all.subrange(done + 1, all.len() as int));
            assert(ids@ =~= ids_of(all.subrange(0, done + 1)));
        }
        assert(all.subrange(0, ids@.len() as int) =~= all);
        ids
    }
}

/// The record that is kept of the answer `answer`.
pub open spec fn record_of(answer: AtHomeServer) -> AtHomeServerChapter {
    AtHomeServerChapter {
        base_url: answer.base_url,
        data: answer.chapter.data,
        data_saver: answer.chapter.data_saver,
        hash: answer.chapter.hash,
    }
}

/// The cache once the answer `answer` is cached under `id` at the time
/// `now`: nothing changes where the answer does not say which chapter it
/// is about.
pub open spec fn answer_stored(cache: CacheView, answer: AtHomeServer, id: Uuid, now: u64) -> CacheView {
    match answer.chapter_id {
        Some(chapter) => at_home_stored(cache, id, chapter, record_of(answer), now),
        None => cache,
    }
}

impl AtHomeServer {
    /// Caches, under `id` and at the time `now`, the record of where the
    /// chapter is served, and links it with the chapter, both ways. The
    /// record is good for fifteen minutes. Nothing is cached where the
    /// answer does not say which chapter it is about.
    pub fn store_as(self, cache: &mut ApiCache, id: Uuid, now: u64) -> (stored: bool)
        ensures
            stored == (self.chapter_id is Some),
            final(cache)@ == answer_stored(old(cache)@, self, id, now),
    {
        match self.chapter_id {
            Some(chapter) => {
                let record = AtHomeServerChapter {
                    base_url: self.base_url,
                    data: self.chapter.data,
                    data_saver: self.chapter.data_saver,
                    hash: self.chapter.hash,
                };
                let expire: u64 = if now <= u64::MAX - AT_HOME_SECONDS {
                    now + AT_HOME_SECONDS
                } else {
                    u64::MAX
                };
                cache.insert(id, CacheValue::AtHome(record), Some(expire));
                cache.link(&chapter, &id, RelationshipKind::AtHome);
                cache.link(&id, &chapter, RelationshipKind::Chapter);
                true
            },
            None => false,
        }
    }

    /// Caches the record under a fresh identifier, which is returned.
    /// Nothing is cached, and nothing returned, where the answer does not
    /// say which chapter it is about.
    pub fn store(self, cache: &mut ApiCache, now: u64) -> (id: Option<Uuid>)
        ensures
            id is Some == (self.chapter_id is Some),
            match id {
                Some(fresh) => final(cache)@ == answer_stored(old(cache)@, self, fresh, now),
                None => final(cache)@ == old(cache)@,
            },
    {
        let fresh = Uuid::new_v4();
        if self.store_as(cache, fresh, now) {
            Some(fresh)
        } else {
            None
        }
    }
}

} // verus!
