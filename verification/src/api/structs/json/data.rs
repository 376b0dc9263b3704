//! The objects of the content service.

use vstd::prelude::*;
use vstd::string::StringExecFns;
use crate::api::ids::Uuid;
use crate::api::structs::lang_codes::LanguageCode;

verus! {

/// For whom a manga is published.
#[derive(Clone, Copy, Debug, PartialEq, Eq, Structural)]
pub enum PublicationDemographic {
    Shounen,
    Shoujo,
    Josei,
    Seinen,
}

/// How explicit a manga is.
#[derive(Clone, Copy, Debug, PartialEq, Eq, Structural)]
pub enum ContentRating {
    Safe,
    Suggestive,
    Erotica,
    Pornographic,
}

/// Where a manga stands in the review of the service.
#[derive(Clone, Copy, Debug, PartialEq, Eq, Structural)]
pub enum MangaState {
    Draft,
    Submitted,
    Published,
    Rejected,
}

/// Whether a manga still comes out.
#[derive(Clone, Copy, Debug, PartialEq, Eq, Structural)]
pub enum MangaStatus {
    Ongoing,
    Completed,
    Hiatus,
    Cancelled,
}

/// What kind of object a relationship leads to.
#[derive(Clone, Copy, Debug, PartialEq, Eq, Structural)]
pub enum RelationshipKind {
    Manga,
    Chapter,
    CoverArt,
    Author,
    Artist,
    ScanlationGroup,
    Tag,
    User,
    CustomList,
    /// Not a kind of the service: leads from a chapter to the record of
    /// where its pages are served.
    AtHome,
}

/// How a manga is related to another.
#[derive(Clone, Copy, Debug, PartialEq, Eq, Structural)]
pub enum RelatedManga {
    Monochrome,
    Colored,
    Preserialization,
    Serialization,
    Prequel,
    Sequel,
    MainStory,
    SideStory,
    AdaptedFrom,
    SpinOff,
    BasedOn,
    Doujinshi,
    SameFranchise,
    SharedUniverse,
    AlternateStory,
    AlternateVersion,
}

impl PublicationDemographic {
    /// The name of the demographic as the service spells it.
    pub open spec fn name(self) -> Seq<char> {
        match self {
            PublicationDemographic::Shounen => "shounen"@,
            PublicationDemographic::Shoujo => "shoujo"@,
            PublicationDemographic::Josei => "josei"@,
            PublicationDemographic::Seinen => "seinen"@,
        }
    }

    /// The name of the demographic as the service spells it.
    pub fn to_string(&self) -> (text: String)
        ensures
            text@ == self.name(),
    {
        match self {
            PublicationDemographic::Shounen => String::from_str("shounen"),
            PublicationDemographic::Shoujo => String::from_str("shoujo"),
            PublicationDemographic::Josei => String::from_str("josei"),
            PublicationDemographic::Seinen => String::from_str("seinen"),
        }
    }
}

impl ContentRating {
    /// The name of the rating as the service spells it.
    pub open spec fn name(self) -> Seq<char> {
        match self {
            ContentRating::Safe => "safe"@,
            ContentRating::Suggestive => "suggestive"@,
            ContentRating::Erotica => "erotica"@,
            ContentRating::Pornographic => "pornographic"@,
        }
    }

    /// The name of the rating as the service spells it.
    pub fn to_string(&self) -> (text: String)
        ensures
            text@ == self.name(),
    {
        match self {
            ContentRating::Safe => String::from_str("safe"),
            ContentRating::Suggestive => String::from_str("suggestive"),
            ContentRating::Erotica => String::from_str("erotica"),
            ContentRating::Pornographic => String::from_str("pornographic"),
        }
    }
}

impl MangaStatus {
    /// The name of the status as the service spells it.
    pub open spec fn name(self) -> Seq<char> {
        match self {
            MangaStatus::Ongoing => "ongoing"@,
            MangaStatus::Completed => "completed"@,
            MangaStatus::Hiatus => "hiatus"@,
            MangaStatus::Cancelled => "cancelled"@,
        }
    }

    /// The name of the status as the service spells it.
    pub fn to_string(&self) -> (text: String)
        ensures
            text@ == self.name(),
    {
        match self {
            MangaStatus::Ongoing => String::from_str("ongoing"),
            MangaStatus::Completed => String::from_str("completed"),
            MangaStatus::Hiatus => String::from_str("hiatus"),
            MangaStatus::Cancelled => String::from_str("cancelled"),
        }
    }
}

/// Most objects of the service come wrapped like this: an identifier, the
/// object's own attributes, and what the object is related to.
#[derive(Clone, Debug, PartialEq, Eq)]
pub struct Wrapper<T> {
    pub id: Uuid,
    pub attributes: T,
    pub relationships: Vec<Relationship>,
}

/// A relationship to another object; `related` is filled only when that
/// object is a manga.
#[derive(Clone, Copy, Debug, PartialEq, Eq, Structural)]
pub struct Relationship {
    pub id: Uuid,
    pub kind: RelationshipKind,
    pub related: Option<RelatedManga>,
}

/// A text in several languages, not always the same ones. A language
/// occurs at most once in a text that was read from the service.
#[derive(Clone, Debug, PartialEq, Eq)]
pub struct LocalizedString(pub Vec<(LanguageCode, String)>);

/// The position of the first text of `entries` whose language has the
/// code `code`, if there is one.
pub open spec fn first_in(entries: Seq<(LanguageCode, String)>, code: Seq<char>) -> Option<int>
    decreases entries.len(),
{
    if entries.len() == 0 {
        None
    } else {
        match first_in(entries.drop_last(), code) {
            Some(at) => Some(at),
            None => if entries.last().0.text() == code {
                Some(entries.len() - 1)
            } else {
                None
            },
        }
    }
}

impl LocalizedString {
    /// The texts with their languages.
    pub open spec fn entries(self) -> Seq<(LanguageCode, String)> {
        self.0@
    }

    /// The text in the language `lang`, if there is one.
    pub fn get(&self, lang: &LanguageCode) -> (text: Option<String>)
        ensures
            match first_in(self.entries(), lang.text()) {
                Some(at) => text == Some(self.entries()[at].1),
                None => text is None,
            },
    {
        let wanted = lang.code();
        let mut i: usize = 0;
        while i < self.0.len()
            invariant
                i <= self.0@.len(),
                wanted@ == lang.text(),
                first_in(self.0@.subrange(0, i as int), lang.text()) is None,
            decreases self.0@.len() - i,
        {
            let code = self.0[i].0.code();
            assert(self.0@.subrange(0, i + 1).drop_last() =~= self.0@.subrange(0, i as int));
            if code == wanted {
                proof {
                    lemma_first_in_prefix(self.0@, lang.text(), i + 1);
                }
                return Some(self.0[i].1.clone());
            }
            i += 1;
        }
        assert(self.0@.subrange(0, i as int) =~= self.0@);
        None
    }

    /// The text in the first language, or the empty text where there is
    /// none.
    pub fn any(&self) -> (text: String)
        ensures
            self.entries().len() > 0 ==> text == self.entries()[0].1,
            self.entries().len() == 0 ==> text@ == Seq::<char>::empty(),
    {
        if self.0.len() > 0 {
            self.0[0].1.clone()
        } else {
            String::new()
        }
    }

    /// The text in the language `lang`, or in the first language where
    /// there is none in `lang`.
    pub fn get_or_any(&self, lang: &LanguageCode) -> (text: String)
        ensures
            match first_in(self.entries(), lang.text()) {
                Some(at) => text == self.entries()[at].1,
                None => if self.entries().len() > 0 {
                    text == self.entries()[0].1
                } else {
                    text@ == Seq::<char>::empty()
                },
            },
    {
        match self.get(lang) {
            Some(text) => text,
            None => self.any(),
        }
    }
}

/// What is found first in a part of a list is found first in the whole.
pub proof fn lemma_first_in_prefix(entries: Seq<(LanguageCode, String)>, code: Seq<char>, n: int)
    requires
        0 <= n <= entries.len(),
        first_in(entries.subrange(0, n), code) is Some,
    ensures
        first_in(entries, code) == first_in(entries.subrange(0, n), code),
    decreases entries.len() - n,
{
    if n < entries.len() {
        assert(entries.subrange(0, n + 1).drop_last() =~= entries.subrange(0, n));
        lemma_first_in_prefix(entries, code, n + 1);
    } else {
        assert(entries.subrange(0, n) =~= entries);
    }
}

/// Where else a manga can be found.
#[derive(Clone, Debug, PartialEq, Eq)]
pub struct MangaAttributesLinks {
    pub anilist: Option<String>,
    pub animeplanet: Option<String>,
    pub bookwalker: Option<String>,
    pub mangaupdates: Option<String>,
    pub novelupdates: Option<String>,
    pub kitsu: Option<String>,
    pub amazon: Option<String>,
    pub ebookjapan: Option<String>,
    pub myanimelist: Option<String>,
    pub cd_japan: Option<String>,
    pub raw: Option<String>,
    pub engtl: Option<String>,
    /// Links under other names, by name.
    pub other: Vec<(String, String)>,
}

/// A tag.
#[derive(Clone, Debug, PartialEq, Eq)]
pub struct Tag {
    pub name: LocalizedString,
    pub group: String,
    pub version: i32,
}

/// A manga, as the service sends it.
#[derive(Clone, Debug, PartialEq, Eq)]
pub struct Manga {
    pub title: LocalizedString,
    pub alt_titles: Vec<LocalizedString>,
    pub description: LocalizedString,
    pub is_locked: bool,
    pub links: MangaAttributesLinks,
    pub original_language: String,
    pub last_volume: Option<String>,
    pub last_chapter: Option<String>,
    pub publication_demographic: Option<PublicationDemographic>,
    pub status: Option<MangaStatus>,
    pub year: Option<i32>,
    pub content_rating: ContentRating,
    pub chapter_numbers_reset_on_new_volume: bool,
    pub state: MangaState,
    pub version: i32,
    pub created_at: String,
    pub updated_at: String,
    pub tags: Vec<Wrapper<Tag>>,
}

/// A chapter.
#[derive(Clone, Debug, PartialEq, Eq)]
pub struct Chapter {
    pub title: Option<String>,
    pub volume: Option<String>,
    pub chapter: Option<String>,
    pub pages: i32,
    pub translated_language: LanguageCode,
    pub uploader: Option<Uuid>,
    pub external_url: Option<String>,
    pub version: i32,
    pub created_at: String,
    pub updated_at: String,
    pub publish_at: String,
    pub readable_at: String,
}

/// The files of a chapter on the server that serves them.
#[derive(Clone, Debug, PartialEq, Eq)]
pub struct AtHomeServerChapter {
    pub hash: String,
    pub data: Vec<String>,
    pub data_saver: Vec<String>,
}

} // verus!
