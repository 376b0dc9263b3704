//! The data of the content service, and the filter by which mangas are
//! searched.

pub mod json;
pub mod lang_codes;

use vstd::prelude::*;
use vstd::string::StringExecFns;
use crate::api::ids::{uuid_text, Uuid};
use crate::api::request::{
    list_entries, object_entries, pair_views, string_views, ApiRequestQuery,
};
use crate::api::structs::json::data::{
    ContentRating, LocalizedString, MangaAttributesLinks, MangaState, MangaStatus,
    PublicationDemographic,
};
use crate::api::structs::lang_codes::LanguageCode;
use crate::text::{push_signed, signed_decimal};

verus! {

/// The text that `chrono` makes of the time `seconds` seconds after the
/// start of 1970, with the format `%Y-%m-%dT%H:%M:%S`; nothing where the
/// time lies outside the years that `chrono` knows.
pub uninterp spec fn timestamp_text(seconds: i64) -> Option<Seq<char>>;

/// `chrono::DateTime::from_timestamp`, then `format` with
/// `%Y-%m-%dT%H:%M:%S`: the date and the time of day of a time that is
/// given in seconds since the start of 1970, in universal time.
#[verifier::external_body]
fn format_timestamp(seconds: i64) -> (text: Option<String>)
    ensures
        match timestamp_text(seconds) {
            Some(expected) => text is Some && text->0@ == expected,
            None => text is None,
        },
{
    match chrono::DateTime::from_timestamp(seconds, 0) {
        Some(time) => Some(time.format("%Y-%m-%dT%H:%M:%S").to_string()),
        None => None,
    }
}

/// Something that has a name under which the service knows it.
pub trait Named {
    /// The name.
    spec fn name_text(&self) -> Seq<char>;

    /// The name.
    fn name_string(&self) -> (name: String)
        ensures
            name@ == self.name_text(),
    ;
}

/// Whether all of the named tags count, or any of them.
#[derive(Clone, Copy, Debug, PartialEq, Eq, Structural)]
pub enum IncludeMode {
    And,
    Or,
}

/// In which direction a list is sorted.
#[derive(Clone, Copy, Debug, PartialEq, Eq, Structural)]
pub enum MangaListOrder {
    Asc,
    Desc,
}

/// By what a list of mangas is sorted.
#[derive(Clone, Copy, Debug, PartialEq, Eq, Structural, Hash)]
pub enum MangaListOrderCriteria {
    Title,
    Year,
    CreatedAt,
    UpdatedAt,
    LatestUploadedChapter,
    FollowedCount,
    Relevance,
}

impl Named for IncludeMode {
    open spec fn name_text(&self) -> Seq<char> {
        match *self {
            IncludeMode::And => "AND"@,
            IncludeMode::Or => "OR"@,
        }
    }

    fn name_string(&self) -> (name: String) {
        match self {
            IncludeMode::And => String::from_str("AND"),
            IncludeMode::Or => String::from_str("OR"),
        }
    }
}

impl Named for MangaListOrder {
    open spec fn name_text(&self) -> Seq<char> {
        match *self {
            MangaListOrder::Asc => "asc"@,
            MangaListOrder::Desc => "desc"@,
        }
    }

    fn name_string(&self) -> (name: String) {
        match self {
            MangaListOrder::Asc => String::from_str("asc"),
            MangaListOrder::Desc => String::from_str("desc"),
        }
    }
}

impl Named for MangaListOrderCriteria {
    open spec fn name_text(&self) -> Seq<char> {
        match *self {
            MangaListOrderCriteria::Title => "title"@,
            MangaListOrderCriteria::Year => "year"@,
            MangaListOrderCriteria::CreatedAt => "createdAt"@,
            MangaListOrderCriteria::UpdatedAt => "updatedAt"@,
            MangaListOrderCriteria::LatestUploadedChapter => "latestUploadedChapter"@,
            MangaListOrderCriteria::FollowedCount => "followedCount"@,
            MangaListOrderCriteria::Relevance => "relevance"@,
        }
    }

    fn name_string(&self) -> (name: String) {
        match self {
            MangaListOrderCriteria::Title => String::from_str("title"),
            MangaListOrderCriteria::Year => String::from_str("year"),
            MangaListOrderCriteria::CreatedAt => String::from_str("createdAt"),
            MangaListOrderCriteria::UpdatedAt => String::from_str("updatedAt"),
            MangaListOrderCriteria::LatestUploadedChapter => String::from_str(
                "latestUploadedChapter",
            ),
            MangaListOrderCriteria::FollowedCount => String::from_str("followedCount"),
            MangaListOrderCriteria::Relevance => String::from_str("relevance"),
        }
    }
}

impl Named for Uuid {
    open spec fn name_text(&self) -> Seq<char> {
        uuid_text(self.value)
    }

    fn name_string(&self) -> (name: String) {
        self.to_string()
    }
}

impl Named for MangaStatus {
    open spec fn name_text(&self) -> Seq<char> {
        self.name()
    }

    fn name_string(&self) -> (name: String) {
        self.to_string()
    }
}

impl Named for PublicationDemographic {
    open spec fn name_text(&self) -> Seq<char> {
        self.name()
    }

    fn name_string(&self) -> (name: String) {
        self.to_string()
    }
}

impl Named for ContentRating {
    open spec fn name_text(&self) -> Seq<char> {
        self.name()
    }

    fn name_string(&self) -> (name: String) {
        self.to_string()
    }
}

impl Named for LanguageCode {
    open spec fn name_text(&self) -> Seq<char> {
        self.text()
    }

    fn name_string(&self) -> (name: String) {
        self.code()
    }
}

/// The name of `item`.
pub open spec fn name_of<T: Named>(item: T) -> Seq<char> {
    item.name_text()
}

/// The names of `items`.
pub open spec fn names_of<T: Named>(items: Seq<T>) -> Seq<Seq<char>> {
    items.map_values(|item: T| name_of(item))
}

/// The names of `items`, where there are any.
pub open spec fn optional_names<T: Named>(items: Option<Vec<T>>) -> Option<Seq<Seq<char>>> {
    match items {
        Some(list) => Some(names_of(list@)),
        None => None,
    }
}

/// A criterion and its direction, by their names.
pub open spec fn order_entry(entry: (MangaListOrderCriteria, MangaListOrder)) -> (
    Seq<char>,
    Seq<char>,
) {
    (entry.0.name_text(), entry.1.name_text())
}

/// The criteria and their directions, by their names.
pub open spec fn order_entries(order: Seq<(MangaListOrderCriteria, MangaListOrder)>) -> Seq<
    (Seq<char>, Seq<char>),
> {
    order.map_values(|entry: (MangaListOrderCriteria, MangaListOrder)| order_entry(entry))
}

/// The names of `items`.
pub fn names<T: Named>(items: &Vec<T>) -> (names: Vec<String>)
    ensures
        string_views(names@) == names_of(items@),
{
    let mut names: Vec<String> = Vec::new();
    let mut i: usize = 0;
    while i < items.len()
        invariant
            i <= items@.len(),
            names@.len() == i,
            forall|j: int| 0 <= j < i ==> (#[trigger] names@[j])@ == items@[j].name_text(),
        decreases items@.len() - i,
    {
        names.push(items[i].name_string());
        i += 1;
    }
    assert(string_views(names@) =~= names_of(items@));
    names
}

/// What mangas are searched by. What is absent does not narrow the search.
#[derive(Clone, Debug, PartialEq, Eq)]
pub struct MangaListFilter {
    pub title: Option<String>,
    pub authors: Option<Vec<Uuid>>,
    pub artists: Option<Vec<Uuid>>,
    pub year: Option<i32>,
    pub include_tags: Option<Vec<Uuid>>,
    pub include_tags_mode: IncludeMode,
    pub exclude_tags: Option<Vec<Uuid>>,
    pub exclude_tags_mode: IncludeMode,
    pub status: Option<Vec<MangaStatus>>,
    pub original_language: Option<Vec<LanguageCode>>,
    pub exclude_original_language: Option<Vec<LanguageCode>>,
    pub availible_translated_language: Option<Vec<LanguageCode>>,
    pub demographic: Option<Vec<PublicationDemographic>>,
    pub ids: Option<Vec<Uuid>>,
    pub content_rating: Option<Vec<ContentRating>>,
    /// Only what was created since then, in seconds since the start of
    /// 1970.
    pub created_at_since: Option<i64>,
    /// Only what was updated since then, in seconds since the start of
    /// 1970.
    pub updated_at_since: Option<i64>,
    pub group: Option<Uuid>,
    /// By what the answer is sorted, the first criterion first.
    pub order: Vec<(MangaListOrderCriteria, MangaListOrder)>,
}

/// The parameter `key`, where `value` holds a value.
pub open spec fn optional_entry(key: Seq<char>, value: Option<Seq<char>>) -> Seq<
    (Seq<char>, Seq<char>),
> {
    match value {
        Some(v) => seq![(key, v)],
        None => Seq::empty(),
    }
}

/// The parameters `key[]`, where `values` holds a list.
pub open spec fn optional_list(key: Seq<char>, values: Option<Seq<Seq<char>>>) -> Seq<
    (Seq<char>, Seq<char>),
> {
    match values {
        Some(list) => list_entries(key, list),
        None => Seq::empty(),
    }
}

/// The text of a year, if there is one.
pub open spec fn year_text(year: Option<i32>) -> Option<Seq<char>> {
    match year {
        Some(y) => Some(signed_decimal(y as int)),
        None => None,
    }
}

/// The view of a text, if there is one.
pub open spec fn optional_view(text: Option<String>) -> Option<Seq<char>> {
    match text {
        Some(t) => Some(t@),
        None => None,
    }
}

/// The text of an identifier, if there is one.
pub open spec fn optional_uuid(id: Option<Uuid>) -> Option<Seq<char>> {
    match id {
        Some(id) => Some(uuid_text(id.value)),
        None => None,
    }
}

/// The text of a time, if there is one and `chrono` knows its year.
pub open spec fn optional_time(seconds: Option<i64>) -> Option<Seq<char>> {
    match seconds {
        Some(s) => timestamp_text(s),
        None => None,
    }
}

/// The parameters of a search, given the texts of its two times: the two
/// tag modes always, then what the filter holds, in a fixed order.
pub open spec fn filter_query(
    filter: MangaListFilter,
    created: Option<Seq<char>>,
    updated: Option<Seq<char>>,
) -> Seq<(Seq<char>, Seq<char>)> {
    seq![
        ("includedTagsMode"@, filter.include_tags_mode.name_text()),
        ("excludedTagsMode"@, filter.exclude_tags_mode.name_text()),
    ] + optional_entry("year"@, year_text(filter.year)) + optional_entry(
        "title"@,
        optional_view(filter.title),
    ) + optional_entry("group"@, optional_uuid(filter.group)) + optional_entry(
        "createdAtSince"@,
        created,
    ) + optional_entry("updatedAtSince"@, updated) + optional_list(
        "authors"@,
        optional_names(filter.authors),
    ) + optional_list("artists"@, optional_names(filter.artists)) + optional_list(
        "includedTags"@,
        optional_names(filter.include_tags),
    ) + optional_list("excludedTags"@, optional_names(filter.exclude_tags)) + optional_list(
        "status"@,
        optional_names(filter.status),
    ) + optional_list("originalLanguage"@, optional_names(filter.original_language))
        + optional_list(
        "excludedOriginalLanguage\u{c2}\u{b2}"@,
        optional_names(filter.exclude_original_language),
    ) + optional_list(
        "availableTranslatedLanguage"@,
        optional_names(filter.availible_translated_language),
    ) + optional_list("publicationDemographic"@, optional_names(filter.demographic))
        + optional_list("ids"@, optional_names(filter.ids)) + optional_list(
        "content_rating"@,
        optional_names(filter.content_rating),
    ) + object_entries("order"@, order_entries(filter.order@))
}

/// Adds the parameter `key` where `value` holds a text.
fn add_optional(query: &mut ApiRequestQuery, key: &str, value: &Option<String>)
    ensures
        final(query)@ == old(query)@ + optional_entry(key@, optional_view(*value)),
{
    match value {
        Some(text) => {
            query.insert(key, text.as_str());
            assert(query@ =~= old(query)@ + optional_entry(key@, optional_view(*value)));
        },
        None => {
            assert(query@ =~= old(query)@ + optional_entry(key@, optional_view(*value)));
        },
    }
}

/// Adds the names of `items` as parameters `key[]` where `items` holds a
/// list.
fn add_names<T: Named>(query: &mut ApiRequestQuery, key: &str, items: &Option<Vec<T>>)
    ensures
        final(query)@ == old(query)@ + optional_list(key@, optional_names(*items)),
{
    match items {
        Some(list) => {
            let texts = names(list);
            query.insert_vec(key, &texts);
        },
        None => {
            assert(query@ =~= old(query)@ + optional_list(key@, optional_names(*items)));
        },
    }
}

impl Default for MangaListFilter {
    fn default() -> (filter: Self)
        ensures
            filter.order@ == seq![
                (MangaListOrderCriteria::LatestUploadedChapter, MangaListOrder::Desc),
            ],
            filter.include_tags_mode == IncludeMode::And,
            filter.exclude_tags_mode == IncludeMode::Or,
            filter.title is None && filter.authors is None && filter.artists is None
                && filter.year is None && filter.include_tags is None && filter.exclude_tags
                is None && filter.status is None && filter.original_language is None
                && filter.exclude_original_language is None
                && filter.availible_translated_language is None && filter.demographic is None
                && filter.ids is None && filter.content_rating is None
                && filter.created_at_since is None && filter.updated_at_since is None
                && filter.group is None,
    {
        let mut order: Vec<(MangaListOrderCriteria, MangaListOrder)> = Vec::new();
        order.push((MangaListOrderCriteria::LatestUploadedChapter, MangaListOrder::Desc));
        assert(order@ =~= seq![
            (MangaListOrderCriteria::LatestUploadedChapter, MangaListOrder::Desc),
        ]);
        MangaListFilter {
            ids: None,
            year: None,
            title: None,
            group: None,
            order,
            status: None,
            authors: None,
            artists: None,
            demographic: None,
            include_tags: None,
            exclude_tags: None,
            content_rating: None,
            created_at_since: None,
            updated_at_since: None,
            include_tags_mode: IncludeMode::And,
            exclude_tags_mode: IncludeMode::Or,
            original_language: None,
            exclude_original_language: None,
            availible_translated_language: None,
        }
    }
}

impl MangaListFilter {
    /// The parameters of the search, given the texts of its two times.
    pub fn to_query_with(&self, created: &Option<String>, updated: &Option<String>) -> (query:
        ApiRequestQuery)
        ensures
            query@ == filter_query(*self, optional_view(*created), optional_view(*updated)),
    {
        let mut query = ApiRequestQuery::new();
        let include_mode = self.include_tags_mode.name_string();
        let exclude_mode = self.exclude_tags_mode.name_string();
        query.insert("includedTagsMode", include_mode.as_str());
        query.insert("excludedTagsMode", exclude_mode.as_str());
        assert(query@ =~= seq![
            ("includedTagsMode"@, self.include_tags_mode.name_text()),
            ("excludedTagsMode"@, self.exclude_tags_mode.name_text()),
        ]);
        let year = match self.year {
            Some(y) => {
                let mut text = String::new();
                push_signed(&mut text, y as i64);
                assert(text@ =~= signed_decimal(y as int));
                Some(text)
            },
            None => None,
        };
        add_optional(&mut query, "year", &year);
        add_optional(&mut query, "title", &self.title);
        let group = match self.group {
            Some(id) => Some(id.to_string()),
            None => None,
        };
        add_optional(&mut query, "group", &group);
        add_optional(&mut query, "createdAtSince", created);
        add_optional(&mut query, "updatedAtSince", updated);
        add_names(&mut query, "authors", &self.authors);
        add_names(&mut query, "artists", &self.artists);
        add_names(&mut query, "includedTags", &self.include_tags);
        add_names(&mut query, "excludedTags", &self.exclude_tags);
        add_names(&mut query, "status", &self.status);
        add_names(&mut query, "originalLanguage", &self.original_language);
        add_names(
            &mut query,
            "excludedOriginalLanguage\u{c2}\u{b2}",
            &self.exclude_original_language,
        );
        add_names(&mut query, "availableTranslatedLanguage", &self.availible_translated_language);
        add_names(&mut query, "publicationDemographic", &self.demographic);
        add_names(&mut query, "ids", &self.ids);
        add_names(&mut query, "content_rating", &self.content_rating);
        let mut order: Vec<(String, String)> = Vec::new();
        let mut i: usize = 0;
        while i < self.order.len()
            invariant
                i <= self.order@.len(),
                order@.len() == i,
                forall|j: int|
                    0 <= j < i ==> (#[trigger] order@[j]).0@ == self.order@[j].0.name_text()
                        && order@[j].1@ == self.order@[j].1.name_text(),
            decreases self.order@.len() - i,
        {
            order.push((self.order[i].0.name_string(), self.order[i].1.name_string()));
            i += 1;
        }
        assert(pair_views(order@) =~= order_entries(self.order@));
        query.insert_map("order", &order);
        query
    }

    /// The parameters of the search. A time that lies outside the years
    /// that can be written is left out.
    pub fn to_query(&self) -> (query: ApiRequestQuery)
        ensures
            query@ == filter_query(
                *self,
                optional_time(self.created_at_since),
                optional_time(self.updated_at_since),
            ),
    {
        let created = match self.created_at_since {
            Some(seconds) => format_timestamp(seconds),
            None => None,
        };
        let updated = match self.updated_at_since {
            Some(seconds) => format_timestamp(seconds),
            None => None,
        };
        self.to_query_with(&created, &updated)
    }
}

/// A manga as it is kept: what the service sent, without the tags, which
/// are kept on their own.
#[derive(Clone, Debug, PartialEq, Eq)]
pub struct Manga {
    pub title: LocalizedString,
    pub alt_titles: Vec<LocalizedString>,
    pub description: LocalizedString,
    pub is_locked: bool,
    pub links: MangaAttributesLinks,
    pub original_language: String,
    pub last_volume: Option<String>,
    pub last_chapter: Option<String>,
    pub publication_demographic: Option<PublicationDemographic>,
    pub status: Option<MangaStatus>,
    pub year: Option<i32>,
    pub content_rating: ContentRating,
    pub chapter_numbers_reset_on_new_volume: bool,
    pub state: MangaState,
    pub version: i32,
    pub created_at: String,
    pub updated_at: String,
}

/// The manga that the service sent as `v`, as it is kept: without its tags.
pub open spec fn kept_manga(v: json::data::Manga) -> Manga {
    Manga {
        year: v.year,
        title: v.title,
        links: v.links,
        state: v.state,
        status: v.status,
        version: v.version,
        is_locked: v.is_locked,
        created_at: v.created_at,
        updated_at: v.updated_at,
        alt_titles: v.alt_titles,
        last_volume: v.last_volume,
        description: v.description,
        last_chapter: v.last_chapter,
        content_rating: v.content_rating,
        original_language: v.original_language,
        publication_demographic: v.publication_demographic,
        chapter_numbers_reset_on_new_volume: v.chapter_numbers_reset_on_new_volume,
    }
}

impl Manga {
    /// The manga that the service sent as `v`, without its tags.
    pub fn from_data(v: json::data::Manga) -> (manga: Manga)
        ensures
            manga == kept_manga(v),
    {
        Manga {
            year: v.year,
            title: v.title,
            links: v.links,
            state: v.state,
            status: v.status,
            version: v.version,
            is_locked: v.is_locked,
            created_at: v.created_at,
            updated_at: v.updated_at,
            alt_titles: v.alt_titles,
            last_volume: v.last_volume,
            description: v.description,
            last_chapter: v.last_chapter,
            content_rating: v.content_rating,
            original_language: v.original_language,
            publication_demographic: v.publication_demographic,
            chapter_numbers_reset_on_new_volume: v.chapter_numbers_reset_on_new_volume,
        }
    }

    /// The manga that the service sent as `v`, and its tags.
    pub fn split(v: json::data::Manga) -> (parts: (Manga, Vec<json::data::Wrapper<json::data::Tag>>))
        ensures
            parts.0 == kept_manga(v),
            parts.1 == v.tags,
    {
        let manga = Manga {
            year: v.year,
            title: v.title,
            links: v.links,
            state: v.state,
            status: v.status,
            version: v.version,
            is_locked: v.is_locked,
            created_at: v.created_at,
            updated_at: v.updated_at,
            alt_titles: v.alt_titles,
            last_volume: v.last_volume,
            description: v.description,
            last_chapter: v.last_chapter,
            content_rating: v.content_rating,
            original_language: v.original_language,
            publication_demographic: v.publication_demographic,
            chapter_numbers_reset_on_new_volume: v.chapter_numbers_reset_on_new_volume,
        };
        (manga, v.tags)
    }
}

/// Where the pages of a chapter are served, and under which names.
#[derive(Clone, Debug, PartialEq, Eq)]
pub struct AtHomeServerChapter {
    pub base_url: String,
    pub data: Vec<String>,
    pub data_saver: Vec<String>,
    pub hash: String,
}

} // verus!
