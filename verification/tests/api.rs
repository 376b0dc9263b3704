use mngdx::api::cache::{ApiCache, CacheValue};
use mngdx::api::ids::Uuid;
use mngdx::api::request::{
    classify, following_offsets, ApiRequest, ApiRequestBody, ApiRequestKind, ApiRequestQuery,
    PageQuery, Pager, Retry, SendStep,
};
use mngdx::api::structs::json::body;
use mngdx::api::structs::json::data::{
    AtHomeServerChapter as SentChapter, Chapter, ContentRating, LocalizedString, Manga as SentManga,
    MangaAttributesLinks, MangaState, MangaStatus, PublicationDemographic, RelatedManga,
    Relationship, RelationshipKind, Tag, Wrapper,
};
use mngdx::api::structs::json::responses::{
    AtHomeServer, AuthCheck, AuthLogin, AuthLoginToken, ChapterView, MangaFeed, MangaList,
    MangaView, Paginate,
};
use mngdx::api::structs::lang_codes::LanguageCode;
use mngdx::api::structs::{
    names, AtHomeServerChapter, IncludeMode, Manga, MangaListFilter, MangaListOrder,
    MangaListOrderCriteria, Named,
};
use mngdx::api::{Api, ApiError};
use mngdx::app::content::{initial_manga, pick_chapter};

fn pair(k: &str, v: &str) -> (String, String) {
    (k.to_string(), v.to_string())
}

fn id(n: u128) -> Uuid {
    Uuid::from_u128(n)
}

fn chapter(pages: i32) -> Chapter {
    Chapter {
        title: Some("one".to_string()),
        volume: None,
        chapter: Some("1".to_string()),
        pages,
        translated_language: LanguageCode::English,
        uploader: None,
        external_url: None,
        version: 1,
        created_at: "c".to_string(),
        updated_at: "u".to_string(),
        publish_at: "p".to_string(),
        readable_at: "r".to_string(),
    }
}

fn links() -> MangaAttributesLinks {
    MangaAttributesLinks {
        anilist: None,
        animeplanet: None,
        bookwalker: None,
        mangaupdates: None,
        novelupdates: None,
        kitsu: None,
        amazon: None,
        ebookjapan: None,
        myanimelist: Some("12".to_string()),
        cd_japan: None,
        raw: None,
        engtl: None,
        other: vec![pair("x", "y")],
    }
}

fn sent_manga(tags: Vec<Wrapper<Tag>>) -> SentManga {
    SentManga {
        title: LocalizedString(vec![(LanguageCode::English, "Title".to_string())]),
        alt_titles: vec![],
        description: LocalizedString(vec![]),
        is_locked: false,
        links: links(),
        original_language: "ja".to_string(),
        last_volume: None,
        last_chapter: Some("9".to_string()),
        publication_demographic: Some(PublicationDemographic::Seinen),
        status: Some(MangaStatus::Ongoing),
        year: Some(2020),
        content_rating: ContentRating::Safe,
        chapter_numbers_reset_on_new_volume: true,
        state: MangaState::Published,
        version: 3,
        created_at: "c".to_string(),
        updated_at: "u".to_string(),
        tags,
    }
}

fn tag(n: u128, group: &str) -> Wrapper<Tag> {
    Wrapper {
        id: id(n),
        attributes: Tag { name: LocalizedString(vec![]), group: group.to_string(), version: 1 },
        relationships: vec![],
    }
}

#[test]
fn query_collects_parameters_in_order() {
    let mut query = ApiRequestQuery::new();
    assert!(query.is_empty());
    assert_eq!(query.to_string(), "{}");
    query.insert("limit", "10");
    query.insert_number("offset", -3);
    query.insert_vec("ids", &vec!["a".to_string(), "b".to_string()]);
    query.insert_map("order", &vec![pair("title", "asc"), pair("year", "desc")]);
    query.insert_option("title", Some("x y"));
    query.insert_option("group", None);
    query.insert_vec_option("tags", &Some(vec!["t".to_string()]));
    query.insert_vec_option("none", &None);
    query.insert_map_option("more", &Some(vec![pair("k", "v")]));
    query.insert_map_option("none", &None);
    assert!(!query.is_empty());
    assert_eq!(query.len(), 9);
    assert_eq!(query.get(1), Some(&pair("offset", "-3")));
    assert_eq!(query.get(9), None);
    let seen: Vec<(String, String)> = query.iter().cloned().collect();
    let expected = vec![
        pair("limit", "10"),
        pair("offset", "-3"),
        pair("ids[]", "a"),
        pair("ids[]", "b"),
        pair("order[title]", "asc"),
        pair("order[year]", "desc"),
        pair("title", "x y"),
        pair("tags[]", "t"),
        pair("more[k]", "v"),
    ];
    assert_eq!(seen, expected);
    assert_eq!(
        query.to_string(),
        "{limit: 10, offset: -3, ids[]: a, ids[]: b, order[title]: asc, order[year]: desc, title: x y, tags[]: t, more[k]: v}"
    );
    assert_eq!(query.into_pairs(), expected);
}

#[test]
fn request_kinds_have_names() {
    assert_eq!(ApiRequestKind::Get.to_string(), "GET");
    assert_eq!(ApiRequestKind::Post.to_string(), "POST");
}

#[test]
fn default_request_is_a_plain_get() {
    let request: ApiRequest<(), ()> = ApiRequest::default();
    assert_eq!(request.kind, ApiRequestKind::Get);
    assert_eq!(request.endpoint, "/");
    assert_eq!(request.body, ApiRequestBody::Empty);
    assert!(request.includes.is_empty());
    assert!(request.query.is_empty());
    let built = request.build(&None);
    assert_eq!(built.kind, ApiRequestKind::Get);
    assert_eq!(built.path, "/");
    assert_eq!(built.query, None);
    assert_eq!(built.authorization, None);
}

#[test]
fn built_request_joins_query_and_includes() {
    let mut request: ApiRequest<(), ()> = ApiRequest::default();
    request.endpoint = "/manga".to_string();
    request.query.insert("limit", "5");
    request.query.insert("offset", "10");
    request.includes = vec!["author".to_string(), "cover_art".to_string()];
    let built = request.build(&Some("token".to_string()));
    assert_eq!(built.path, "/manga");
    assert_eq!(
        built.query,
        Some("limit=5&offset=10&include[]=author&include[]=cover_art".to_string())
    );
    assert_eq!(built.authorization, Some("token".to_string()));
    let mut only: ApiRequest<(), ()> = ApiRequest::default();
    only.includes = vec!["author".to_string()];
    assert_eq!(only.build(&None).query, Some("include[]=author".to_string()));
}

#[test]
fn statuses_are_classified() {
    assert_eq!(classify(200, None, 0), Ok(()));
    assert_eq!(classify(400, None, 0), Err(ApiError::BadRequest));
    assert_eq!(classify(401, None, 0), Err(ApiError::Auth));
    assert_eq!(classify(403, None, 0), Err(ApiError::Auth));
    assert_eq!(classify(500, None, 0), Err(ApiError::Them));
    assert_eq!(classify(429, None, 100), Err(ApiError::RateLimit(5)));
    assert_eq!(classify(429, Some(130), 100), Err(ApiError::RateLimit(30)));
    assert_eq!(classify(429, Some(90), 100), Err(ApiError::RateLimit(0)));
    assert_eq!(classify(429, Some(i64::MAX), i64::MIN), Err(ApiError::RateLimit(u64::MAX)));
    assert_eq!(classify(404, None, 0), Err(ApiError::Other));
    assert_eq!(classify(201, None, 0), Err(ApiError::Other));
}

#[test]
fn errors_have_messages() {
    assert_eq!(ApiError::Other.to_string(), "Something went wrong with the Api.");
    assert_eq!(ApiError::Auth.to_string(), "There was a problem with authenticaton.");
    assert_eq!(ApiError::BadRequest.to_string(), "Request is bad.");
    assert_eq!(ApiError::RateLimit(3).to_string(), "Too many requests sent.");
    assert_eq!(ApiError::Them.to_string(), "The service failed on its side.");
    assert_eq!(
        ApiError::Request("down".to_string()).to_string(),
        "There was an error when sending the request."
    );
}

#[test]
fn each_remedy_is_tried_once() {
    let mut retry = Retry::new();
    let limited: Result<(), ApiError> = Err(ApiError::RateLimit(2));
    let failed: Result<(), ApiError> = Err(ApiError::Them);
    let refused: Result<(), ApiError> = Err(ApiError::Auth);
    assert_eq!(retry.decide(&limited), SendStep::Wait(2500));
    assert_eq!(retry.decide(&limited), SendStep::Return);
    assert_eq!(retry.decide(&failed), SendStep::Wait(1000));
    assert_eq!(retry.decide(&failed), SendStep::Return);
    assert_eq!(retry.decide(&refused), SendStep::Refresh);
    assert_eq!(retry.decide(&refused), SendStep::Return);
    assert_eq!(retry.decide(&limited), SendStep::Return);
}

#[test]
fn success_and_other_errors_are_returned() {
    let mut retry = Retry::new();
    assert_eq!(retry.decide(&Ok::<u8, ApiError>(1)), SendStep::Return);
    assert_eq!(retry.decide(&Err::<u8, ApiError>(ApiError::Other)), SendStep::Return);
    assert_eq!(retry.decide(&Err::<u8, ApiError>(ApiError::BadRequest)), SendStep::Return);
    assert_eq!(
        retry.decide(&Err::<u8, ApiError>(ApiError::RateLimit(u64::MAX))),
        SendStep::Wait(u64::MAX)
    );
    let mut late = Retry::new();
    assert_eq!(late.decide(&Err::<u8, ApiError>(ApiError::Auth)), SendStep::Refresh);
    assert_eq!(late.decide(&Err::<u8, ApiError>(ApiError::Them)), SendStep::Return);
}

#[test]
fn pager_walks_until_enough() {
    let mut pager = Pager::new(100, 0, 250);
    assert_eq!(pager.query(), Some(PageQuery { limit: 100, offset: 0 }));
    pager.advance(100, 1000);
    assert_eq!(pager.query(), Some(PageQuery { limit: 100, offset: 100 }));
    pager.advance(100, 1000);
    assert_eq!(pager.query(), Some(PageQuery { limit: 50, offset: 200 }));
    pager.advance(50, 1000);
    assert_eq!(pager.query(), None);
    assert_eq!(pager.offset, 250);
    assert_eq!(pager.count, 0);
}

#[test]
fn pager_stops_at_the_end_of_the_list() {
    let mut pager = Pager::new(100, 10, 500);
    pager.advance(100, 130);
    assert_eq!(pager.count, 20);
    assert_eq!(pager.query(), Some(PageQuery { limit: 100, offset: 110 }));
    pager.advance(20, 130);
    assert_eq!(pager.query(), None);
    let mut small = Pager::new(100, 0, 30);
    assert_eq!(small.query(), Some(PageQuery { limit: 30, offset: 0 }));
    small.advance(30, 1000);
    assert_eq!(small.query(), None);
    let mut wide = Pager::new(100, i32::MAX, 5);
    wide.advance(5, 10);
    assert_eq!(wide.query(), None);
}

#[test]
fn offsets_of_the_further_pages() {
    assert_eq!(following_offsets(500, 1200), vec![500, 1000]);
    assert_eq!(following_offsets(500, 1000), vec![500]);
    assert_eq!(following_offsets(500, 1001), vec![500, 1000]);
    assert!(following_offsets(500, 500).is_empty());
    assert!(following_offsets(500, 0).is_empty());
    assert!(following_offsets(500, -7).is_empty());
    assert_eq!(following_offsets(1, 4), vec![1, 2, 3]);
    assert_eq!(following_offsets(i32::MAX - 1, i32::MAX), vec![i32::MAX - 1]);
}

#[test]
fn identifiers_are_parsed_and_shown() {
    let parsed = Uuid::parse_str("e78a489b-6632-4d61-b00b-5206f5b8b22b").unwrap();
    assert_eq!(parsed.value, 0xe78a489b66324d61b00b5206f5b8b22b);
    assert_eq!(parsed.to_string(), "e78a489b-6632-4d61-b00b-5206f5b8b22b");
    assert_eq!(Uuid::parse_str("E78A489B66324D61B00B5206F5B8B22B"), Some(parsed));
    assert_eq!(Uuid::parse_str("not an id"), None);
    assert_eq!(Uuid::from_u128(1).to_string(), "00000000-0000-0000-0000-000000000001");
    assert_eq!(Uuid::from_parsed(Some(5)), Some(id(5)));
    assert_eq!(Uuid::from_parsed(None), None);
    assert_eq!(initial_manga(), Some(parsed));
}

#[test]
fn fresh_identifiers_are_random_version_four() {
    let a = Uuid::new_v4();
    let b = Uuid::new_v4();
    assert_ne!(a, b);
    for id in [a, b] {
        assert_eq!((id.value >> 76) & 0xf, 4);
        assert_eq!((id.value >> 62) & 0x3, 2);
        assert_eq!(
            id.value & 0x0000_0000_0000_f000_c000_0000_0000_0000,
            0x0000_0000_0000_4000_8000_0000_0000_0000
        );
        assert_eq!(Uuid::parse_str(&id.to_string()), Some(id));
    }
}

#[test]
fn a_chapter_is_picked_from_the_list() {
    assert_eq!(pick_chapter(&vec![]), None);
    assert_eq!(pick_chapter(&vec![id(7)]), Some(id(7)));
    let all = vec![id(1), id(2), id(3)];
    for _ in 0..20 {
        assert!(all.contains(&pick_chapter(&all).unwrap()));
    }
}

#[test]
fn language_codes_round_trip() {
    assert_eq!(LanguageCode::from_code("en"), LanguageCode::English);
    assert_eq!(LanguageCode::from_code("aa"), LanguageCode::Afar);
    assert_eq!(LanguageCode::from_code("zu"), LanguageCode::Zulu);
    assert_eq!(LanguageCode::from_code("pt-br"), LanguageCode::BrazilianPortugese);
    assert_eq!(LanguageCode::from_code("tl"), LanguageCode::Filipino);
    assert_eq!(LanguageCode::from_code("NULL"), LanguageCode::Null);
    assert_eq!(LanguageCode::from_code("xx"), LanguageCode::Any("xx".to_string()));
    assert_eq!(LanguageCode::from_code("EN"), LanguageCode::Any("EN".to_string()));
    assert_eq!(LanguageCode::English.code(), "en");
    assert_eq!(LanguageCode::Tagalog.code(), "tl");
    assert_eq!(LanguageCode::RomanizedJapanese.code(), "ja-ro");
    assert_eq!(LanguageCode::Null.code(), "NULL");
    assert_eq!(LanguageCode::Any("xx".to_string()).code(), "xx");
    for code in ["fr", "de", "ja", "ko", "zh", "zh-hk", "es-la", "ko-ro", "zh-ro", "vi", "he"] {
        assert_eq!(LanguageCode::from_code(code).code(), code);
    }
}

#[test]
fn names_as_the_service_spells_them() {
    assert_eq!(MangaStatus::Ongoing.to_string(), "ongoing");
    assert_eq!(MangaStatus::Cancelled.to_string(), "cancelled");
    assert_eq!(PublicationDemographic::Shounen.to_string(), "shounen");
    assert_eq!(ContentRating::Pornographic.to_string(), "pornographic");
    assert_eq!(IncludeMode::And.name_string(), "AND");
    assert_eq!(IncludeMode::Or.name_string(), "OR");
    assert_eq!(MangaListOrder::Asc.name_string(), "asc");
    assert_eq!(MangaListOrder::Desc.name_string(), "desc");
    assert_eq!(MangaListOrderCriteria::LatestUploadedChapter.name_string(), "latestUploadedChapter");
    assert_eq!(MangaListOrderCriteria::CreatedAt.name_string(), "createdAt");
    assert_eq!(MangaListOrderCriteria::FollowedCount.name_string(), "followedCount");
    assert_eq!(
        names(&vec![MangaStatus::Hiatus, MangaStatus::Completed]),
        vec!["hiatus".to_string(), "completed".to_string()]
    );
}

#[test]
fn default_filter_asks_for_the_latest() {
    let query = MangaListFilter::default().to_query();
    assert_eq!(
        query.into_pairs(),
        vec![
            pair("includedTagsMode", "AND"),
            pair("excludedTagsMode", "OR"),
            pair("order[latestUploadedChapter]", "desc"),
        ]
    );
}

#[test]
fn full_filter_is_written_in_order() {
    let filter = MangaListFilter {
        title: Some("solo".to_string()),
        authors: Some(vec![id(1)]),
        artists: Some(vec![id(2)]),
        year: Some(2019),
        include_tags: Some(vec![id(3), id(4)]),
        include_tags_mode: IncludeMode::Or,
        exclude_tags: Some(vec![]),
        exclude_tags_mode: IncludeMode::And,
        status: Some(vec![MangaStatus::Ongoing, MangaStatus::Hiatus]),
        original_language: Some(vec![LanguageCode::Japanese]),
        exclude_original_language: Some(vec![LanguageCode::Korean]),
        availible_translated_language: Some(vec![
            LanguageCode::English,
            LanguageCode::Any("xx".to_string()),
        ]),
        demographic: Some(vec![PublicationDemographic::Josei]),
        ids: Some(vec![id(5)]),
        content_rating: Some(vec![ContentRating::Safe, ContentRating::Suggestive]),
        created_at_since: Some(1431648000),
        updated_at_since: Some(0),
        group: Some(id(6)),
        order: vec![
            (MangaListOrderCriteria::Title, MangaListOrder::Asc),
            (MangaListOrderCriteria::Year, MangaListOrder::Desc),
        ],
    };
    let uuid = |n: u128| format!("00000000-0000-0000-0000-00000000000{}", n);
    assert_eq!(
        filter.to_query().into_pairs(),
        vec![
            pair("includedTagsMode", "OR"),
            pair("excludedTagsMode", "AND"),
            pair("year", "2019"),
            pair("title", "solo"),
            pair("group", &uuid(6)),
            pair("createdAtSince", "2015-05-15T00:00:00"),
            pair("updatedAtSince", "1970-01-01T00:00:00"),
            pair("authors[]", &uuid(1)),
            pair("artists[]", &uuid(2)),
            pair("includedTags[]", &uuid(3)),
            pair("includedTags[]", &uuid(4)),
            pair("status[]", "ongoing"),
            pair("status[]", "hiatus"),
            pair("originalLanguage[]", "ja"),
            pair("excludedOriginalLanguage\u{c2}\u{b2}[]", "ko"),
            pair("availableTranslatedLanguage[]", "en"),
            pair("availableTranslatedLanguage[]", "xx"),
            pair("publicationDemographic[]", "josei"),
            pair("ids[]", &uuid(5)),
            pair("content_rating[]", "safe"),
            pair("content_rating[]", "suggestive"),
            pair("order[title]", "asc"),
            pair("order[year]", "desc"),
        ]
    );
}

#[test]
fn times_out_of_range_are_left_out() {
    let filter = MangaListFilter {
        created_at_since: Some(i64::MAX),
        updated_at_since: Some(-1),
        ..MangaListFilter::default()
    };
    assert_eq!(
        filter.to_query().into_pairs(),
        vec![
            pair("includedTagsMode", "AND"),
            pair("excludedTagsMode", "OR"),
            pair("updatedAtSince", "1969-12-31T23:59:59"),
            pair("order[latestUploadedChapter]", "desc"),
        ]
    );
    let given = filter.to_query_with(&Some("then".to_string()), &None);
    assert_eq!(given.get(2), Some(&pair("createdAtSince", "then")));
    assert_eq!(given.len(), 4);
}

#[test]
fn localized_strings_are_looked_up_by_language() {
    let text = LocalizedString(vec![
        (LanguageCode::Japanese, "ja text".to_string()),
        (LanguageCode::English, "en text".to_string()),
        (LanguageCode::English, "later".to_string()),
    ]);
    assert_eq!(text.get(&LanguageCode::English), Some("en text".to_string()));
    assert_eq!(text.get(&LanguageCode::French), None);
    assert_eq!(text.any(), "ja text");
    assert_eq!(text.get_or_any(&LanguageCode::English), "en text");
    assert_eq!(text.get_or_any(&LanguageCode::French), "ja text");
    let empty = LocalizedString(vec![]);
    assert_eq!(empty.get(&LanguageCode::English), None);
    assert_eq!(empty.any(), "");
    assert_eq!(empty.get_or_any(&LanguageCode::English), "");
}

#[test]
fn cache_keeps_and_forgets() {
    let mut cache = ApiCache::new();
    assert_eq!(cache.peek(&id(1)), None);
    cache.insert(id(1), CacheValue::Chapter(chapter(10)), None);
    cache.insert(id(2), CacheValue::Chapter(chapter(20)), Some(100));
    assert_eq!(cache.get(&id(1), 1_000_000), Some(&CacheValue::Chapter(chapter(10))));
    assert_eq!(cache.get(&id(2), 100), Some(&CacheValue::Chapter(chapter(20))));
    assert_eq!(cache.get(&id(2), 101), None);
    assert_eq!(cache.peek(&id(2)), None);
    assert_eq!(cache.get(&id(3), 0), None);
    assert!(!cache.expire(&id(1), u64::MAX));
    cache.remove(&id(1));
    assert_eq!(cache.peek(&id(1)), None);
    cache.insert(id(4), CacheValue::Chapter(chapter(1)), None);
    cache.clear();
    assert_eq!(cache.peek(&id(4)), None);
}

#[test]
fn cache_links_are_directed() {
    let mut cache = ApiCache::new();
    cache.insert(id(1), CacheValue::Chapter(chapter(10)), None);
    cache.link(&id(1), &id(2), RelationshipKind::Author);
    cache.link(&id(1), &id(3), RelationshipKind::Manga);
    cache.link(&id(1), &id(4), RelationshipKind::Author);
    cache.link(&id(9), &id(1), RelationshipKind::Chapter);
    assert_eq!(cache.get_linked(&id(1), RelationshipKind::Author), Some(vec![id(2), id(4)]));
    assert_eq!(cache.get_linked(&id(1), RelationshipKind::Manga), Some(vec![id(3)]));
    assert_eq!(cache.get_linked(&id(1), RelationshipKind::Tag), Some(vec![]));
    assert_eq!(cache.get_linked(&id(9), RelationshipKind::Chapter), None);
    cache.link(&id(1), &id(2), RelationshipKind::Artist);
    assert_eq!(cache.get_linked(&id(1), RelationshipKind::Author), Some(vec![id(4)]));
    assert_eq!(cache.get_linked(&id(1), RelationshipKind::Artist), Some(vec![id(2)]));
    cache.unlink(&id(1), &id(4));
    cache.unlink(&id(1), &id(8));
    cache.unlink(&id(9), &id(1));
    assert_eq!(cache.get_linked(&id(1), RelationshipKind::Author), Some(vec![]));
    cache.insert(id(1), CacheValue::Chapter(chapter(11)), None);
    assert_eq!(cache.get_linked(&id(1), RelationshipKind::Artist), Some(vec![]));
}

#[test]
fn chapters_are_stored_with_links_both_ways() {
    let mut cache = ApiCache::new();
    cache.insert(id(50), CacheValue::Chapter(chapter(0)), None);
    let view = ChapterView {
        data: Wrapper {
            id: id(1),
            attributes: chapter(12),
            relationships: vec![
                Relationship { id: id(50), kind: RelationshipKind::Manga, related: None },
                Relationship {
                    id: id(51),
                    kind: RelationshipKind::ScanlationGroup,
                    related: Some(RelatedManga::Prequel),
                },
            ],
        },
    };
    assert_eq!(view.store(&mut cache), id(1));
    assert_eq!(cache.peek(&id(1)), Some(&CacheValue::Chapter(chapter(12))));
    assert_eq!(cache.get_linked(&id(1), RelationshipKind::Manga), Some(vec![id(50)]));
    assert_eq!(cache.get_linked(&id(1), RelationshipKind::ScanlationGroup), Some(vec![id(51)]));
    assert_eq!(cache.get_linked(&id(50), RelationshipKind::Chapter), Some(vec![id(1)]));
    assert_eq!(cache.get_linked(&id(51), RelationshipKind::Chapter), None);
}

#[test]
fn mangas_are_stored_with_their_tags() {
    let mut cache = ApiCache::new();
    let view = MangaView {
        data: Wrapper {
            id: id(1),
            attributes: sent_manga(vec![tag(10, "genre"), tag(11, "theme")]),
            relationships: vec![Relationship {
                id: id(20),
                kind: RelationshipKind::Author,
                related: None,
            }],
        },
    };
    assert_eq!(view.store(&mut cache), id(1));
    let kept = Manga::from_data(sent_manga(vec![]));
    assert_eq!(kept.year, Some(2020));
    assert_eq!(kept.links, links());
    assert_eq!(cache.peek(&id(1)), Some(&CacheValue::Manga(kept.clone())));
    assert_eq!(cache.peek(&id(10)), Some(&CacheValue::Tag(tag(10, "genre").attributes)));
    assert_eq!(cache.get_linked(&id(1), RelationshipKind::Tag), Some(vec![id(10), id(11)]));
    assert_eq!(cache.get_linked(&id(1), RelationshipKind::Author), Some(vec![id(20)]));
    assert_eq!(cache.get_linked(&id(11), RelationshipKind::Manga), Some(vec![id(1)]));
    let (split, tags) = Manga::split(sent_manga(vec![tag(10, "genre")]));
    assert_eq!(split, kept);
    assert_eq!(tags, vec![tag(10, "genre")]);
}

#[test]
fn lists_are_stored_item_by_item() {
    let mut cache = ApiCache::new();
    let wrap = |n: u128, pages: i32| Wrapper { id: id(n), attributes: chapter(pages), relationships: vec![] };
    let mut feed = MangaFeed { data: vec![wrap(1, 10), wrap(2, 20)], total: 3 };
    assert_eq!(feed.total(), 3);
    assert_eq!(feed.count(), 2);
    feed.concat(MangaFeed { data: vec![wrap(3, 30)], total: 3 });
    assert_eq!(feed.count(), 3);
    assert_eq!(feed.total(), 3);
    assert_eq!(feed.store(&mut cache), vec![id(1), id(2), id(3)]);
    assert_eq!(cache.peek(&id(3)), Some(&CacheValue::Chapter(chapter(30))));
    let mut list = MangaList {
        data: vec![Wrapper { id: id(7), attributes: sent_manga(vec![]), relationships: vec![] }],
        total: 9,
    };
    list.concat(MangaList {
        data: vec![Wrapper { id: id(8), attributes: sent_manga(vec![]), relationships: vec![] }],
        total: 9,
    });
    assert_eq!(list.total(), 9);
    assert_eq!(list.count(), 2);
    assert_eq!(list.store(&mut cache), vec![id(7), id(8)]);
    assert_eq!(cache.peek(&id(8)), Some(&CacheValue::Manga(Manga::from_data(sent_manga(vec![])))));
}

fn answer(chapter_id: Option<Uuid>) -> AtHomeServer {
    AtHomeServer {
        base_url: "https://host".to_string(),
        chapter: SentChapter {
            hash: "abc".to_string(),
            data: vec!["1.png".to_string(), "2.png".to_string()],
            data_saver: vec!["1.jpg".to_string()],
        },
        chapter_id,
    }
}

fn record() -> AtHomeServerChapter {
    AtHomeServerChapter {
        base_url: "https://host".to_string(),
        data: vec!["1.png".to_string(), "2.png".to_string()],
        data_saver: vec!["1.jpg".to_string()],
        hash: "abc".to_string(),
    }
}

#[test]
fn at_home_records_expire_after_fifteen_minutes() {
    let mut api = Api::new();
    api.cache.insert(id(1), CacheValue::Chapter(chapter(2)), None);
    assert_eq!(api.cached_at_home(&id(1)), None);
    assert!(answer(Some(id(1))).store_as(&mut api.cache, id(77), 1000));
    assert_eq!(api.cached_at_home(&id(1)), Some(id(77)));
    assert_eq!(api.cache.get_linked(&id(77), RelationshipKind::Chapter), Some(vec![id(1)]));
    assert_eq!(api.cached(&id(77), 1900), Some(&CacheValue::AtHome(record())));
    assert_eq!(api.cached(&id(77), 1901), None);
    assert!(!answer(None).store_as(&mut api.cache, id(78), 0));
    assert_eq!(api.cache.peek(&id(78)), None);
    let fresh = answer(Some(id(1))).store(&mut api.cache, u64::MAX).unwrap();
    assert_eq!(api.cached(&fresh, u64::MAX), Some(&CacheValue::AtHome(record())));
    assert_eq!(answer(None).store(&mut api.cache, 0), None);
}

#[test]
fn page_addresses_follow_the_quality() {
    let mut api = Api::new();
    assert!(!api.data_saver());
    assert_eq!(
        api.page_urls(&record()),
        vec!["https://host/data/abc/1.png".to_string(), "https://host/data/abc/2.png".to_string()]
    );
    api.toggle_data_saver();
    assert!(api.data_saver());
    assert_eq!(api.page_urls(&record()), vec!["https://host/data_saver/abc/1.jpg".to_string()]);
    api.disable_data_saver();
    assert!(!api.data_saver());
    api.enable_data_saver();
    assert!(api.data_saver());
    api.toggle_data_saver();
    assert!(!api.data_saver());
}

#[test]
fn requests_of_the_client() {
    let manga = id(0xe78a489b66324d61b00b5206f5b8b22b);
    assert_eq!(
        Api::manga_view_request(&manga).endpoint,
        "/manga/e78a489b-6632-4d61-b00b-5206f5b8b22b"
    );
    assert_eq!(
        Api::manga_feed_request(&manga).endpoint,
        "/manga/e78a489b-6632-4d61-b00b-5206f5b8b22b/feed"
    );
    assert_eq!(
        Api::chapter_view_request(&manga).endpoint,
        "/chapter/e78a489b-6632-4d61-b00b-5206f5b8b22b"
    );
    assert_eq!(
        Api::at_home_request(&manga).endpoint,
        "/at-home/server/e78a489b-6632-4d61-b00b-5206f5b8b22b"
    );
    let list = Api::manga_list_request(&MangaListFilter::default());
    assert_eq!(list.endpoint, "/manga");
    assert_eq!(list.query.len(), 3);
    let login = Api::login_request("me".to_string(), "secret".to_string());
    assert_eq!(login.endpoint, "/auth/login");
    assert_eq!(login.kind, ApiRequestKind::Post);
    assert_eq!(
        login.body,
        ApiRequestBody::Json(body::AuthLogin {
            username: "me".to_string(),
            password: "secret".to_string()
        })
    );
}

#[test]
fn session_is_kept_and_renewed() {
    let mut api = Api::new();
    assert_eq!(api.session(), &None);
    assert!(api.check_auth_request().is_none());
    assert!(matches!(api.refresh_request(), Err(ApiError::Auth)));
    api.logged_in(AuthLogin {
        token: AuthLoginToken { session: "s1".to_string(), refresh: "r1".to_string() },
    });
    assert_eq!(api.session(), &Some("s1".to_string()));
    let check = api.check_auth_request().unwrap();
    assert_eq!(check.endpoint, "/auth/check");
    assert_eq!(check.build(api.session()).authorization, Some("s1".to_string()));
    let refresh = api.refresh_request().unwrap();
    assert_eq!(refresh.endpoint, "/auth/refresh");
    assert_eq!(refresh.kind, ApiRequestKind::Post);
    assert_eq!(refresh.body, ApiRequestBody::Json(body::AuthRefresh { token: "r1".to_string() }));
    api.refreshed(AuthLogin {
        token: AuthLoginToken { session: "s2".to_string(), refresh: "r2".to_string() },
    });
    assert_eq!(api.session(), &Some("s2".to_string()));
    assert_eq!(
        api.refresh_request().unwrap().body,
        ApiRequestBody::Json(body::AuthRefresh { token: "r1".to_string() })
    );
    assert!(AuthCheck { is_authenticated: true }.is_authenticated);
}

#[test]
fn cached_chapters_are_used_when_there_are_any() {
    let mut api = Api::new();
    assert_eq!(api.cached_chapters(&id(1)), None);
    api.cache.insert(id(1), CacheValue::Manga(Manga::from_data(sent_manga(vec![]))), None);
    assert_eq!(api.cached_chapters(&id(1)), None);
    api.cache.link(&id(1), &id(2), RelationshipKind::Chapter);
    api.cache.link(&id(1), &id(3), RelationshipKind::Chapter);
    assert_eq!(api.cached_chapters(&id(1)), Some(vec![id(2), id(3)]));
    api.invalidate_cache(&id(1));
    assert_eq!(api.cached_chapters(&id(1)), None);
    api.cache.insert(id(5), CacheValue::Chapter(chapter(1)), None);
    api.clear_cache();
    assert_eq!(api.cached(&id(5), 0), None);
}

#[test]
fn requests_are_copied_field_by_field() {
    let mut request: ApiRequest<body::AuthRefresh, AuthCheck> = ApiRequest::default();
    request.endpoint = "/x".to_string();
    request.kind = ApiRequestKind::Post;
    request.includes = vec!["a".to_string()];
    request.query.insert("k", "v");
    request.body = ApiRequestBody::Json(body::AuthRefresh { token: "t".to_string() });
    let copy = request.clone();
    assert_eq!(copy.endpoint, "/x");
    assert_eq!(copy.kind, ApiRequestKind::Post);
    assert_eq!(copy.includes, vec!["a".to_string()]);
    assert_eq!(copy.query, request.query);
    assert_eq!(copy.body, request.body);
    let mut other = ApiRequestQuery::new();
    other.insert("limit", "1");
    let page: ApiRequest<(), AuthCheck> = request.with_query(other.clone());
    assert_eq!(page.endpoint, "/x");
    assert_eq!(page.kind, ApiRequestKind::Post);
    assert_eq!(page.includes, vec!["a".to_string()]);
    assert_eq!(page.query, other);
    assert_eq!(page.body, ApiRequestBody::Empty);
}
