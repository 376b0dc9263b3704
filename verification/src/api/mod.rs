//! The client of the content service, without its network calls: how a
//! request is put together, what a response means, and when to try again.

pub mod cache;
pub mod ids;
pub mod request;
pub mod store;
pub mod structs;

use vstd::prelude::*;
use vstd::string::StringExecFns;
use core::marker::PhantomData;
use crate::api::cache::{
    after_get, found, linked_to, removed, ApiCache, CacheValue, CacheView, EntryView,
};
use crate::api::ids::{uuid_text, Uuid};
use crate::api::request::{
    string_views, ApiRequest, ApiRequestBody, ApiRequestKind, ApiRequestQuery,
};
use crate::api::structs::json::body;
use crate::api::structs::json::data::RelationshipKind;
use crate::api::structs::json::responses;
use crate::api::structs::{AtHomeServerChapter, MangaListFilter};

verus! {

/// What can go wrong with a request.
#[derive(Clone, Debug, PartialEq, Eq)]
pub enum ApiError {
    /// An error without a name.
    Other,
    /// The service could not make sense of the request.
    BadRequest,
    /// The session is missing, has run out or was refused.
    Auth,
    /// Too many requests were sent; the service asks for a pause of this
    /// many seconds.
    RateLimit(u64),
    /// The service failed on its side.
    Them,
    /// The request could not be sent or the answer not be read; the text
    /// says why.
    Request(String),
}

impl ApiError {
    /// What the error says.
    pub open spec fn text(self) -> Seq<char> {
        match self {
            ApiError::Other => "Something went wrong with the Api."@,
            ApiError::BadRequest => "Request is bad."@,
            ApiError::Auth => "There was a problem with authenticaton."@,
            ApiError::RateLimit(_) => "Too many requests sent."@,
            ApiError::Them => "The service failed on its side."@,
            ApiError::Request(_) => "There was an error when sending the request."@,
        }
    }

    /// What the error says.
    pub fn to_string(&self) -> (text: String)
        ensures
            text@ == self.text(),
    {
        match self {
            ApiError::Other => String::from_str("Something went wrong with the Api."),
            ApiError::BadRequest => String::from_str("Request is bad."),
            ApiError::Auth => String::from_str("There was a problem with authenticaton."),
            ApiError::RateLimit(_) => String::from_str("Too many requests sent."),
            ApiError::Them => String::from_str("The service failed on its side."),
            ApiError::Request(_) => String::from_str("There was an error when sending the request."),
        }
    }
}

/// How many mangas one page of a search holds at most.
pub const MANGA_LIST_PAGE: i32 = 100;

/// How many chapters one page of a feed holds at most.
pub const MANGA_FEED_PAGE: i32 = 500;

/// The path of the object `id` below `before`, followed by `after`.
pub open spec fn object_path(before: Seq<char>, id: Uuid, after: Seq<char>) -> Seq<char> {
    before + uuid_text(id.value) + after
}

/// The name of the directory from which pages are served.
pub open spec fn quality_text(data_saver: bool) -> Seq<char> {
    if data_saver {
        "data_saver"@
    } else {
        "data"@
    }
}

/// The address of the page `file` of a chapter.
pub open spec fn page_url(base_url: Seq<char>, data_saver: bool, hash: Seq<char>, file: Seq<char>) -> Seq<
    char,
> {
    base_url + "/"@ + quality_text(data_saver) + "/"@ + hash + "/"@ + file
}

/// The files of a chapter in the wanted quality.
pub open spec fn page_files(record: AtHomeServerChapter, data_saver: bool) -> Seq<String> {
    if data_saver {
        record.data_saver@
    } else {
        record.data@
    }
}

/// The helper of the content client: the session, the cache, and whether
/// pages are fetched in reduced quality.
pub struct Api {
    refresh: Option<String>,
    session: Option<String>,
    pub cache: ApiCache,
    data_saver: bool,
}

/// The path of the object `id` below `before`, followed by `after`.
fn path_of(before: &str, id: &Uuid, after: &str) -> (path: String)
    ensures
        path@ == object_path(before@, *id, after@),
{
    let mut path = String::from_str(before);
    let text = id.to_string();
    path.append(text.as_str());
    path.append(after);
    path
}

/// A `GET` request for `endpoint` without parameters.
fn plain_request<B>(endpoint: String) -> (request: ApiRequest<(), B>)
    ensures
        request.endpoint == endpoint,
        request.kind == ApiRequestKind::Get,
        request.body is Empty,
        request.query@ == Seq::<(Seq<char>, Seq<char>)>::empty(),
        request.includes@ == Seq::<String>::empty(),
{
    ApiRequest {
        includes: Vec::new(),
        query: ApiRequestQuery::new(),
        kind: ApiRequestKind::Get,
        endpoint,
        body: ApiRequestBody::Empty,
        _phantom: PhantomData,
    }
}

impl Api {
    /// The session token, if there is a session.
    pub closed spec fn session_view(&self) -> Option<String> {
        self.session
    }

    /// The token by which the session is renewed, if there is one.
    pub closed spec fn refresh_view(&self) -> Option<String> {
        self.refresh
    }

    /// What the cache holds.
    pub closed spec fn cache_view(&self) -> CacheView {
        self.cache@
    }

    /// Whether pages are fetched in reduced quality.
    pub closed spec fn saves_data(&self) -> bool {
        self.data_saver
    }

    /// A helper without a session, with an empty cache, that fetches pages
    /// in full quality.
    pub fn new() -> (api: Self)
        ensures
            api.session_view() is None,
            api.refresh_view() is None,
            !api.saves_data(),
            api.cache_view().data == Map::<u128, EntryView>::empty(),
            api.cache_view().expires == Map::<u128, u64>::empty(),
    {
        Api { refresh: None, session: None, cache: ApiCache::new(), data_saver: false }
    }

    /// Fetches pages in reduced quality from now on.
    pub fn enable_data_saver(&mut self)
        ensures
            final(self).saves_data(),
            final(self).session_view() == old(self).session_view(),
            final(self).refresh_view() == old(self).refresh_view(),
            final(self).cache_view() == old(self).cache_view(),
    {
        self.data_saver = true;
    }

    /// Switches between full and reduced quality.
    pub fn toggle_data_saver(&mut self)
        ensures
            final(self).saves_data() == !old(self).saves_data(),
            final(self).session_view() == old(self).session_view(),
            final(self).refresh_view() == old(self).refresh_view(),
            final(self).cache_view() == old(self).cache_view(),
    {
        self.data_saver = !self.data_saver;
    }

    /// Fetches pages in full quality from now on.
    pub fn disable_data_saver(&mut self)
        ensures
            !final(self).saves_data(),
            final(self).session_view() == old(self).session_view(),
            final(self).refresh_view() == old(self).refresh_view(),
            final(self).cache_view() == old(self).cache_view(),
    {
        self.data_saver = false;
    }

    /// Whether pages are fetched in reduced quality.
    pub fn data_saver(&self) -> (b: bool)
        ensures
            b == self.saves_data(),
    {
        self.data_saver
    }

    /// The session token, if there is a session.
    pub fn session(&self) -> (session: &Option<String>)
        ensures
            *session == self.session_view(),
    {
        &self.session
    }

    /// The request that logs in.
    pub fn login_request(username: String, password: String) -> (request: ApiRequest<
        body::AuthLogin,
        responses::AuthLogin,
    >)
        ensures
            request.endpoint@ == "/auth/login"@,
            request.kind == ApiRequestKind::Post,
            request.body == ApiRequestBody::Json(body::AuthLogin { username, password }),
            request.query@ == Seq::<(Seq<char>, Seq<char>)>::empty(),
            request.includes@ == Seq::<String>::empty(),
    {
        ApiRequest {
            includes: Vec::new(),
            query: ApiRequestQuery::new(),
            kind: ApiRequestKind::Post,
            endpoint: String::from_str("/auth/login"),
            body: ApiRequestBody::Json(body::AuthLogin { username, password }),
            _phantom: PhantomData,
        }
    }

    /// Takes note of the answer to a login: both tokens are kept.
    pub fn logged_in(&mut self, answer: responses::AuthLogin)
        ensures
            final(self).session_view() == Some(answer.token.session),
            final(self).refresh_view() == Some(answer.token.refresh),
            final(self).saves_data() == old(self).saves_data(),
            final(self).cache_view() == old(self).cache_view(),
    {
        self.refresh = Some(answer.token.refresh);
        self.session = Some(answer.token.session);
    }

    /// The request that renews the session. Without a token to renew it
    /// by, there is a problem with the authentication.
    pub fn refresh_request(&self) -> (request: Result<
        ApiRequest<body::AuthRefresh, responses::AuthLogin>,
        ApiError,
    >)
        ensures
            match self.refresh_view() {
                Some(token) => request is Ok && request->Ok_0.endpoint@ == "/auth/refresh"@
                    && request->Ok_0.kind == ApiRequestKind::Post && request->Ok_0.body
                    == ApiRequestBody::Json(body::AuthRefresh { token }) && request->Ok_0.query@
                    == Seq::<(Seq<char>, Seq<char>)>::empty() && request->Ok_0.includes@
                    == Seq::<String>::empty(),
                None => request is Err && request->Err_0 == ApiError::Auth,
            },
    {
        match &self.refresh {
            Some(token) => Ok(
                ApiRequest {
                    includes: Vec::new(),
                    query: ApiRequestQuery::new(),
                    kind: ApiRequestKind::Post,
                    endpoint: String::from_str("/auth/refresh"),
                    body: ApiRequestBody::Json(body::AuthRefresh { token: token.clone() }),
                    _phantom: PhantomData,
                },
            ),
            None => Err(ApiError::Auth),
        }
    }

    /// Takes note of the answer to a renewal: the new session token is
    /// kept.
    pub fn refreshed(&mut self, answer: responses::AuthLogin)
        ensures
            final(self).session_view() == Some(answer.token.session),
            final(self).refresh_view() == old(self).refresh_view(),
            final(self).saves_data() == old(self).saves_data(),
            final(self).cache_view() == old(self).cache_view(),
    {
        self.session = Some(answer.token.session);
    }

    /// The request that asks whether the session is still good; none
    /// where there is no session, which is then not good.
    pub fn check_auth_request(&self) -> (request: Option<ApiRequest<(), responses::AuthCheck>>)
        ensures
            request is Some == (self.session_view() is Some),
            request is Some ==> request->0.endpoint@ == "/auth/check"@ && request->0.kind
                == ApiRequestKind::Get && request->0.body is Empty,
    {
        if self.session.is_some() {
            Some(plain_request(String::from_str("/auth/check")))
        } else {
            None
        }
    }

    /// The request for the manga `uuid`.
    pub fn manga_view_request(uuid: &Uuid) -> (request: ApiRequest<(), responses::MangaView>)
        ensures
            request.endpoint@ == object_path("/manga/"@, *uuid, ""@),
            request.kind == ApiRequestKind::Get,
            request.body is Empty,
            request.query@ == Seq::<(Seq<char>, Seq<char>)>::empty(),
    {
        plain_request(path_of("/manga/", uuid, ""))
    }

    /// The request for the mangas that `filter` lets through.
    pub fn manga_list_request(filter: &MangaListFilter) -> (request: ApiRequest<
        (),
        responses::MangaList,
    >)
        ensures
            request.endpoint@ == "/manga"@,
            request.kind == ApiRequestKind::Get,
            request.body is Empty,
            request.query@ == crate::api::structs::filter_query(
                *filter,
                crate::api::structs::optional_time(filter.created_at_since),
                crate::api::structs::optional_time(filter.updated_at_since),
            ),
    {
        ApiRequest {
            includes: Vec::new(),
            query: filter.to_query(),
            kind: ApiRequestKind::Get,
            endpoint: String::from_str("/manga"),
            body: ApiRequestBody::Empty,
            _phantom: PhantomData,
        }
    }

    /// The request for the chapters of the manga `uuid`.
    pub fn manga_feed_request(uuid: &Uuid) -> (request: ApiRequest<(), responses::MangaFeed>)
        ensures
            request.endpoint@ == object_path("/manga/"@, *uuid, "/feed"@),
            request.kind == ApiRequestKind::Get,
            request.body is Empty,
            request.query@ == Seq::<(Seq<char>, Seq<char>)>::empty(),
    {
        plain_request(path_of("/manga/", uuid, "/feed"))
    }

    /// The request for the chapter `uuid`.
    pub fn chapter_view_request(uuid: &Uuid) -> (request: ApiRequest<(), responses::ChapterView>)
        ensures
            request.endpoint@ == object_path("/chapter/"@, *uuid, ""@),
            request.kind == ApiRequestKind::Get,
            request.body is Empty,
            request.query@ == Seq::<(Seq<char>, Seq<char>)>::empty(),
    {
        plain_request(path_of("/chapter/", uuid, ""))
    }

    /// The request for where the pages of the chapter `uuid` are served.
    pub fn at_home_request(uuid: &Uuid) -> (request: ApiRequest<(), responses::AtHomeServer>)
        ensures
            request.endpoint@ == object_path("/at-home/server/"@, *uuid, ""@),
            request.kind == ApiRequestKind::Get,
            request.body is Empty,
            request.query@ == Seq::<(Seq<char>, Seq<char>)>::empty(),
    {
        plain_request(path_of("/at-home/server/", uuid, ""))
    }

    /// The chapters of the manga `uuid` as far as the cache knows them;
    /// nothing where it knows none, so that the service is asked.
    pub fn cached_chapters(&self, uuid: &Uuid) -> (chapters: Option<Vec<Uuid>>)
        ensures
            match linked_to(self.cache_view(), *uuid, RelationshipKind::Chapter) {
                Some(ids) => if ids.len() > 0 {
                    chapters is Some && chapters->0@ == ids
                } else {
                    chapters is None
                },
                None => chapters is None,
            },
    {
        match self.cache.get_linked(uuid, RelationshipKind::Chapter) {
            Some(ids) => if ids.len() > 0 {
                Some(ids)
            } else {
                None
            },
            None => None,
        }
    }

    /// The identifier under which the cache keeps where the chapter
    /// `uuid` is served, if it keeps that.
    pub fn cached_at_home(&self, uuid: &Uuid) -> (record: Option<Uuid>)
        ensures
            match linked_to(self.cache_view(), *uuid, RelationshipKind::AtHome) {
                Some(ids) => if ids.len() > 0 {
                    record == Some(ids[0])
                } else {
                    record is None
                },
                None => record is None,
            },
    {
        match self.cache.get_linked(uuid, RelationshipKind::AtHome) {
            Some(ids) => if ids.len() > 0 {
                Some(ids[0])
            } else {
                None
            },
            None => None,
        }
    }

    /// What the cache holds under `uuid` at the time `now`. An object that
    /// is out of date is removed and not found.
    pub fn cached(&mut self, uuid: &Uuid, now: u64) -> (value: Option<&CacheValue>)
        ensures
            final(self).cache_view() == after_get(old(self).cache_view(), *uuid, now),
            final(self).saves_data() == old(self).saves_data(),
            final(self).session_view() == old(self).session_view(),
            final(self).refresh_view() == old(self).refresh_view(),
            match found(old(self).cache_view(), *uuid, now) {
                Some(v) => value is Some && *value->0 == v,
                None => value is None,
            },
    {
        self.cache.get(uuid, now)
    }

    /// The addresses of the pages of a chapter, in order, in the quality
    /// that is wanted.
    pub fn page_urls(&self, record: &AtHomeServerChapter) -> (urls: Vec<String>)
        ensures
            urls@.len() == page_files(*record, self.saves_data()).len(),
            forall|i: int|
                0 <= i < urls@.len() ==> (#[trigger] urls@[i])@ == page_url(
                    record.base_url@,
                    self.saves_data(),
                    record.hash@,
                    page_files(*record, self.saves_data())[i]@,
                ),
    {
        let files = if self.data_saver {
            &record.data_saver
        } else {
            &record.data
        };
        let mut urls: Vec<String> = Vec::new();
        let mut i: usize = 0;
        while i < files.len()
            invariant
                i <= files@.len(),
                files@ == page_files(*record, self.saves_data()),
                urls@.len() == i,
                forall|j: int|
                    0 <= j < i ==> (#[trigger] urls@[j])@ == page_url(
                        record.base_url@,
                        self.saves_data(),
                        record.hash@,
                        files@[j]@,
                    ),
            decreases files@.len() - i,
        {
            let mut url = record.base_url.clone();
            url.append("/");
            if self.data_saver {
                url.append("data_saver");
            } else {
                url.append("data");
            }
            url.append("/");
            url.append(record.hash.as_str());
            url.append("/");
            url.append(files[i].as_str());
            urls.push(url);
            i += 1;
        }
        urls
    }

    /// Forgets what the cache holds under `uuid`, so that the service is
    /// asked the next time.
    pub fn invalidate_cache(&mut self, uuid: &Uuid)
        ensures
            final(self).cache_view() == removed(old(self).cache_view(), *uuid),
            final(self).saves_data() == old(self).saves_data(),
            final(self).session_view() == old(self).session_view(),
            final(self).refresh_view() == old(self).refresh_view(),
    {
        self.cache.remove(uuid);
    }

    /// Empties the cache.
    pub fn clear_cache(&mut self)
        ensures
            final(self).cache_view() == (CacheView {
                data: Map::<u128, EntryView>::empty(),
                expires: old(self).cache_view().expires,
            }),
            final(self).saves_data() == old(self).saves_data(),
            final(self).session_view() == old(self).session_view(),
            final(self).refresh_view() == old(self).refresh_view(),
    {
        self.cache.clear();
    }
}

} // verus!
