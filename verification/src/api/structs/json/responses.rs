//! What the service answers.

use vstd::prelude::*;
use crate::api::ids::Uuid;
use crate::api::structs::json::data::{AtHomeServerChapter, Chapter, Manga, Wrapper};

verus! {

/// An answer that comes in pages.
pub trait Paginate: Sized {
    /// How many items the answer holds.
    spec fn held(&self) -> nat;

    /// How many items the whole list has.
    spec fn whole(&self) -> int;

    /// How many items the whole list has.
    fn total(&self) -> (total: i32)
        ensures
            total == self.whole(),
    ;

    /// How many items this answer holds; a number too large for `i32`
    /// counts as the largest.
    fn count(&self) -> (count: i32)
        ensures
            count == if self.held() <= i32::MAX {
                self.held() as int
            } else {
                i32::MAX as int
            },
    ;

    /// Adds the items of the page `o` after those that are there.
    fn concat(&mut self, o: Self)
        ensures
            final(self).held() == old(self).held() + o.held(),
            final(self).whole() == old(self).whole(),
    ;
}

/// The two tokens of a session.
#[derive(Clone, Debug, PartialEq, Eq)]
pub struct AuthLoginToken {
    pub session: String,
    pub refresh: String,
}

/// The answer to a login, and to the renewal of a session.
#[derive(Clone, Debug, PartialEq, Eq)]
pub struct AuthLogin {
    pub token: AuthLoginToken,
}

/// The answer to the question whether the session is still good.
#[derive(Clone, Debug, PartialEq, Eq)]
pub struct AuthCheck {
    pub is_authenticated: bool,
}

/// One manga.
#[derive(Clone, Debug, PartialEq, Eq)]
pub struct MangaView {
    pub data: Wrapper<Manga>,
}

/// A page of the list of mangas.
#[derive(Clone, Debug, PartialEq, Eq)]
pub struct MangaList {
    pub data: Vec<Wrapper<Manga>>,
    pub total: i32,
}

/// One chapter.
#[derive(Clone, Debug, PartialEq, Eq)]
pub struct ChapterView {
    pub data: Wrapper<Chapter>,
}

/// A page of the chapters of a manga.
#[derive(Clone, Debug, PartialEq, Eq)]
pub struct MangaFeed {
    pub data: Vec<Wrapper<Chapter>>,
    pub total: i32,
}

/// Where the pages of a chapter are served.
#[derive(Clone, Debug, PartialEq, Eq)]
pub struct AtHomeServer {
    pub base_url: String,
    pub chapter: AtHomeServerChapter,
    /// Not sent by the service, but needed to know which chapter this is.
    pub chapter_id: Option<Uuid>,
}

impl Paginate for MangaFeed {
    open spec fn held(&self) -> nat {
        self.data@.len()
    }

    open spec fn whole(&self) -> int {
        self.total as int
    }

    fn total(&self) -> (total: i32) {
        self.total
    }

    fn count(&self) -> (count: i32) {
        if self.data.len() <= i32::MAX as usize {
            self.data.len() as i32
        } else {
            i32::MAX
        }
    }

    fn concat(&mut self, o: Self)
        ensures
            final(self).data@ == old(self).data@ + o.data@,
    {
        let mut o = o;
        self.data.append(&mut o.data);
    }
}

impl Paginate for MangaList {
    open spec fn held(&self) -> nat {
        self.data@.len()
    }

    open spec fn whole(&self) -> int {
        self.total as int
    }

    fn total(&self) -> (total: i32) {
        self.total
    }

    fn count(&self) -> (count: i32) {
        if self.data.len() <= i32::MAX as usize {
            self.data.len() as i32
        } else {
            i32::MAX
        }
    }

    fn concat(&mut self, o: Self)
        ensures
            final(self).data@ == old(self).data@ + o.data@,
    {
        let mut o = o;
        self.data.append(&mut o.data);
    }
}

} // verus!
