//! The first content: which manga the application opens, and which of its
//! chapters.

use vstd::prelude::*;
use rand::seq::SliceRandom;
use crate::api::ids::{parsed_uuid, Uuid};

verus! {

/// The text of the identifier of the manga that is opened at startup.
pub open spec fn initial_manga_text() -> Seq<char> {
    "e78a489b-6632-4d61-b00b-5206f5b8b22b"@
}

/// The manga that is opened at startup.
pub fn initial_manga() -> (manga: Option<Uuid>)
    ensures
        match parsed_uuid(initial_manga_text()) {
            Some(value) => manga == Some(Uuid { value }),
            None => manga is None,
        },
{
    Uuid::parse_str("e78a489b-6632-4d61-b00b-5206f5b8b22b")
}

/// `rand::seq::SliceRandom::choose` with the thread's generator: one of
/// `items`, drawn at random, or nothing where there is none. Which one is
/// drawn is not known.
#[verifier::external_body]
fn choose_one(items: &Vec<Uuid>) -> (chosen: Option<Uuid>)
    ensures
        items@.len() == 0 ==> chosen is None,
        items@.len() > 0 ==> chosen is Some && items@.contains(chosen->0),
{
    items.choose(&mut rand::thread_rng()).copied()
}

/// The chapter that is read first: any one of `chapters`, or nothing where
/// the manga has none.
pub fn pick_chapter(chapters: &Vec<Uuid>) -> (chapter: Option<Uuid>)
    ensures
        chapters@.len() == 0 ==> chapter is None,
        chapters@.len() > 0 ==> chapter is Some && chapters@.contains(chapter->0),
{
    choose_one(chapters)
}

} // verus!
