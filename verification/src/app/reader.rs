//! Reading sessions: what is being read, and where in it the reader is.

use vstd::prelude::*;
use crate::images::{Area, ImageFailure, ImagePlacement};
use crate::images::manager::{centered, with_placement, ImageManager, ManagerView};

verus! {

/// One page that is to be fetched and handed to the image manager.
#[derive(Clone, Debug, PartialEq, Eq)]
pub struct PageDownload {
    /// The number under which the image manager is to keep the page.
    pub image: u32,
    /// Where the page is to be had.
    pub url: String,
}

/// A reading session, as the loops see it: it can be advanced, taken back,
/// drawn and started.
pub trait Reader: Sized {
    /// What holds of the session at all times.
    spec fn wf(&self) -> bool;

    /// The image that the session shows.
    spec fn shown_image(&self) -> u32;

    /// The session one step further on.
    spec fn advanced(&self) -> Self;

    /// The session one step further back.
    spec fn retreated(&self) -> Self;

    /// Advances the reading, to the next page for one.
    fn next(&mut self)
        requires
            old(self).wf(),
        ensures
            final(self).wf(),
            *final(self) == old(self).advanced(),
    ;

    /// Takes the reading one step back.
    fn previous(&mut self)
        requires
            old(self).wf(),
        ensures
            final(self).wf(),
            *final(self) == old(self).retreated(),
    ;

    /// Wants what the session shows in the middle of `area`, spread over
    /// `columns` by `rows` cells, and nothing else. Fails when the image
    /// is not there yet; then nothing is wanted.
    fn draw(&self, area: Area, columns: u32, rows: u32, images: &mut ImageManager) -> (result:
        Result<(), ImageFailure>)
        requires
            self.wf(),
            old(images).wf(),
        ensures
            final(images).wf(),
            old(images)@.images.contains_key(self.shown_image()) ==> result is Ok && final(images)@
                == (ManagerView {
                wanted: seq![(self.shown_image(), centered(area, columns, rows))],
                ..old(images)@
            }),
            !old(images)@.images.contains_key(self.shown_image()) ==> result == Err::<
                (),
                ImageFailure,
            >(ImageFailure::Missing) && final(images)@ == (ManagerView {
                wanted: Seq::<(u32, ImagePlacement)>::empty(),
                ..old(images)@
            }),
    ;

    /// Starts reading `chapter`, a list of addresses of pages, at its
    /// first page, and says which pages are to be fetched.
    fn read(&mut self, chapter: Vec<String>) -> (downloads: Vec<PageDownload>)
        requires
            old(self).wf(),
            chapter@.len() < u32::MAX,
        ensures
            final(self).wf(),
            downloads@.len() == chapter@.len(),
            forall|i: int|
                0 <= i < chapter@.len() ==> (#[trigger] downloads@[i]).image == i + 1
                    && downloads@[i].url@ == chapter@[i]@,
    ;
}

/// A reader that shows a chapter page by page.
pub struct PageReader {
    pages: usize,
    current: usize,
    dirty: bool,
}

/// A `PageReader`, as a mathematical value.
pub struct PageView {
    /// How many pages the chapter has.
    pub pages: nat,
    /// The page that is shown, counted from zero.
    pub current: nat,
}

impl View for PageReader {
    type V = PageView;

    closed spec fn view(&self) -> PageView {
        PageView { pages: self.pages as nat, current: self.current as nat }
    }
}

/// The page after `current` in a chapter of `pages` pages: the next one,
/// or the last one where there is no next.
pub open spec fn page_after(pages: nat, current: nat) -> nat {
    if current + 1 < pages {
        current + 1
    } else if pages == 0 {
        0
    } else {
        (pages - 1) as nat
    }
}

/// The page before `current`: the previous one, or the first one where
/// there is no previous.
pub open spec fn page_before(current: nat) -> nat {
    if current == 0 {
        0
    } else {
        (current - 1) as nat
    }
}

impl PageReader {
    /// A reader without a chapter.
    pub fn new() -> (reader: Self)
        ensures
            reader.wf(),
            reader@ == (PageView { pages: 0, current: 0 }),
    {
        PageReader { pages: 0, current: 0, dirty: false }
    }

    /// The page that is shown, counted from zero.
    pub fn current(&self) -> (page: usize)
        ensures
            page == self@.current,
    {
        self.current
    }

    /// How many pages the chapter has.
    pub fn pages(&self) -> (pages: usize)
        ensures
            pages == self@.pages,
    {
        self.pages
    }

    /// The number under which the image manager keeps the page that is
    /// shown: pages are numbered from one.
    pub fn current_image(&self) -> (image: u32)
        requires
            self.wf(),
        ensures
            image == self.shown_image(),
            image == self@.current + 1,
    {
        (self.current as u32) + 1
    }
}

impl Reader for PageReader {
    /// The shown page is one of the chapter's, and each page number fits
    /// an image number.
    closed spec fn wf(&self) -> bool {
        &&& self.pages < u32::MAX
        &&& self.current < self.pages || self.current == 0
    }

    closed spec fn shown_image(&self) -> u32 {
        (self.current + 1) as u32
    }

    closed spec fn advanced(&self) -> Self {
        PageReader {
            pages: self.pages,
            current: page_after(self.pages as nat, self.current as nat) as usize,
            dirty: self.dirty,
        }
    }

    closed spec fn retreated(&self) -> Self {
        PageReader {
            pages: self.pages,
            current: page_before(self.current as nat) as usize,
            dirty: self.dirty,
        }
    }

    fn next(&mut self)
        ensures
            final(self)@ == (PageView {
                current: page_after(old(self)@.pages, old(self)@.current),
                ..old(self)@
            }),
    {
        if self.pages == 0 {
            self.current = 0;
        } else if self.current + 1 < self.pages {
            self.current = self.current + 1;
        } else {
            self.current = self.pages - 1;
        }
    }

    fn previous(&mut self)
        ensures
            final(self)@ == (PageView { current: page_before(old(self)@.current), ..old(self)@ }),
    {
        if self.current > 0 {
            self.current = self.current - 1;
        }
    }

    fn draw(&self, area: Area, columns: u32, rows: u32, images: &mut ImageManager) -> (result:
        Result<(), ImageFailure>)
    {
        let image = self.current_image();
        images.hide_all_images();
        let result = images.display_image_centered(image, area, columns, rows);
        proof {
            let emptied = Seq::<(u32, ImagePlacement)>::empty();
            if old(images)@.images.contains_key(image) {
                assert(with_placement(emptied, image, centered(area, columns, rows)) =~= seq![
                    (image, centered(area, columns, rows)),
                ]);
            }
        }
        result
    }

    fn read(&mut self, chapter: Vec<String>) -> (downloads: Vec<PageDownload>)
        ensures
            final(self)@ == (PageView { pages: chapter@.len(), current: 0 }),
    {
        self.pages = chapter.len();
        self.current = 0;
        let mut downloads: Vec<PageDownload> = Vec::new();
        let mut i: usize = 0;
        while i < chapter.len()
            invariant
                i <= chapter@.len(),
                chapter@.len() < u32::MAX,
                downloads@.len() == i,
                forall|j: int|
                    0 <= j < i ==> (#[trigger] downloads@[j]).image == j + 1 && downloads@[j].url@
                        == chapter@[j]@,
            decreases chapter@.len() - i,
        {
            downloads.push(PageDownload { image: (i as u32) + 1, url: chapter[i].clone() });
            i += 1;
        }
        downloads
    }
}

} // verus!
