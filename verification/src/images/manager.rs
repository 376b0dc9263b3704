//! The image manager: which images exist, which of them the terminal holds,
//! which placements it shows and which are wanted.

use vstd::prelude::*;
use std::collections::{HashMap, VecDeque};
use crate::consts::IMAGE_SLOTS;
use crate::images::{Area, Image, ImageFailure, ImagePlacement, ImageView};
use crate::images::protocol::{
    delete_placement, delete_placement_text, display_image, display_text, load_image_commands,
    load_texts, texts, unload_image, unload_text,
};

verus! {

/// The error type of the `image` crate. Nothing inside it is visible to the
/// verifier.
#[verifier::external_type_specification]
#[verifier::external_body]
pub struct ExDecodeError(image::ImageError);

/// What `base64::encode` makes of `bytes`: their base64 text in the
/// standard alphabet, with padding.
pub uninterp spec fn base64_text(bytes: Seq<u8>) -> Seq<char>;

/// What `image::load_from_memory` makes of `bytes`: the image they hold,
/// with its pixels as four bytes each, or nothing where they hold none that
/// is understood.
pub uninterp spec fn decoded_image(bytes: Seq<u8>) -> Option<ImageView>;

/// Whether the base64 text of this many bytes has a length that fits the
/// machine.
pub open spec fn encodable(len: nat) -> bool {
    len / 3 <= (usize::MAX - 4) / 4
}

/// `base64::encode`: the base64 text of `bytes`. The call panics when the
/// length of the text overflows, which the precondition rules out.
#[verifier::external_body]
fn encode_base64(bytes: &Vec<u8>) -> (encoded: String)
    requires
        encodable(bytes@.len()),
    ensures
        encoded@ == base64_text(bytes@),
{
    base64::encode(bytes)
}

/// `image::load_from_memory`, followed by the conversion of the decoded
/// image to its size and its pixels (`DynamicImage::width`, `height` and
/// `into_rgba8`): the image that `bytes` hold, or the crate's error.
#[verifier::external_body]
fn decode_image(bytes: &Vec<u8>) -> (result: Result<Image, image::ImageError>)
    ensures
        match decoded_image(bytes@) {
            Some(view) => result is Ok && result->Ok_0@ == view,
            None => result is Err,
        },
{
    match image::load_from_memory(bytes) {
        Ok(decoded) => Ok(
            Image {
                width: decoded.width(),
                height: decoded.height(),
                rgba: decoded.into_rgba8().into_raw(),
            },
        ),
        Err(error) => Err(error),
    }
}

/// The manager, as a mathematical value.
pub struct ManagerView {
    /// The images that exist, by their number.
    pub images: Map<u32, Image>,
    /// The images that the terminal holds, the most recently sent first.
    pub loaded: Seq<u32>,
    /// The placements that the terminal shows.
    pub shown: Seq<(u32, ImagePlacement)>,
    /// The placements that are wanted.
    pub wanted: Seq<(u32, ImagePlacement)>,
}

/// Whether `entries` holds at most one placement for each image.
pub open spec fn one_per_image(entries: Seq<(u32, ImagePlacement)>) -> bool {
    forall|i: int, j: int|
        0 <= i < j < entries.len() ==> (#[trigger] entries[i]).0 != (#[trigger] entries[j]).0
}

/// Whether `id` is the image of one of `entries`.
pub open spec fn places(entries: Seq<(u32, ImagePlacement)>, id: u32) -> bool {
    exists|i: int| 0 <= i < entries.len() && (#[trigger] entries[i]).0 == id
}

/// The position of the placement of image `id` in `entries`, if it has one.
pub open spec fn position(entries: Seq<(u32, ImagePlacement)>, id: u32) -> Option<int> {
    if places(entries, id) {
        Some(choose|i: int| 0 <= i < entries.len() && (#[trigger] entries[i]).0 == id)
    } else {
        None
    }
}

/// `entries` without the placement of image `id`.
pub open spec fn without(entries: Seq<(u32, ImagePlacement)>, id: u32) -> Seq<
    (u32, ImagePlacement),
> {
    match position(entries, id) {
        Some(at) => entries.remove(at),
        None => entries,
    }
}

/// The placements that are wanted once image `id` is wanted at
/// `placement`: its earlier placement is replaced where it stood, a new one
/// goes to the end.
pub open spec fn with_placement(
    entries: Seq<(u32, ImagePlacement)>,
    id: u32,
    placement: ImagePlacement,
) -> Seq<(u32, ImagePlacement)> {
    match position(entries, id) {
        Some(at) => entries.update(at, (id, placement)),
        None => entries.push((id, placement)),
    }
}

/// Where an image that is spread over `columns` by `rows` cells goes so
/// that it sits in the middle of `area`.
pub open spec fn centered(area: Area, columns: u32, rows: u32) -> ImagePlacement {
    let left: nat = if columns <= area.width {
        ((area.width - columns) / 2) as nat
    } else {
        0
    };
    let top: nat = if rows <= area.height {
        ((area.height - rows) / 2) as nat
    } else {
        0
    };
    ImagePlacement {
        width: Some(columns),
        height: Some(rows),
        x: (area.x + left) as u32,
        y: (area.y + top) as u32,
        ..ImagePlacement::standard()
    }
}

/// The images that the terminal holds once image `id` has been made sure
/// of: `id` goes to the front unless it is there already, and the image at
/// the back gives way when all slots are taken.
pub open spec fn loaded_with(loaded: Seq<u32>, id: u32) -> Seq<u32> {
    if loaded.contains(id) {
        loaded
    } else if loaded.len() >= IMAGE_SLOTS {
        seq![id] + loaded.drop_last()
    } else {
        seq![id] + loaded
    }
}

/// The commands that make sure that the terminal holds image `id`: none
/// where it holds it already; else the image at the back is unloaded when
/// all slots are taken, and `image` is transmitted.
pub open spec fn loading_texts(loaded: Seq<u32>, id: u32, image: ImageView) -> Seq<Seq<char>> {
    if loaded.contains(id) {
        Seq::empty()
    } else if loaded.len() >= IMAGE_SLOTS {
        seq![unload_text(loaded.last())] + load_texts(
            id,
            image.width,
            image.height,
            base64_text(image.rgba),
        )
    } else {
        load_texts(id, image.width, image.height, base64_text(image.rgba))
    }
}

/// The manager once it has forgotten what the terminal holds and shows.
pub open spec fn invalidated(manager: ManagerView) -> ManagerView {
    ManagerView { loaded: Seq::empty(), shown: Seq::empty(), ..manager }
}

/// How far a draw has come.
pub struct DrawView {
    /// The images that the terminal holds.
    pub loaded: Seq<u32>,
    /// The wanted placements that were shown already.
    pub kept: Seq<(u32, ImagePlacement)>,
    /// The wanted placements that had to be sent.
    pub fresh: Seq<(u32, ImagePlacement)>,
    /// The commands sent so far.
    pub commands: Seq<Seq<char>>,
}

/// The draw after the first `n` wanted placements: one that is shown
/// already is kept; for any other its image is made sure of and the
/// placement is sent.
pub open spec fn placed(manager: ManagerView, n: nat) -> DrawView
    decreases n,
{
    if n == 0 {
        DrawView {
            loaded: manager.loaded,
            kept: Seq::empty(),
            fresh: Seq::empty(),
            commands: Seq::empty(),
        }
    } else {
        let before = placed(manager, (n - 1) as nat);
        let entry = manager.wanted[n - 1];
        if manager.shown.contains(entry) {
            DrawView { kept: before.kept.push(entry), ..before }
        } else {
            DrawView {
                loaded: loaded_with(before.loaded, entry.0),
                kept: before.kept,
                fresh: before.fresh.push(entry),
                commands: (before.commands + loading_texts(
                    before.loaded,
                    entry.0,
                    manager.images[entry.0]@,
                )).push(display_text(entry.0, 1, entry.1)),
            }
        }
    }
}

/// The commands that take away those of the first `n` shown placements
/// that are no longer wanted.
pub open spec fn removed(manager: ManagerView, n: nat) -> Seq<Seq<char>>
    decreases n,
{
    if n == 0 {
        Seq::empty()
    } else {
        let before = removed(manager, (n - 1) as nat);
        let entry = manager.shown[n - 1];
        if manager.wanted.contains(entry) {
            before
        } else {
            before.push(delete_placement_text(entry.0, 1))
        }
    }
}

/// The manager after a draw: the terminal shows the wanted placements,
/// those it showed before first.
pub open spec fn drawn(manager: ManagerView) -> ManagerView {
    let end = placed(manager, manager.wanted.len());
    ManagerView { loaded: end.loaded, shown: end.kept + end.fresh, ..manager }
}

/// The commands of a draw: first what shows the placements that are new,
/// then what takes away the placements that are no longer wanted.
pub open spec fn draw_texts(manager: ManagerView) -> Seq<Seq<char>> {
    placed(manager, manager.wanted.len()).commands + removed(manager, manager.shown.len())
}

/// The commands that unload each of `loaded`, front to back.
pub open spec fn unload_texts(loaded: Seq<u32>) -> Seq<Seq<char>> {
    loaded.map_values(|id: u32| unload_text(id))
}

/// Keeps images and their placements in the terminal.
pub struct ImageManager {
    images: HashMap<u32, Image>,
    loaded: VecDeque<u32>,
    state: Vec<(u32, ImagePlacement)>,
    requirements: Vec<(u32, ImagePlacement)>,
}

impl View for ImageManager {
    type V = ManagerView;

    closed spec fn view(&self) -> ManagerView {
        ManagerView {
            images: self.images@,
            loaded: self.loaded@,
            shown: self.state@,
            wanted: self.requirements@,
        }
    }
}

/// What holds of a manager at all times: the terminal holds no more images
/// than it has slots and none twice, every image can be encoded, and every
/// wanted placement is of an image that exists, with at most one placement
/// for each.
pub open spec fn valid(manager: ManagerView) -> bool {
    &&& manager.loaded.len() <= IMAGE_SLOTS
    &&& manager.loaded.no_duplicates()
    &&& forall|id: u32| #[trigger]
        manager.images.contains_key(id) ==> encodable(manager.images[id]@.rgba.len())
    &&& forall|i: int|
        0 <= i < manager.wanted.len() ==> manager.images.contains_key(
            (#[trigger] manager.wanted[i]).0,
        )
    &&& one_per_image(manager.wanted)
}

/// Whether `entry` is in `entries`.
fn has_entry(entries: &Vec<(u32, ImagePlacement)>, entry: &(u32, ImagePlacement)) -> (b: bool)
    ensures
        b == entries@.contains(*entry),
{
    let mut i: usize = 0;
    while i < entries.len()
        invariant
            i <= entries.len(),
            forall|j: int| 0 <= j < i ==> entries@[j] != *entry,
        decreases entries.len() - i,
    {
        if entries[i].0 == entry.0 && entries[i].1 == entry.1 {
            return true;
        }
        i += 1;
    }
    false
}

/// The position of the placement of image `id` in `entries`.
fn find_image(entries: &Vec<(u32, ImagePlacement)>, id: u32) -> (at: Option<usize>)
    ensures
        match at {
            Some(i) => i < entries@.len() && entries@[i as int].0 == id,
            None => !places(entries@, id),
        },
{
    let mut i: usize = 0;
    while i < entries.len()
        invariant
            i <= entries.len(),
            forall|j: int| 0 <= j < i ==> (#[trigger] entries@[j]).0 != id,
        decreases entries.len() - i,
    {
        if entries[i].0 == id {
            return Some(i);
        }
        i += 1;
    }
    None
}

impl ImageManager {
    /// What holds of a manager at all times.
    pub open spec fn wf(&self) -> bool {
        valid(self@)
    }

    /// A manager without images.
    pub fn new() -> (manager: Self)
        ensures
            manager.wf(),
            manager@.images == Map::<u32, Image>::empty(),
            manager@.loaded == Seq::<u32>::empty(),
            manager@.shown == Seq::<(u32, ImagePlacement)>::empty(),
            manager@.wanted == Seq::<(u32, ImagePlacement)>::empty(),
    {
        ImageManager {
            images: HashMap::new(),
            loaded: VecDeque::new(),
            state: Vec::new(),
            requirements: Vec::new(),
        }
    }

    /// Whether `image` is small enough for its pixels to be encoded.
    pub fn can_hold(image: &Image) -> (b: bool)
        ensures
            b == encodable(image@.rgba.len()),
    {
        image.rgba.len() / 3 <= (usize::MAX - 4) / 4
    }

    /// Makes `image` the image with number `id`, in place of an earlier
    /// image with that number.
    pub fn add_image(&mut self, id: u32, image: Image)
        requires
            old(self).wf(),
            encodable(image@.rgba.len()),
        ensures
            final(self).wf(),
            final(self)@ == (ManagerView { images: old(self)@.images.insert(id, image), ..old(self)@ }),
    {
        self.images.insert(id, image);
    }

    /// The image with number `id`, if there is one.
    pub fn get_image(&self, id: u32) -> (image: Option<&Image>)
        ensures
            match image {
                Some(found) => self@.images.contains_key(id) && *found == self@.images[id],
                None => !self@.images.contains_key(id),
            },
    {
        self.images.get(&id)
    }

    /// Whether the terminal holds image `id`.
    pub fn is_loaded(&self, id: u32) -> (b: bool)
        ensures
            b == self@.loaded.contains(id),
    {
        let mut i: usize = 0;
        while i < self.loaded.len()
            invariant
                i <= self.loaded@.len(),
                forall|j: int| 0 <= j < i ==> self.loaded@[j] != id,
            decreases self.loaded@.len() - i,
        {
            if self.loaded[i] == id {
                return true;
            }
            i += 1;
        }
        false
    }

    /// Removes all images and all wanted placements. What the terminal
    /// holds and shows stays as it is until the next draw.
    pub fn clear(&mut self)
        requires
            old(self).wf(),
        ensures
            final(self).wf(),
            final(self)@ == (ManagerView {
                images: Map::<u32, Image>::empty(),
                wanted: Seq::<(u32, ImagePlacement)>::empty(),
                ..old(self)@
            }),
    {
        self.images.clear();
        self.requirements.clear();
    }

    /// Wants no image shown any more.
    pub fn hide_all_images(&mut self)
        requires
            old(self).wf(),
        ensures
            final(self).wf(),
            final(self)@ == (ManagerView {
                wanted: Seq::<(u32, ImagePlacement)>::empty(),
                ..old(self)@
            }),
    {
        self.requirements.clear();
    }

    /// Forgets which images the terminal holds, so that each is sent again
    /// before it is next shown. To be used when the terminal has dropped
    /// its images.
    pub fn force_reload_images(&mut self)
        requires
            old(self).wf(),
        ensures
            final(self).wf(),
            final(self)@ == (ManagerView { loaded: Seq::<u32>::empty(), ..old(self)@ }),
    {
        self.loaded.clear();
    }

    /// Forgets all that the terminal was believed to hold and to show, so
    /// that the next draw sends every wanted image and placement again.
    pub fn force_invalidate(&mut self)
        requires
            old(self).wf(),
        ensures
            final(self).wf(),
            final(self)@ == invalidated(old(self)@),
    {
        self.loaded.clear();
        self.state.clear();
        assert(self@.wanted == old(self)@.wanted);
        assert(self@.images == old(self)@.images);
        assert(self@.loaded.len() == 0);
    }
    /// Decodes `bytes` and makes the image they hold the image with number
    /// `id`. Bytes that hold no image, and an image too large to be sent,
    /// change nothing.
    pub fn add_from_memory(&mut self, id: u32, bytes: &Vec<u8>) -> (result: Result<
        (),
        ImageFailure,
    >)
        requires
            old(self).wf(),
        ensures
            final(self).wf(),
            match decoded_image(bytes@) {
                None => result == Err::<(), ImageFailure>(ImageFailure::Undecodable)
                    && final(self)@ == old(self)@,
                Some(view) => if encodable(view.rgba.len()) {
                    &&& result is Ok
                    &&& final(self)@.images.contains_key(id)
                    &&& final(self)@.images[id]@ == view
                    &&& final(self)@ == (ManagerView {
                        images: old(self)@.images.insert(id, final(self)@.images[id]),
                        ..old(self)@
                    })
                } else {
                    result == Err::<(), ImageFailure>(ImageFailure::TooLarge) && final(self)@
                        == old(self)@
                },
            },
    {
        match decode_image(bytes) {
            Ok(image) => {
                if Self::can_hold(&image) {
                    self.add_image(id, image);
                    Ok(())
                } else {
                    Err(ImageFailure::TooLarge)
                }
            },
            Err(_) => Err(ImageFailure::Undecodable),
        }
    }

    /// Makes the terminal forget every image it holds: the commands that do
    /// so, front to back.
    pub fn unload_all(&mut self) -> (commands: Vec<String>)
        requires
            old(self).wf(),
        ensures
            final(self).wf(),
            texts(commands@) == unload_texts(old(self)@.loaded),
            final(self)@ == (ManagerView { loaded: Seq::<u32>::empty(), ..old(self)@ }),
    {
        let mut commands: Vec<String> = Vec::new();
        let mut i: usize = 0;
        while i < self.loaded.len()
            invariant
                i <= self.loaded@.len(),
                commands@.len() == i,
                forall|j: int| 0 <= j < i ==> (#[trigger] commands@[j])@ == unload_text(self.loaded@[j]),
            decreases self.loaded@.len() - i,
        {
            commands.push(unload_image(self.loaded[i]));
            i += 1;
        }
        assert(texts(commands@) =~= unload_texts(self@.loaded));
        self.loaded.clear();
        commands
    }

    /// Wants image `id` shown no more.
    pub fn hide_image(&mut self, id: u32)
        requires
            old(self).wf(),
        ensures
            final(self).wf(),
            final(self)@ == (ManagerView { wanted: without(old(self)@.wanted, id), ..old(self)@ }),
            !places(final(self)@.wanted, id),
    {
        match find_image(&self.requirements, id) {
            Some(at) => {
                proof {
                    lemma_position_is_unique(self.requirements@, id, at as int);
                }
                self.requirements.remove(at);
                assert(!places(self.requirements@, id)) by {
                    let before = old(self)@.wanted;
                    assert forall|i: int| 0 <= i < self.requirements@.len() implies (
                    #[trigger] self.requirements@[i]).0 != id by {
                        if i < at {
                            assert(self.requirements@[i] == before[i]);
                        } else {
                            assert(self.requirements@[i] == before[i + 1]);
                        }
                    }
                }
                assert(one_per_image(self.requirements@)) by {
                    let before = old(self)@.wanted;
                    assert forall|i: int, j: int| 0 <= i < j < self.requirements@.len() implies (
                    #[trigger] self.requirements@[i]).0 != (#[trigger] self.requirements@[j]).0 by {
                        let a = if i < at { i } else { i + 1 };
                        let b = if j < at { j } else { j + 1 };
                        assert(self.requirements@[i] == before[a]);
                        assert(self.requirements@[j] == before[b]);
                    }
                }
                assert forall|i: int| 0 <= i < self.requirements@.len() implies self.images@.contains_key(
                    (#[trigger] self.requirements@[i]).0,
                ) by {
                    let before = old(self)@.wanted;
                    let a = if i < at { i } else { i + 1 };
                    assert(self.requirements@[i] == before[a]);
                }
            },
            None => {},
        }
    }

    /// Wants image `id` shown at `placement`, in place of an earlier
    /// placement of that image. Fails when there is no such image.
    pub fn display_image(&mut self, id: u32, placement: ImagePlacement) -> (result: Result<
        (),
        ImageFailure,
    >)
        requires
            old(self).wf(),
        ensures
            final(self).wf(),
            old(self)@.images.contains_key(id) ==> result is Ok && final(self)@ == (ManagerView {
                wanted: with_placement(old(self)@.wanted, id, placement),
                ..old(self)@
            }),
            !old(self)@.images.contains_key(id) ==> result == Err::<(), ImageFailure>(
                ImageFailure::Missing,
            ) && final(self)@ == old(self)@,
    {
        if self.images.get(&id).is_none() {
            return Err(ImageFailure::Missing);
        }
        match find_image(&self.requirements, id) {
            Some(at) => {
                proof {
                    lemma_position_is_unique(self.requirements@, id, at as int);
                }
                self.requirements.set(at, (id, placement));
                assert(one_per_image(self.requirements@)) by {
                    let before = old(self)@.wanted;
                    assert forall|i: int, j: int| 0 <= i < j < self.requirements@.len() implies (
                    #[trigger] self.requirements@[i]).0 != (#[trigger] self.requirements@[j]).0 by {
                        assert(self.requirements@[i].0 == before[i].0);
                        assert(self.requirements@[j].0 == before[j].0);
                    }
                }
                assert forall|i: int| 0 <= i < self.requirements@.len() implies self.images@.contains_key(
                    (#[trigger] self.requirements@[i]).0,
                ) by {
                    assert(self.requirements@[i].0 == old(self)@.wanted[i].0);
                }
            },
            None => {
                self.requirements.push((id, placement));
                assert(one_per_image(self.requirements@)) by {
                    let before = old(self)@.wanted;
                    assert forall|i: int, j: int| 0 <= i < j < self.requirements@.len() implies (
                    #[trigger] self.requirements@[i]).0 != (#[trigger] self.requirements@[j]).0 by {
                        assert(self.requirements@[i] == before[i]);
                        if j < before.len() {
                            assert(self.requirements@[j] == before[j]);
                        }
                    }
                }
                assert forall|i: int| 0 <= i < self.requirements@.len() implies self.images@.contains_key(
                    (#[trigger] self.requirements@[i]).0,
                ) by {
                    if i < old(self)@.wanted.len() {
                        assert(self.requirements@[i] == old(self)@.wanted[i]);
                    }
                }
            },
        }
        Ok(())
    }

    /// Wants image `id` shown in the middle of `area`, spread over
    /// `columns` by `rows` cells. Fails when there is no such image.
    pub fn display_image_centered(&mut self, id: u32, area: Area, columns: u32, rows: u32) -> (result:
        Result<(), ImageFailure>)
        requires
            old(self).wf(),
        ensures
            final(self).wf(),
            old(self)@.images.contains_key(id) ==> result is Ok && final(self)@ == (ManagerView {
                wanted: with_placement(old(self)@.wanted, id, centered(area, columns, rows)),
                ..old(self)@
            }),
            !old(self)@.images.contains_key(id) ==> result == Err::<(), ImageFailure>(
                ImageFailure::Missing,
            ) && final(self)@ == old(self)@,
    {
        let width: u32 = area.width as u32;
        let height: u32 = area.height as u32;
        let left: u32 = if columns <= width {
            (width - columns) / 2
        } else {
            0
        };
        let top: u32 = if rows <= height {
            (height - rows) / 2
        } else {
            0
        };
        let placement = ImagePlacement {
            source_x: 0,
            source_y: 0,
            source_width: None,
            source_height: None,
            width: Some(columns),
            height: Some(rows),
            x: area.x as u32 + left,
            y: area.y as u32 + top,
            z_index: 50000,
        };
        self.display_image(id, placement)
    }
    /// Makes sure that the terminal holds image `id`, and adds the commands
    /// that do so to `out`.
    fn ensure_loaded(&mut self, id: u32, out: &mut Vec<String>)
        requires
            old(self)@.loaded.len() <= IMAGE_SLOTS,
            old(self)@.loaded.no_duplicates(),
            old(self)@.images.contains_key(id),
            encodable(old(self)@.images[id]@.rgba.len()),
        ensures
            final(self)@ == (ManagerView {
                loaded: loaded_with(old(self)@.loaded, id),
                ..old(self)@
            }),
            final(self)@.loaded.len() <= IMAGE_SLOTS,
            final(self)@.loaded.no_duplicates(),
            texts(final(out)@) == texts(old(out)@) + loading_texts(
                old(self)@.loaded,
                id,
                old(self)@.images[id]@,
            ),
    {
        if self.is_loaded(id) {
            assert(texts(out@) =~= texts(old(out)@) + Seq::<Seq<char>>::empty());
            return ;
        }
        let ghost before = self.loaded@;
        if self.loaded.len() >= IMAGE_SLOTS as usize {
            let last: u32 = self.loaded[self.loaded.len() - 1];
            out.push(unload_image(last));
            self.loaded.pop_back();
            assert(self.loaded@ =~= before.drop_last());
        }
        let ghost kept = self.loaded@;
        let mut commands = match self.images.get(&id) {
            Some(image) => {
                let encoded = encode_base64(&image.rgba);
                load_image_commands(id, image.width, image.height, encoded.as_str())
            },
            None => Vec::new(),
        };
        let ghost sent = commands@;
        let ghost unloaded = out@;
        out.append(&mut commands);
        self.loaded.push_front(id);
        proof {
            assert(self.loaded@ =~= seq![id] + kept);
            assert(texts(out@) =~= texts(unloaded) + texts(sent));
            assert(texts(out@) =~= texts(old(out)@) + loading_texts(
                before,
                id,
                old(self)@.images[id]@,
            ));
            assert forall|i: int, j: int|
                0 <= i < self.loaded@.len() && 0 <= j < self.loaded@.len() && i != j implies self.loaded@[i]
                != self.loaded@[j] by {
                if i > 0 {
                    assert(self.loaded@[i] == before[i - 1]);
                }
                if j > 0 {
                    assert(self.loaded@[j] == before[j - 1]);
                }
            }
        }
    }

    /// Recovers from the loss of the terminal's images: forgets what the
    /// terminal was believed to hold and to show, and draws again. The
    /// commands send every wanted image and placement anew.
    pub fn recover(&mut self) -> (commands: Vec<String>)
        requires
            old(self).wf(),
        ensures
            final(self).wf(),
            final(self)@ == drawn(invalidated(old(self)@)),
            texts(commands@) == draw_texts(invalidated(old(self)@)),
    {
        self.force_invalidate();
        self.draw()
    }

    /// Brings the terminal in line with the wanted placements, and returns
    /// the commands that do so, in the order in which they are to be
    /// written. A wanted placement that is shown already costs nothing; any
    /// other is sent, after its image where the terminal does not hold it;
    /// then every shown placement that is no longer wanted is taken away.
    pub fn draw(&mut self) -> (commands: Vec<String>)
        requires
            old(self).wf(),
        ensures
            final(self).wf(),
            final(self)@ == drawn(old(self)@),
            texts(commands@) == draw_texts(old(self)@),
    {
        let ghost start = self@;
        let mut commands: Vec<String> = Vec::new();
        let mut kept: Vec<(u32, ImagePlacement)> = Vec::new();
        let mut fresh: Vec<(u32, ImagePlacement)> = Vec::new();
        let mut n: usize = 0;
        assert(texts(commands@) =~= placed(start, 0).commands);
        while n < self.requirements.len()
            invariant
                n <= self.requirements@.len(),
                valid(start),
                self@ == (ManagerView { loaded: self@.loaded, ..start }),
                self@.loaded.len() <= IMAGE_SLOTS,
                self@.loaded.no_duplicates(),
                self@.loaded == placed(start, n as nat).loaded,
                kept@ == placed(start, n as nat).kept,
                fresh@ == placed(start, n as nat).fresh,
                texts(commands@) == placed(start, n as nat).commands,
            decreases self.requirements@.len() - n,
        {
            let entry: (u32, ImagePlacement) = self.requirements[n];
            assert(entry == start.wanted[n as int]);
            assert(start.images.contains_key(entry.0));
            if has_entry(&self.state, &entry) {
                kept.push(entry);
            } else {
                let ghost sent = texts(commands@);
                self.ensure_loaded(entry.0, &mut commands);
                let ghost loaded = texts(commands@);
                commands.push(display_image(entry.0, 1, entry.1));
                fresh.push(entry);
                assert(texts(commands@) =~= loaded.push(display_text(entry.0, 1, entry.1)));
            }
            n += 1;
        }
        let ghost placing = texts(commands@);
        let mut k: usize = 0;
        assert(texts(commands@) =~= placing + removed(start, 0));
        while k < self.state.len()
            invariant
                k <= self.state@.len(),
                self@ == (ManagerView { loaded: self@.loaded, ..start }),
                texts(commands@) == placing + removed(start, k as nat),
            decreases self.state@.len() - k,
        {
            let entry: (u32, ImagePlacement) = self.state[k];
            let ghost sent = texts(commands@);
            if !has_entry(&self.requirements, &entry) {
                commands.push(delete_placement(entry.0, 1));
                assert(texts(commands@) =~= sent.push(delete_placement_text(entry.0, 1)));
            }
            assert(texts(commands@) =~= placing + removed(start, (k + 1) as nat));
            k += 1;
        }
        kept.append(&mut fresh);
        self.state = kept;
        commands
    }
}

/// Where each image has at most one placement, the placement of an image
/// is found at one position only.
pub proof fn lemma_position_is_unique(entries: Seq<(u32, ImagePlacement)>, id: u32, at: int)
    requires
        one_per_image(entries),
        0 <= at < entries.len(),
        entries[at].0 == id,
    ensures
        position(entries, id) == Some(at),
{
    assert(places(entries, id));
    let found = choose|i: int| 0 <= i < entries.len() && (#[trigger] entries[i]).0 == id;
    if found < at {
        assert(entries[found].0 != entries[at].0);
    } else if at < found {
        assert(entries[at].0 != entries[found].0);
    }
}

/// How a draw splits the wanted placements: after the first `n` of them,
/// each is either kept or sent, nothing else is, and nothing is sent for a
/// placement that is shown already.
pub proof fn lemma_placed_splits_wanted(manager: ManagerView, n: nat)
    requires
        n <= manager.wanted.len(),
    ensures
        placed(manager, n).kept.len() + placed(manager, n).fresh.len() == n,
        forall|entry: (u32, ImagePlacement)|
            (placed(manager, n).kept + placed(manager, n).fresh).contains(entry) <==> exists|i: int|
                0 <= i < n && manager.wanted[i] == entry,
        forall|i: int|
            0 <= i < placed(manager, n).kept.len() ==> manager.shown.contains(
                #[trigger] placed(manager, n).kept[i],
            ),
        forall|i: int|
            0 <= i < placed(manager, n).fresh.len() ==> !manager.shown.contains(
                #[trigger] placed(manager, n).fresh[i],
            ),
    decreases n,
{
    let now = placed(manager, n);
    if n > 0 {
        let before = placed(manager, (n - 1) as nat);
        lemma_placed_splits_wanted(manager, (n - 1) as nat);
        let last = manager.wanted[n - 1];
        assert forall|entry: (u32, ImagePlacement)|
            (now.kept + now.fresh).contains(entry) <==> exists|i: int|
                0 <= i < n && manager.wanted[i] == entry by {
            let all = now.kept + now.fresh;
            let old_all = before.kept + before.fresh;
            if all.contains(entry) {
                let at = choose|at: int| 0 <= at < all.len() && all[at] == entry;
                if entry != last {
                    if manager.shown.contains(last) {
                        if at < before.kept.len() {
                            assert(old_all[at] == entry);
                        } else {
                            assert(at > before.kept.len());
                            assert(old_all[at - 1] == entry);
                        }
                    } else {
                        assert(old_all[at] == entry);
                    }
                    assert(old_all.contains(entry));
                    let i = choose|i: int| 0 <= i < n - 1 && manager.wanted[i] == entry;
                    assert(0 <= i < n && manager.wanted[i] == entry);
                } else {
                    assert(manager.wanted[n - 1] == entry);
                }
            }
            if exists|i: int| 0 <= i < n && manager.wanted[i] == entry {
                let i = choose|i: int| 0 <= i < n && manager.wanted[i] == entry;
                if i == n - 1 {
                    if manager.shown.contains(last) {
                        assert(all[before.kept.len() as int] == entry);
                    } else {
                        assert(all[all.len() - 1] == entry);
                    }
                } else {
                    assert(old_all.contains(entry));
                    let at = choose|at: int| 0 <= at < old_all.len() && old_all[at] == entry;
                    if manager.shown.contains(last) && at >= before.kept.len() {
                        assert(all[at + 1] == entry);
                    } else {
                        assert(all[at] == entry);
                    }
                }
            }
        }
    } else {
        assert(now.kept + now.fresh =~= Seq::empty());
    }
}

/// After a draw the terminal shows the wanted placements and no others.
pub proof fn lemma_draw_shows_what_is_wanted(manager: ManagerView)
    ensures
        drawn(manager).shown.len() == manager.wanted.len(),
        forall|entry: (u32, ImagePlacement)|
            drawn(manager).shown.contains(entry) <==> manager.wanted.contains(entry),
        drawn(manager).wanted == manager.wanted,
        drawn(manager).images == manager.images,
{
    lemma_placed_splits_wanted(manager, manager.wanted.len());
    assert forall|entry: (u32, ImagePlacement)|
        drawn(manager).shown.contains(entry) <==> manager.wanted.contains(entry) by {
        if manager.wanted.contains(entry) {
            let i = choose|i: int| 0 <= i < manager.wanted.len() && manager.wanted[i] == entry;
            assert(0 <= i < manager.wanted.len() && manager.wanted[i] == entry);
        }
    }
}

/// Where every wanted placement is shown already, placing them sends
/// nothing and leaves the terminal's images as they are.
proof fn lemma_nothing_to_place(manager: ManagerView, n: nat)
    requires
        n <= manager.wanted.len(),
        forall|i: int| 0 <= i < manager.wanted.len() ==> manager.shown.contains(manager.wanted[i]),
    ensures
        placed(manager, n).commands == Seq::<Seq<char>>::empty(),
        placed(manager, n).loaded == manager.loaded,
        placed(manager, n).fresh == Seq::<(u32, ImagePlacement)>::empty(),
        placed(manager, n).kept == manager.wanted.subrange(0, n as int),
    decreases n,
{
    if n > 0 {
        lemma_nothing_to_place(manager, (n - 1) as nat);
        assert(manager.shown.contains(manager.wanted[n - 1]));
        assert(placed(manager, n).kept =~= manager.wanted.subrange(0, n as int));
    } else {
        assert(placed(manager, n).kept =~= manager.wanted.subrange(0, n as int));
    }
}

/// Where every shown placement is wanted, nothing is taken away.
proof fn lemma_nothing_to_remove(manager: ManagerView, n: nat)
    requires
        n <= manager.shown.len(),
        forall|i: int| 0 <= i < manager.shown.len() ==> manager.wanted.contains(manager.shown[i]),
    ensures
        removed(manager, n) == Seq::<Seq<char>>::empty(),
    decreases n,
{
    if n > 0 {
        lemma_nothing_to_remove(manager, (n - 1) as nat);
        assert(manager.wanted.contains(manager.shown[n - 1]));
    }
}

/// A draw settles the terminal: a second draw right after it sends no
/// command, and leaves the terminal's images and the wanted placements as
/// they are.
pub proof fn lemma_second_draw_sends_nothing(manager: ManagerView)
    ensures
        draw_texts(drawn(manager)) == Seq::<Seq<char>>::empty(),
        drawn(drawn(manager)).loaded == drawn(manager).loaded,
        drawn(drawn(manager)).shown == manager.wanted,
{
    let once = drawn(manager);
    lemma_draw_shows_what_is_wanted(manager);
    assert forall|i: int| 0 <= i < once.wanted.len() implies once.shown.contains(
        once.wanted[i],
    ) by {
        assert(manager.wanted.contains(manager.wanted[i]));
    }
    assert forall|i: int| 0 <= i < once.shown.len() implies once.wanted.contains(once.shown[i]) by {
        assert(once.shown.contains(once.shown[i]));
    }
    lemma_nothing_to_place(once, once.wanted.len());
    lemma_nothing_to_remove(once, once.shown.len());
    assert(draw_texts(once) =~= Seq::<Seq<char>>::empty());
    assert(drawn(once).shown =~= manager.wanted);
}

/// Where the terminal shows nothing, as after `force_invalidate`, every
/// wanted placement is sent again, in order, and none is kept.
pub proof fn lemma_invalidated_draw_sends_all(manager: ManagerView, n: nat)
    requires
        manager.shown.len() == 0,
        n <= manager.wanted.len(),
    ensures
        placed(manager, n).fresh == manager.wanted.subrange(0, n as int),
        placed(manager, n).kept == Seq::<(u32, ImagePlacement)>::empty(),
        n > 0 ==> placed(manager, n).commands.len() > 0 && placed(manager, n).commands.last()
            == display_text(manager.wanted[n - 1].0, 1, manager.wanted[n - 1].1),
    decreases n,
{
    if n > 0 {
        lemma_invalidated_draw_sends_all(manager, (n - 1) as nat);
        assert(!manager.shown.contains(manager.wanted[n - 1]));
        assert(placed(manager, n).fresh =~= manager.wanted.subrange(0, n as int));
    } else {
        assert(placed(manager, n).fresh =~= manager.wanted.subrange(0, n as int));
    }
}

} // verus!
