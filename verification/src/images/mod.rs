//! Images in the terminal: what is known of the terminal's size, where an
//! image is to be placed, and the manager that keeps the terminal in line
//! with the placements that are wanted.

pub mod manager;
pub mod protocol;

use vstd::prelude::*;

verus! {

/// The size of the terminal, in pixels and in cells.
#[derive(Clone, Copy, Debug, PartialEq, Eq, Structural)]
pub struct TermWinSize {
    pub width: u16,
    pub height: u16,
    pub cols: u16,
    pub rows: u16,
}

/// A rectangle of cells.
#[derive(Clone, Copy, Debug, PartialEq, Eq, Structural)]
pub struct Area {
    pub x: u16,
    pub y: u16,
    pub width: u16,
    pub height: u16,
}

/// Which part of an image is shown, where, and how large.
#[derive(Clone, Copy, Debug, PartialEq, Eq, Structural)]
pub struct ImagePlacement {
    /// The left edge of the part of the image that is shown, in pixels.
    pub source_x: u32,
    /// The top edge of the part of the image that is shown, in pixels.
    pub source_y: u32,
    /// The width of the part that is shown; the whole width if absent.
    pub source_width: Option<u32>,
    /// The height of the part that is shown; the whole height if absent.
    pub source_height: Option<u32>,
    /// Over how many columns the image is spread.
    pub width: Option<u32>,
    /// Over how many rows the image is spread.
    pub height: Option<u32>,
    /// The column of the top left cell.
    pub x: u32,
    /// The row of the top left cell.
    pub y: u32,
    /// What the image lies above and below.
    pub z_index: i32,
}

impl ImagePlacement {
    /// The whole image at its natural size, in the top left corner, above
    /// the text.
    pub open spec fn standard() -> ImagePlacement {
        ImagePlacement {
            source_x: 0,
            source_y: 0,
            source_width: None,
            source_height: None,
            width: None,
            height: None,
            x: 0,
            y: 0,
            z_index: 50000,
        }
    }
}

impl Default for ImagePlacement {
    fn default() -> (placement: Self)
        ensures
            placement == ImagePlacement::standard(),
    {
        ImagePlacement {
            source_x: 0,
            source_y: 0,
            source_width: None,
            source_height: None,
            width: None,
            height: None,
            x: 0,
            y: 0,
            z_index: 50000,
        }
    }
}

/// A decoded image: its size in pixels and its pixels, four bytes each.
#[derive(Clone, Debug, PartialEq, Eq)]
pub struct Image {
    pub width: u32,
    pub height: u32,
    pub rgba: Vec<u8>,
}

/// The mathematical value of an `Image`.
pub struct ImageView {
    pub width: u32,
    pub height: u32,
    pub rgba: Seq<u8>,
}

impl View for Image {
    type V = ImageView;

    open spec fn view(&self) -> ImageView {
        ImageView { width: self.width, height: self.height, rgba: self.rgba@ }
    }
}

/// What can go wrong with an image.
#[derive(Clone, Copy, Debug, PartialEq, Eq, Structural)]
pub enum ImageFailure {
    /// No image is known by that number.
    Missing,
    /// The bytes are no image in a format that is understood.
    Undecodable,
    /// The image has more pixels than can be sent to the terminal.
    TooLarge,
}

} // verus!
