//! The commands of the terminal's graphics protocol, as text.

use vstd::prelude::*;
use vstd::string::{StrSliceExecFns, StringExecFns};
use crate::images::ImagePlacement;
use crate::text::{decimal, push_decimal, push_signed, signed_decimal};

verus! {

/// A setting that is sent only when it has a value: a comma, its name, an
/// equals sign and the value.
pub open spec fn optional_setting(name: Seq<char>, value: Option<u32>) -> Seq<char> {
    match value {
        Some(v) => ","@ + name + "="@ + decimal(v as nat),
        None => Seq::empty(),
    }
}

/// The settings of a placement, separated by commas: the source corner
/// always, the source size and the size in cells where they are given.
pub open spec fn placement_settings(placement: ImagePlacement) -> Seq<char> {
    "x="@ + decimal(placement.source_x as nat) + ",y="@ + decimal(placement.source_y as nat)
        + optional_setting("w"@, placement.source_width) + optional_setting(
        "h"@,
        placement.source_height,
    ) + optional_setting("c"@, placement.width) + optional_setting("r"@, placement.height)
}

/// The command that shows image `id` as placement `pid`: the cursor is
/// moved to the placement's cell, then the image is put there.
pub open spec fn display_text(id: u32, pid: u32, placement: ImagePlacement) -> Seq<char> {
    "\x1b["@ + decimal(placement.y as nat) + ";"@ + decimal(placement.x as nat) + "H"@
        + "\x1b_Ga=p,C=1,z="@ + signed_decimal(placement.z_index as int) + ",i="@ + decimal(
        id as nat,
    ) + ",p="@ + decimal(pid as nat) + ","@ + placement_settings(placement) + ";AAAA\x1b\\"@
}

/// The command that removes every placement.
pub open spec fn delete_all_text() -> Seq<char> {
    "\x1b_Ga=d,d=a;AAAA\x1b\\"@
}

/// The command that removes placement `pid` of image `id`.
pub open spec fn delete_placement_text(id: u32, pid: u32) -> Seq<char> {
    "\x1b_Ga=d,d=i,i="@ + decimal(id as nat) + ",p="@ + decimal(pid as nat) + ";AAAA\x1b\\"@
}

/// The command that makes the terminal forget image `id`.
pub open spec fn unload_text(id: u32) -> Seq<char> {
    "\x1b_Ga=d,d=i,i="@ + decimal(id as nat) + ";AAAA\x1b\\"@
}

/// How many characters of an encoded image go into one command.
pub const CHUNK: usize = 4096;

/// Into how many commands an encoded image of `len` characters is split.
pub open spec fn chunk_count(len: nat) -> nat {
    (len + 4095) / 4096
}

/// The settings of the `index`-th of the commands that transmit an image:
/// the first describes the image, and all but the last of the others say
/// that more follows.
pub open spec fn chunk_settings(id: u32, width: u32, height: u32, index: nat, len: nat) -> Seq<
    char,
> {
    if index == 0 {
        "f=32,i="@ + decimal(id as nat) + ",s="@ + decimal(width as nat) + ",v="@ + decimal(
            height as nat,
        ) + ",t=d,m=1"@
    } else if index + 1 == chunk_count(len) {
        "m=0"@
    } else {
        "m=1"@
    }
}

/// The part of `encoded` that the `index`-th command carries.
pub open spec fn chunk_payload(encoded: Seq<char>, index: nat) -> Seq<char> {
    encoded.subrange(
        (index * 4096) as int,
        if (index + 1) * 4096 <= encoded.len() {
            ((index + 1) * 4096) as int
        } else {
            encoded.len() as int
        },
    )
}

/// The `index`-th of the commands that transmit an image.
pub open spec fn chunk_text(id: u32, width: u32, height: u32, encoded: Seq<char>, index: nat) -> Seq<
    char,
> {
    "\x1b_G"@ + chunk_settings(id, width, height, index, encoded.len()) + ";"@ + chunk_payload(
        encoded,
        index,
    ) + "\x1b\\"@
}

/// The commands that transmit an image of `width` by `height` pixels whose
/// encoded pixels are `encoded`, as image `id`.
pub open spec fn load_texts(id: u32, width: u32, height: u32, encoded: Seq<char>) -> Seq<Seq<char>> {
    Seq::new(chunk_count(encoded.len()), |index: int| chunk_text(id, width, height, encoded, index as nat))
}

/// The views of a sequence of strings.
pub open spec fn texts(strings: Seq<String>) -> Seq<Seq<char>> {
    strings.map_values(|s: String| s@)
}

fn push_optional(out: &mut String, name: &str, value: Option<u32>)
    ensures
        final(out)@ == old(out)@ + optional_setting(name@, value),
{
    match value {
        Some(v) => {
            out.append(",");
            out.append(name);
            out.append("=");
            push_decimal(out, v as u64);
            assert(out@ =~= old(out)@ + optional_setting(name@, value));
        },
        None => {
            assert(out@ =~= old(out)@ + optional_setting(name@, value));
        },
    }
}

fn push_settings(out: &mut String, placement: &ImagePlacement)
    ensures
        final(out)@ == old(out)@ + placement_settings(*placement),
{
    out.append("x=");
    push_decimal(out, placement.source_x as u64);
    out.append(",y=");
    push_decimal(out, placement.source_y as u64);
    push_optional(out, "w", placement.source_width);
    push_optional(out, "h", placement.source_height);
    push_optional(out, "c", placement.width);
    push_optional(out, "r", placement.height);
    assert(out@ =~= old(out)@ + placement_settings(*placement));
}

/// The command that shows image `id` as placement `pid`.
pub fn display_image(id: u32, pid: u32, placement: ImagePlacement) -> (command: String)
    ensures
        command@ == display_text(id, pid, placement),
{
    let mut out = String::from_str("\x1b[");
    push_decimal(&mut out, placement.y as u64);
    out.append(";");
    push_decimal(&mut out, placement.x as u64);
    out.append("H");
    out.append("\x1b_Ga=p,C=1,z=");
    push_signed(&mut out, placement.z_index as i64);
    out.append(",i=");
    push_decimal(&mut out, id as u64);
    out.append(",p=");
    push_decimal(&mut out, pid as u64);
    out.append(",");
    push_settings(&mut out, &placement);
    out.append(";AAAA\x1b\\");
    assert(out@ =~= display_text(id, pid, placement));
    out
}

/// The command that removes every placement.
pub fn delete_all_placements() -> (command: String)
    ensures
        command@ == delete_all_text(),
{
    String::from_str("\x1b_Ga=d,d=a;AAAA\x1b\\")
}

/// The command that removes placement `pid` of image `id`.
pub fn delete_placement(id: u32, pid: u32) -> (command: String)
    ensures
        command@ == delete_placement_text(id, pid),
{
    let mut out = String::from_str("\x1b_Ga=d,d=i,i=");
    push_decimal(&mut out, id as u64);
    out.append(",p=");
    push_decimal(&mut out, pid as u64);
    out.append(";AAAA\x1b\\");
    assert(out@ =~= delete_placement_text(id, pid));
    out
}

/// The command that makes the terminal forget image `id`.
pub fn unload_image(id: u32) -> (command: String)
    ensures
        command@ == unload_text(id),
{
    let mut out = String::from_str("\x1b_Ga=d,d=i,i=");
    push_decimal(&mut out, id as u64);
    out.append(";AAAA\x1b\\");
    assert(out@ =~= unload_text(id));
    out
}

/// The part of `encoded` between two positions, counted in characters.
fn slice_of<'a>(encoded: &'a str, ascii: bool, from: usize, to: usize) -> (part: &'a str)
    requires
        from <= to <= encoded@.len(),
        ascii ==> encoded.is_ascii(),
    ensures
        part@ == encoded@.subrange(from as int, to as int),
{
    if ascii {
        encoded.substring_ascii(from, to)
    } else {
        encoded.substring_char(from, to)
    }
}

/// The commands that transmit an image of `width` by `height` pixels as
/// image `id`, given its encoded pixels: one command for every 4096
/// characters, the first of which describes the image.
pub fn load_image_commands(id: u32, width: u32, height: u32, encoded: &str) -> (commands: Vec<
    String,
>)
    ensures
        texts(commands@) == load_texts(id, width, height, encoded@),
{
    let len: usize = encoded.unicode_len();
    let ascii = encoded.is_ascii();
    let count: usize = len / CHUNK + if len % CHUNK == 0 {
        0
    } else {
        1
    };
    assert(count == chunk_count(len as nat));
    let mut commands: Vec<String> = Vec::new();
    let mut index: usize = 0;
    while index < count
        invariant
            index <= count,
            count == chunk_count(len as nat),
            len == encoded@.len(),
            ascii ==> encoded.is_ascii(),
            commands@.len() == index,
            forall|j: int|
                0 <= j < index ==> (#[trigger] commands@[j])@ == chunk_text(
                    id,
                    width,
                    height,
                    encoded@,
                    j as nat,
                ),
        decreases count - index,
    {
        let from: usize = index * CHUNK;
        let to: usize = if len - from >= CHUNK {
            from + CHUNK
        } else {
            len
        };
        let mut out = String::from_str("\x1b_G");
        if index == 0 {
            out.append("f=32,i=");
            push_decimal(&mut out, id as u64);
            out.append(",s=");
            push_decimal(&mut out, width as u64);
            out.append(",v=");
            push_decimal(&mut out, height as u64);
            out.append(",t=d,m=1");
        } else if index + 1 == count {
            out.append("m=0");
        } else {
            out.append("m=1");
        }
        out.append(";");
        out.append(slice_of(encoded, ascii, from, to));
        out.append("\x1b\\");
        assert(out@ =~= chunk_text(id, width, height, encoded@, index as nat));
        commands.push(out);
        index += 1;
    }
    assert(texts(commands@) =~= load_texts(id, width, height, encoded@));
    commands
}

} // verus!
