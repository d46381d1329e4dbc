//! Colours: the palette indices that an attribute byte selects, and the
//! 16-entry colour table that gives those indices their meaning.

use vstd::prelude::*;

verus! {

/// Number of entries in the colour table.
pub const PALETTE_ENTRIES: usize = 16;

/// Length of the colour table in a bitmap file: four bytes per entry.
pub const PALETTE_LEN: usize = 64;

/// Whether the brightness flag (bit 6) of an attribute byte is set.
pub open spec fn is_bright(attr: u8) -> bool {
    attr / 64 % 2 == 1
}

/// What the brightness flag adds to a base colour.
pub open spec fn brightness(attr: u8) -> int {
    if is_bright(attr) {
        8
    } else {
        0
    }
}

/// Palette index of the foreground of a cell: the base colour in bits 0-2 of
/// the attribute byte, raised by the cell's brightness.
pub open spec fn ink_color(attr: u8) -> int {
    attr % 8 + brightness(attr)
}

/// Palette index of the background of a cell: the base colour in bits 3-5 of
/// the attribute byte, raised by the cell's brightness.
pub open spec fn paper_color(attr: u8) -> int {
    attr / 8 % 8 + brightness(attr)
}

/// The two palette indices of a cell.
#[derive(Clone, Copy, Debug, PartialEq, Eq, Structural)]
pub struct CellColors {
    /// Index used where a pixel bit is set.
    pub ink: u8,
    /// Index used where a pixel bit is clear.
    pub paper: u8,
}

/// Decodes an attribute byte. The flash flag (bit 7) plays no part.
pub fn cell_colors(attr: u8) -> (colors: CellColors)
    ensures
        colors.ink == ink_color(attr),
        colors.paper == paper_color(attr),
        colors.ink < 16,
        colors.paper < 16,
        is_bright(attr) <==> colors.ink >= 8,
        is_bright(attr) <==> colors.paper >= 8,
{
    let paper: u8 = (attr >> 3) & 0x0f;
    let ink: u8 = (attr & 0x07) | (paper & 0x08);
    assert(paper == attr / 8 % 8 + 8 * (attr / 64 % 2) && ink == attr % 8 + 8 * (attr / 64 % 2)
        && attr / 64 % 2 <= 1) by (bit_vector)
        requires
            paper == (attr >> 3) & 0x0f,
            ink == (attr & 0x07) | (paper & 0x08),
    ;
    CellColors { ink, paper }
}

/// Ink and paper of a cell are both bright or both normal: each index is its
/// three-bit base colour, plus 8 exactly when the attribute byte carries the
/// brightness flag.
pub proof fn lemma_brightness_is_shared(attr: u8)
    ensures
        0 <= ink_color(attr) < 16,
        0 <= paper_color(attr) < 16,
        is_bright(attr) <==> ink_color(attr) >= 8,
        is_bright(attr) <==> paper_color(attr) >= 8,
        ink_color(attr) % 8 == attr % 8,
        paper_color(attr) % 8 == attr / 8 % 8,
{
}

/// Red, green and blue levels of a palette entry.
///
/// Bit 0 of an index stands for blue, bit 1 for red, bit 2 for green and
/// bit 3 for brightness, so the entries run black, blue, red, magenta, green,
/// cyan, yellow, white, first normal and then bright.
pub open spec fn palette_rgb(index: int) -> (u8, u8, u8) {
    if index == 1 {
        (0x00, 0x17, 0xc6)
    } else if index == 2 {
        (0xcd, 0x00, 0x00)
    } else if index == 3 {
        (0xcc, 0x00, 0xc5)
    } else if index == 4 {
        (0x00, 0xc4, 0x00)
    } else if index == 5 {
        (0x00, 0xc5, 0xc2)
    } else if index == 6 {
        (0xc2, 0xc0, 0x00)
    } else if index == 7 {
        (0xc1, 0xc1, 0xc1)
    } else if index == 9 {
        (0x00, 0x22, 0xff)
    } else if index == 10 {
        (0xff, 0x00, 0x00)
    } else if index == 11 {
        (0xff, 0x00, 0xff)
    } else if index == 12 {
        (0x00, 0xff, 0x00)
    } else if index == 13 {
        (0x00, 0xff, 0xff)
    } else if index == 14 {
        (0xff, 0xfd, 0x00)
    } else if index == 15 {
        (0xff, 0xff, 0xff)
    } else {
        (0x00, 0x00, 0x00)
    }
}

/// The byte at position `i` of the colour table: entries of four bytes each,
/// in the order blue, green, red, reserved.
pub open spec fn palette_byte(i: int) -> u8 {
    let (red, green, blue) = palette_rgb(i / 4);
    if i % 4 == 0 {
        blue
    } else if i % 4 == 1 {
        green
    } else if i % 4 == 2 {
        red
    } else {
        0
    }
}

/// The colour table as it stands in a bitmap file.
pub open spec fn palette_bytes() -> Seq<u8> {
    Seq::new(PALETTE_LEN as nat, |i: int| palette_byte(i))
}

/// Red, green and blue levels of the palette entry `index`.
pub fn palette_entry(index: u8) -> (rgb: (u8, u8, u8))
    requires
        index < PALETTE_ENTRIES,
    ensures
        rgb == palette_rgb(index as int),
{
    match index {
        1 => (0x00, 0x17, 0xc6),
        2 => (0xcd, 0x00, 0x00),
        3 => (0xcc, 0x00, 0xc5),
        4 => (0x00, 0xc4, 0x00),
        5 => (0x00, 0xc5, 0xc2),
        6 => (0xc2, 0xc0, 0x00),
        7 => (0xc1, 0xc1, 0xc1),
        9 => (0x00, 0x22, 0xff),
        10 => (0xff, 0x00, 0x00),
        11 => (0xff, 0x00, 0xff),
        12 => (0x00, 0xff, 0x00),
        13 => (0x00, 0xff, 0xff),
        14 => (0xff, 0xfd, 0x00),
        15 => (0xff, 0xff, 0xff),
        _ => (0x00, 0x00, 0x00),
    }
}

/// Builds the colour table.
pub fn palette() -> (table: Vec<u8>)
    ensures
        table@ == palette_bytes(),
        table@.len() == PALETTE_LEN,
{
    let mut table: Vec<u8> = Vec::new();
    let mut index: u8 = 0;
    while index < 16
        invariant
            index <= 16,
            table@.len() == 4 * index,
            forall|i: int| 0 <= i < table@.len() ==> table@[i] == palette_byte(i),
        decreases 16 - index,
    {
        let (red, green, blue): (u8, u8, u8) = palette_entry(index);
        table.push(blue);
        table.push(green);
        table.push(red);
        table.push(0);
        index = index + 1;
    }
    assert(table@ =~= palette_bytes());
    table
}

} // verus!
