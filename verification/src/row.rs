//! Assembly of packed pixel rows: eight one-bit pixels and an attribute byte
//! become four bytes of two palette indices each.

use crate::color::{
    cell_colors, ink_color, lemma_brightness_is_shared, paper_color, CellColors,
};
use crate::layout::{COLUMNS, ROWS};
use crate::screen::{cell_attribute, cell_pixels, ScreenDump};
use vstd::prelude::*;

verus! {

/// Number of pixels in one row of the screen.
pub const WIDTH: usize = 256;

/// Length of one packed row: two pixels to the byte.
pub const ROW_LEN: usize = 128;

/// Whether pixel `k` of a strip is set, where pixel 0 is the leftmost and
/// sits in the most significant bit of the pixel byte.
pub open spec fn pixel_set(bits: u8, k: int) -> bool {
    (bits >> ((7 - k) as u8)) & 1 == 1
}

/// Palette index of pixel `k` of a strip: ink where the pixel is set, paper
/// where it is clear.
pub open spec fn pixel_color(bits: u8, attr: u8, k: int) -> int {
    if pixel_set(bits, k) {
        ink_color(attr)
    } else {
        paper_color(attr)
    }
}

/// Byte `i` of the four that a strip packs into: pixel `2 * i` in the high
/// nibble and pixel `2 * i + 1` in the low nibble.
pub open spec fn packed_pair(bits: u8, attr: u8, i: int) -> u8 {
    (16 * pixel_color(bits, attr, 2 * i) + pixel_color(bits, attr, 2 * i + 1)) as u8
}

/// The four packed bytes of a strip, leftmost pixels first.
pub open spec fn cell_bytes(bits: u8, attr: u8) -> Seq<u8> {
    Seq::new(4, |i: int| packed_pair(bits, attr, i))
}

/// The packed pixels of screen row `y` of the dump `screen`, where row 0 is
/// the top of the picture.
pub open spec fn screen_row(screen: Seq<u8>, y: int) -> Seq<u8> {
    Seq::new(
        ROW_LEN as nat,
        |c: int| packed_pair(cell_pixels(screen, y, c / 4), cell_attribute(screen, y, c / 4), c % 4),
    )
}

/// The packed pixels of row `row` of the picture counted from the bottom,
/// which is the order in which a bitmap file stores its rows.
pub open spec fn file_row(screen: Seq<u8>, row: int) -> Seq<u8> {
    screen_row(screen, ROWS - 1 - row)
}

/// Packs the strip `bits`, coloured by `attr`, and appends its four bytes to
/// `out`.
pub fn assemble_cell(bits: u8, attr: u8, out: &mut Vec<u8>)
    ensures
        final(out)@ == old(out)@ + cell_bytes(bits, attr),
{
    let colors: CellColors = cell_colors(attr);
    let ink: u8 = colors.ink;
    let paper: u8 = colors.paper;
    let mut i: u8 = 0;
    while i < 4
        invariant
            i <= 4,
            ink == ink_color(attr),
            paper == paper_color(attr),
            ink < 16,
            paper < 16,
            out@.len() == old(out)@.len() + i,
            forall|j: int| 0 <= j < old(out)@.len() ==> out@[j] == old(out)@[j],
            forall|j: int| 0 <= j < i ==> out@[old(out)@.len() + j] == packed_pair(bits, attr, j),
        decreases 4 - i,
    {
        let shift: u8 = 2 * (3 - i);
        let group: u8 = bits >> shift;
        let first: u8 = if group & 2 != 0 { ink } else { paper };
        let second: u8 = if group & 1 != 0 { ink } else { paper };
        let pair: u8 = (first << 4) | second;
        proof {
            let k: u8 = (2 * i) as u8;
            assert((group & 2 != 0) == ((bits >> (7 - k) as u8) & 1 == 1) && (group & 1 != 0) == ((
            bits >> ((7 - (k + 1)) as u8)) & 1 == 1)) by (bit_vector)
                requires
                    i < 4,
                    k == 2 * i,
                    shift == 2 * (3 - i),
                    group == bits >> shift,
            ;
            assert(pair == 16 * first + second) by (bit_vector)
                requires
                    first < 16,
                    second < 16,
                    pair == (first << 4) | second,
            ;
            assert(first == pixel_color(bits, attr, 2 * i));
            assert(second == pixel_color(bits, attr, 2 * i + 1));
        }
        out.push(pair);
        i = i + 1;
    }
    assert(out@ =~= old(out)@ + cell_bytes(bits, attr));
}

/// Assembles the packed row that a bitmap file stores at position `row`,
/// where position 0 is the bottom of the picture: screen row `191 - row`.
pub fn assemble_row(dump: &ScreenDump, row: usize) -> (out: Vec<u8>)
    requires
        row < ROWS,
    ensures
        out@ == file_row(dump@, row as int),
        out@.len() == ROW_LEN,
{
    let y: usize = ROWS - 1 - row;
    let mut out: Vec<u8> = Vec::new();
    let mut ax: usize = 0;
    while ax < COLUMNS
        invariant
            ax <= COLUMNS,
            y < ROWS,
            out@.len() == 4 * ax,
            forall|c: int| 0 <= c < out@.len() ==> out@[c] == screen_row(dump@, y as int)[c],
        decreases COLUMNS - ax,
    {
        let attr: u8 = dump.attribute(y, ax);
        let bits: u8 = dump.pixels(y, ax);
        let ghost before = out@;
        assemble_cell(bits, attr, &mut out);
        assert forall|c: int| 0 <= c < out@.len() implies out@[c] == screen_row(dump@, y as int)[c] by {
            if c >= 4 * ax {
                assert(out@[c] == cell_bytes(bits, attr)[c - 4 * ax]);
                assert(c / 4 == ax && c % 4 == c - 4 * ax);
            } else {
                assert(out@[c] == before[c]);
            }
        }
        ax = ax + 1;
    }
    assert(out@ =~= file_row(dump@, row as int));
    out
}

/// A strip with every bit set shows ink in all eight pixels, and a strip with
/// every bit clear shows paper in all eight, whatever the attribute byte.
pub proof fn lemma_solid_strips(attr: u8, k: int)
    requires
        0 <= k < 8,
    ensures
        pixel_color(0xff, attr, k) == ink_color(attr),
        pixel_color(0x00, attr, k) == paper_color(attr),
{
    let shift: u8 = (7 - k) as u8;
    assert((0xffu8 >> shift) & 1 == 1 && (0x00u8 >> shift) & 1 == 0) by (bit_vector)
        requires
            shift < 8,
    ;
}

/// Each packed byte holds two palette indices: the left pixel of the pair in
/// the high nibble, the right pixel in the low nibble.
pub proof fn lemma_packed_pair_nibbles(bits: u8, attr: u8, i: int)
    ensures
        packed_pair(bits, attr, i) / 16 == pixel_color(bits, attr, 2 * i),
        packed_pair(bits, attr, i) % 16 == pixel_color(bits, attr, 2 * i + 1),
{
    lemma_brightness_is_shared(attr);
}

} // verus!
