//! Geometry of a screen dump and the interleaved addressing of its bitmap
//! region.

use vstd::prelude::*;

verus! {

/// Number of pixel rows on the screen.
pub const ROWS: usize = 192;

/// Number of 8-pixel cells in one pixel row.
pub const COLUMNS: usize = 32;

/// Length of the bitmap region at the start of a screen dump.
pub const BITMAP_LEN: usize = 6144;

/// Length of the attribute region that follows the bitmap region.
pub const ATTRIBUTES_LEN: usize = 768;

/// Length of a whole screen dump.
pub const SCREEN_LEN: usize = 6912;

/// Whether `(y, ax)` names a cell strip of the screen: pixel row `y`, counted
/// from the top, and cell column `ax`, counted from the left.
pub open spec fn valid_cell(y: int, ax: int) -> bool {
    0 <= y < ROWS && 0 <= ax < COLUMNS
}

/// Offset, within the bitmap region, of the byte holding the eight pixels of
/// cell column `ax` in pixel row `y`.
///
/// A row number splits into the third of the screen (`y / 64`), the character
/// row within that third (`y / 8 % 8`) and the pixel line within the character
/// row (`y % 8`). Memory steps through the 32 columns first, then the eight
/// character rows of a third, then the eight pixel lines, then the thirds.
pub open spec fn bitmap_offset(y: int, ax: int) -> int {
    (y / 64) * 2048 + (y % 8) * 256 + (y / 8 % 8) * 32 + ax
}

/// The cell strip whose pixels the bitmap byte at `offset` holds: the inverse
/// of [`bitmap_offset`].
pub open spec fn cell_at(offset: int) -> (int, int) {
    ((offset / 2048) * 64 + (offset / 32 % 8) * 8 + offset / 256 % 8, offset % 32)
}

/// Offset, within the attribute region, of the byte that colours cell column
/// `ax` in pixel row `y`. Eight consecutive pixel rows share one attribute
/// row of 32 bytes.
pub open spec fn attribute_offset(y: int, ax: int) -> int {
    (y / 8) * 32 + ax
}

/// Computes [`bitmap_offset`] by moving the bit fields of `y` into place:
/// bits 0-2 go to bits 3-5, bits 3-5 go to bits 0-2, bits 6-7 stay, and the
/// rearranged row number is placed above the five bits of the column.
pub fn bitmap_index(y: usize, ax: usize) -> (index: usize)
    requires
        valid_cell(y as int, ax as int),
    ensures
        index == bitmap_offset(y as int, ax as int),
        index < BITMAP_LEN,
{
    let line: usize = ((y & 0x07) << 3) | ((y & 0x38) >> 3) | (y & 0xc0);
    let index: usize = (line << 5) | ax;
    assert(index == (y / 64) * 2048 + (y % 8) * 256 + (y / 8 % 8) * 32 + ax && index < 6144)
        by (bit_vector)
        requires
            y < 192,
            ax < 32,
            line == ((y & 0x07) << 3) | ((y & 0x38) >> 3) | (y & 0xc0),
            index == (line << 5) | ax,
    ;
    index
}

/// Computes [`attribute_offset`] by clearing the pixel-line bits of `y` and
/// scaling what is left to the stride of an attribute row.
pub fn attribute_index(y: usize, ax: usize) -> (index: usize)
    requires
        valid_cell(y as int, ax as int),
    ensures
        index == attribute_offset(y as int, ax as int),
        index < ATTRIBUTES_LEN,
{
    let band: usize = (y & 0xf8) << 2;
    assert(band == (y / 8) * 32 && band <= 736) by (bit_vector)
        requires
            y < 192,
            band == (y & 0xf8) << 2,
    ;
    band + ax
}

/// Every cell strip reads a byte inside the bitmap region, and `cell_at`
/// leads from that byte back to the strip.
pub proof fn lemma_cell_at_bitmap_offset(y: int, ax: int)
    requires
        valid_cell(y, ax),
    ensures
        0 <= bitmap_offset(y, ax) < BITMAP_LEN,
        cell_at(bitmap_offset(y, ax)) == (y, ax),
{
    let row: u32 = y as u32;
    let column: u32 = ax as u32;
    let offset: u32 = bitmap_offset(y, ax) as u32;
    assert(offset < 6144 && (offset / 2048) * 64 + (offset / 32 % 8) * 8 + offset / 256 % 8 == row
        && offset % 32 == column) by (bit_vector)
        requires
            row < 192,
            column < 32,
            offset == (row / 64) * 2048 + (row % 8) * 256 + (row / 8 % 8) * 32 + column,
    ;
}

/// Every byte of the bitmap region is read by a cell strip: the one that
/// `cell_at` names.
pub proof fn lemma_bitmap_offset_cell_at(offset: int)
    requires
        0 <= offset < BITMAP_LEN,
    ensures
        valid_cell(cell_at(offset).0, cell_at(offset).1),
        bitmap_offset(cell_at(offset).0, cell_at(offset).1) == offset,
{
    let from: u32 = offset as u32;
    let row: u32 = cell_at(offset).0 as u32;
    let column: u32 = cell_at(offset).1 as u32;
    assert(row < 192 && column < 32 && (row / 64) * 2048 + (row % 8) * 256 + (row / 8 % 8) * 32
        + column == from) by (bit_vector)
        requires
            from < 6144,
            row == (from / 2048) * 64 + (from / 32 % 8) * 8 + from / 256 % 8,
            column == from % 32,
    ;
}

/// Address translation is one-to-one: two cell strips that read the same
/// bitmap byte are the same strip.
pub proof fn lemma_bitmap_offset_injective(y1: int, ax1: int, y2: int, ax2: int)
    requires
        valid_cell(y1, ax1),
        valid_cell(y2, ax2),
        bitmap_offset(y1, ax1) == bitmap_offset(y2, ax2),
    ensures
        y1 == y2,
        ax1 == ax2,
{
    lemma_cell_at_bitmap_offset(y1, ax1);
    lemma_cell_at_bitmap_offset(y2, ax2);
}

/// Address translation is onto: every byte of the bitmap region is the byte
/// of some cell strip.
pub proof fn lemma_bitmap_offset_surjective(offset: int)
    requires
        0 <= offset < BITMAP_LEN,
    ensures
        exists|y: int, ax: int| valid_cell(y, ax) && #[trigger] bitmap_offset(y, ax) == offset,
{
    lemma_bitmap_offset_cell_at(offset);
    let (y, ax) = cell_at(offset);
    assert(valid_cell(y, ax) && bitmap_offset(y, ax) == offset);
}

} // verus!
