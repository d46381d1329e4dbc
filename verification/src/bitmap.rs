//! The bitmap container: a 54-byte header, the colour table and the packed
//! rows, bottom row first.

use crate::color::{palette, palette_bytes, PALETTE_LEN};
use crate::layout::ROWS;
use crate::row::{
    assemble_row, file_row, lemma_packed_pair_nibbles, pixel_color, screen_row, ROW_LEN, WIDTH,
};
use crate::screen::{cell_attribute, cell_pixels, ScreenDump};
use vstd::prelude::*;

verus! {

/// Length of the header block: 14 bytes of file header and 40 bytes of
/// image header.
pub const HEADER_LEN: usize = 54;

/// Length of the image header, which is also the value of its first field.
pub const INFO_HEADER_LEN: usize = 40;

/// Offset of the first byte of pixel data: header block plus colour table.
pub const PIXEL_DATA_OFFSET: usize = 118;

/// Length of the pixel data: 192 rows of 128 bytes.
pub const PIXEL_DATA_LEN: usize = 24576;

/// Length of a whole bitmap file.
pub const FILE_LEN: usize = 24694;

/// Number of colour planes.
pub const PLANES: u16 = 1;

/// Number of bits that store one pixel.
pub const BITS_PER_PIXEL: u16 = 4;

/// The two bytes of `value`, least significant first.
pub open spec fn le16(value: int) -> Seq<u8> {
    seq![(value % 256) as u8, (value / 256 % 256) as u8]
}

/// The four bytes of `value`, least significant first.
pub open spec fn le32(value: int) -> Seq<u8> {
    seq![
        (value % 256) as u8,
        (value / 256 % 256) as u8,
        (value / 65536 % 256) as u8,
        (value / 16777216 % 256) as u8,
    ]
}

/// The file header: the signature `BM`, the length of the file, four
/// reserved bytes and the offset of the pixel data.
pub open spec fn file_header_bytes() -> Seq<u8> {
    seq![0x42u8, 0x4du8] + le32(FILE_LEN as int) + le32(0) + le32(PIXEL_DATA_OFFSET as int)
}

/// The image header: its own length, width and height in pixels, one colour
/// plane, four bits per pixel, no compression, the length of the pixel data,
/// and zero for both resolutions and both colour counts.
pub open spec fn info_header_bytes() -> Seq<u8> {
    le32(INFO_HEADER_LEN as int) + le32(WIDTH as int) + le32(ROWS as int) + le16(PLANES as int)
        + le16(BITS_PER_PIXEL as int) + le32(0) + le32(PIXEL_DATA_LEN as int) + le32(0) + le32(0)
        + le32(0) + le32(0)
}

/// The header block.
pub open spec fn header_bytes() -> Seq<u8> {
    file_header_bytes() + info_header_bytes()
}

/// What precedes the pixel data in every bitmap file: header block and
/// colour table.
pub open spec fn preamble_bytes() -> Seq<u8> {
    header_bytes() + palette_bytes()
}

/// The pixel data of the dump `screen`: the packed rows of the picture from
/// the bottom row to the top row.
pub open spec fn pixel_data(screen: Seq<u8>) -> Seq<u8> {
    Seq::new(PIXEL_DATA_LEN as nat, |i: int| file_row(screen, i / (ROW_LEN as int))[i % (ROW_LEN as int)])
}

/// Position, within a bitmap file, of the byte that holds the pixel in
/// column `x` of screen row `y`.
pub open spec fn pixel_position(x: int, y: int) -> int {
    PIXEL_DATA_OFFSET + ROW_LEN * (ROWS - 1 - y) + x / 2
}

/// The bitmap file that shows the dump `screen`.
pub open spec fn bitmap_file(screen: Seq<u8>) -> Seq<u8> {
    preamble_bytes() + pixel_data(screen)
}

/// Appends the two bytes of `value` to `out`, least significant first.
pub fn push_le16(out: &mut Vec<u8>, value: u16)
    ensures
        final(out)@ == old(out)@ + le16(value as int),
{
    out.push((value & 0xff) as u8);
    out.push((value >> 8) as u8);
    assert((value & 0xff) as u8 == (value % 256) as u8 && (value >> 8) as u8 == (value / 256 % 256) as u8)
        by (bit_vector);
    assert(out@ =~= old(out)@ + le16(value as int));
}

/// Appends the four bytes of `value` to `out`, least significant first.
pub fn push_le32(out: &mut Vec<u8>, value: u32)
    ensures
        final(out)@ == old(out)@ + le32(value as int),
{
    out.push((value & 0xff) as u8);
    out.push(((value >> 8) & 0xff) as u8);
    out.push(((value >> 16) & 0xff) as u8);
    out.push((value >> 24) as u8);
    assert((value & 0xff) as u8 == (value % 256) as u8 && ((value >> 8) & 0xff) as u8 == (value / 256
        % 256) as u8 && ((value >> 16) & 0xff) as u8 == (value / 65536 % 256) as u8 && (value >> 24) as u8
        == (value / 16777216 % 256) as u8) by (bit_vector);
    assert(out@ =~= old(out)@ + le32(value as int));
}

/// Builds the header block.
pub fn header() -> (out: Vec<u8>)
    ensures
        out@ == header_bytes(),
        out@.len() == HEADER_LEN,
{
    let mut out: Vec<u8> = Vec::new();
    out.push(0x42);
    out.push(0x4d);
    assert(out@ =~= seq![0x42u8, 0x4du8]);
    push_le32(&mut out, FILE_LEN as u32);
    push_le32(&mut out, 0);
    push_le32(&mut out, PIXEL_DATA_OFFSET as u32);
    assert(out@ == file_header_bytes());
    let ghost head = out@;
    push_le32(&mut out, INFO_HEADER_LEN as u32);
    push_le32(&mut out, WIDTH as u32);
    push_le32(&mut out, ROWS as u32);
    push_le16(&mut out, PLANES);
    push_le16(&mut out, BITS_PER_PIXEL);
    push_le32(&mut out, 0);
    push_le32(&mut out, PIXEL_DATA_LEN as u32);
    push_le32(&mut out, 0);
    push_le32(&mut out, 0);
    push_le32(&mut out, 0);
    push_le32(&mut out, 0);
    assert(out@ =~= head + info_header_bytes());
    out
}

/// Builds the bitmap file that shows `dump`.
pub fn encode(dump: &ScreenDump) -> (image: Vec<u8>)
    ensures
        image@ == bitmap_file(dump@),
        image@.len() == FILE_LEN,
        image@.subrange(0, PIXEL_DATA_OFFSET as int) == preamble_bytes(),
{
    let mut image: Vec<u8> = header();
    let mut table: Vec<u8> = palette();
    image.append(&mut table);
    assert(image@ == preamble_bytes());
    let mut row: usize = 0;
    while row < ROWS
        invariant
            row <= ROWS,
            image@.len() == PIXEL_DATA_OFFSET + ROW_LEN * row,
            image@.subrange(0, PIXEL_DATA_OFFSET as int) == preamble_bytes(),
            forall|i: int|
                0 <= i < ROW_LEN * row ==> image@[PIXEL_DATA_OFFSET + i] == pixel_data(dump@)[i],
        decreases ROWS - row,
    {
        let mut packed: Vec<u8> = assemble_row(dump, row);
        let ghost before = image@;
        let ghost added = packed@;
        image.append(&mut packed);
        assert(image@ == before + added);
        assert(image@.subrange(0, PIXEL_DATA_OFFSET as int) =~= before.subrange(
            0,
            PIXEL_DATA_OFFSET as int,
        ));
        assert forall|i: int| 0 <= i < ROW_LEN * (row + 1) implies image@[PIXEL_DATA_OFFSET + i]
            == pixel_data(dump@)[i] by {
            if i >= ROW_LEN * row {
                assert(i / (ROW_LEN as int) == row && i % (ROW_LEN as int) == i - ROW_LEN * row);
                assert(image@[PIXEL_DATA_OFFSET + i] == added[i - ROW_LEN * row]);
            } else {
                assert(image@[PIXEL_DATA_OFFSET + i] == before[PIXEL_DATA_OFFSET + i]);
            }
        }
        row = row + 1;
    }
    assert(image@ =~= image@.subrange(0, PIXEL_DATA_OFFSET as int) + pixel_data(dump@));
    image
}

/// Every bitmap file has the same length, whatever the dump holds.
pub proof fn lemma_file_len(screen: Seq<u8>)
    ensures
        header_bytes().len() == HEADER_LEN,
        palette_bytes().len() == PALETTE_LEN,
        preamble_bytes().len() == PIXEL_DATA_OFFSET,
        pixel_data(screen).len() == PIXEL_DATA_LEN,
        bitmap_file(screen).len() == FILE_LEN,
{
}

/// Header block and colour table do not depend on the dump: two bitmap files
/// agree on everything before the pixel data.
pub proof fn lemma_preamble_is_fixed(first: Seq<u8>, second: Seq<u8>)
    ensures
        bitmap_file(first).subrange(0, PIXEL_DATA_OFFSET as int) == preamble_bytes(),
        bitmap_file(first).subrange(0, PIXEL_DATA_OFFSET as int) == bitmap_file(second).subrange(
            0,
            PIXEL_DATA_OFFSET as int,
        ),
{
    lemma_file_len(first);
    lemma_file_len(second);
    assert(bitmap_file(first).subrange(0, PIXEL_DATA_OFFSET as int) =~= preamble_bytes());
    assert(bitmap_file(second).subrange(0, PIXEL_DATA_OFFSET as int) =~= preamble_bytes());
}

/// Rows are stored bottom-up: the row at position `row` of the pixel data is
/// screen row `191 - row`, so the file begins with the bottom row of the
/// screen and ends with its top row.
pub proof fn lemma_rows_are_stored_bottom_up(screen: Seq<u8>, row: int)
    requires
        0 <= row < ROWS,
    ensures
        bitmap_file(screen).subrange(
            PIXEL_DATA_OFFSET + ROW_LEN * row,
            PIXEL_DATA_OFFSET + ROW_LEN * (row + 1),
        ) == screen_row(screen, ROWS - 1 - row),
{
    lemma_file_len(screen);
    let stored = bitmap_file(screen).subrange(
        PIXEL_DATA_OFFSET + ROW_LEN * row,
        PIXEL_DATA_OFFSET + ROW_LEN * (row + 1),
    );
    assert forall|c: int| 0 <= c < ROW_LEN implies stored[c] == screen_row(screen, ROWS - 1 - row)[c] by {
        let i = ROW_LEN * row + c;
        assert(i / (ROW_LEN as int) == row && i % (ROW_LEN as int) == c);
        assert(stored[c] == pixel_data(screen)[i]);
    }
    assert(stored =~= screen_row(screen, ROWS - 1 - row));
}

/// Where a pixel of the screen stands in the file: the pixel in column `x` of
/// screen row `y` is one nibble of the byte at `pixel_position(x, y)`, the
/// high nibble for an even column and the low nibble for an odd one, and
/// that nibble is the ink of the pixel's cell where the pixel is set and its
/// paper where it is clear.
pub proof fn lemma_pixel_in_file(screen: Seq<u8>, x: int, y: int)
    requires
        0 <= x < WIDTH,
        0 <= y < ROWS,
    ensures
        PIXEL_DATA_OFFSET <= pixel_position(x, y) < FILE_LEN,
        x % 2 == 0 ==> bitmap_file(screen)[pixel_position(x, y)] / 16 == pixel_color(
            cell_pixels(screen, y, x / 8),
            cell_attribute(screen, y, x / 8),
            x % 8,
        ),
        x % 2 == 1 ==> bitmap_file(screen)[pixel_position(x, y)] % 16 == pixel_color(
            cell_pixels(screen, y, x / 8),
            cell_attribute(screen, y, x / 8),
            x % 8,
        ),
{
    let row = ROWS - 1 - y;
    let c = x / 2;
    lemma_rows_are_stored_bottom_up(screen, row);
    lemma_file_len(screen);
    let stored = bitmap_file(screen).subrange(
        PIXEL_DATA_OFFSET + ROW_LEN * row,
        PIXEL_DATA_OFFSET + ROW_LEN * (row + 1),
    );
    assert(stored[c] == bitmap_file(screen)[pixel_position(x, y)]);
    assert(c / 4 == x / 8 && 2 * (c % 4) + x % 2 == x % 8);
    lemma_packed_pair_nibbles(cell_pixels(screen, y, x / 8), cell_attribute(screen, y, x / 8), c % 4);
}

} // verus!
