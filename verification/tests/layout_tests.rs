use scr2bmp::layout::{
    attribute_index, bitmap_index, ATTRIBUTES_LEN, BITMAP_LEN, COLUMNS, ROWS, SCREEN_LEN,
};

#[test]
fn regions_add_up_to_a_screen() {
    assert_eq!(ROWS, 192);
    assert_eq!(COLUMNS, 32);
    assert_eq!(BITMAP_LEN, 6144);
    assert_eq!(ATTRIBUTES_LEN, 768);
    assert_eq!(SCREEN_LEN, 6912);
    assert_eq!(BITMAP_LEN + ATTRIBUTES_LEN, SCREEN_LEN);
    assert_eq!(ROWS * COLUMNS, BITMAP_LEN);
}

#[test]
fn bitmap_index_of_named_rows() {
    assert_eq!(bitmap_index(0, 0), 0);
    assert_eq!(bitmap_index(0, 31), 31);
    assert_eq!(bitmap_index(1, 0), 256);
    assert_eq!(bitmap_index(7, 0), 1792);
    assert_eq!(bitmap_index(8, 0), 32);
    assert_eq!(bitmap_index(8, 3), 35);
    assert_eq!(bitmap_index(9, 0), 288);
    assert_eq!(bitmap_index(63, 31), 2047);
    assert_eq!(bitmap_index(64, 0), 2048);
    assert_eq!(bitmap_index(128, 0), 4096);
    assert_eq!(bitmap_index(191, 31), 6143);
}

#[test]
fn bitmap_index_rearranges_the_bits_of_every_row() {
    let mut y: usize = 0;
    while y < ROWS {
        let fine: usize = y & 7;
        let coarse: usize = (y >> 3) & 7;
        let third: usize = y >> 6;
        let line: usize = (third << 6) | (fine << 3) | coarse;
        let mut ax: usize = 0;
        while ax < COLUMNS {
            assert_eq!(bitmap_index(y, ax), line * 32 + ax);
            ax += 1;
        }
        y += 1;
    }
}

#[test]
fn bitmap_index_reads_every_byte_exactly_once() {
    let mut seen: Vec<u32> = vec![0; BITMAP_LEN];
    let mut y: usize = 0;
    while y < ROWS {
        let mut ax: usize = 0;
        while ax < COLUMNS {
            let index: usize = bitmap_index(y, ax);
            assert!(index < BITMAP_LEN);
            seen[index] += 1;
            ax += 1;
        }
        y += 1;
    }
    let mut index: usize = 0;
    while index < BITMAP_LEN {
        assert_eq!(seen[index], 1);
        index += 1;
    }
}

#[test]
fn consecutive_bytes_step_through_the_lines_of_a_character_row_last() {
    assert_eq!(bitmap_index(0, 0) + 32, bitmap_index(8, 0));
    assert_eq!(bitmap_index(0, 0) + 256, bitmap_index(1, 0));
    assert_eq!(bitmap_index(56, 0) + 32, bitmap_index(1, 0));
}

#[test]
fn attribute_index_is_shared_by_eight_rows() {
    assert_eq!(attribute_index(0, 0), 0);
    assert_eq!(attribute_index(7, 0), 0);
    assert_eq!(attribute_index(8, 0), 32);
    assert_eq!(attribute_index(15, 5), 37);
    assert_eq!(attribute_index(100, 17), 12 * 32 + 17);
    assert_eq!(attribute_index(191, 31), 767);
    let mut y: usize = 0;
    while y < ROWS {
        let mut ax: usize = 0;
        while ax < COLUMNS {
            assert_eq!(attribute_index(y, ax), (y / 8) * 32 + ax);
            ax += 1;
        }
        y += 1;
    }
}
