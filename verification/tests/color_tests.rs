use scr2bmp::color::{cell_colors, palette, palette_entry, CellColors, PALETTE_ENTRIES, PALETTE_LEN};

#[test]
fn black_ink_on_white_paper() {
    let colors: CellColors = cell_colors(0x38);
    assert_eq!(colors.ink, 0);
    assert_eq!(colors.paper, 7);
}

#[test]
fn ink_and_paper_come_from_their_bit_fields() {
    assert_eq!(cell_colors(0x00), CellColors { ink: 0, paper: 0 });
    assert_eq!(cell_colors(0x07), CellColors { ink: 7, paper: 0 });
    assert_eq!(cell_colors(0x11), CellColors { ink: 1, paper: 2 });
    assert_eq!(cell_colors(0x2c), CellColors { ink: 4, paper: 5 });
    assert_eq!(cell_colors(0x3f), CellColors { ink: 7, paper: 7 });
}

#[test]
fn brightness_reaches_ink_and_paper_alike() {
    assert_eq!(cell_colors(0x78), CellColors { ink: 8, paper: 15 });
    assert_eq!(cell_colors(0x47), CellColors { ink: 15, paper: 8 });
    assert_eq!(cell_colors(0x40), CellColors { ink: 8, paper: 8 });
    let mut attr: u8 = 0;
    loop {
        let colors: CellColors = cell_colors(attr);
        let bright: bool = attr & 0x40 != 0;
        assert_eq!(colors.ink >= 8, bright);
        assert_eq!(colors.paper >= 8, bright);
        assert_eq!(colors.ink & 7, attr & 7);
        assert_eq!(colors.paper & 7, (attr >> 3) & 7);
        assert!(colors.ink < 16);
        assert!(colors.paper < 16);
        if attr == 255 {
            break;
        }
        attr += 1;
    }
}

#[test]
fn flash_flag_changes_nothing() {
    let mut attr: u8 = 0;
    while attr < 128 {
        assert_eq!(cell_colors(attr), cell_colors(attr | 0x80));
        attr += 1;
    }
}

#[test]
fn palette_holds_the_sixteen_colours_in_bgr_order() {
    let expected: Vec<u8> = vec![
        0x00, 0x00, 0x00, 0x00, 0xc6, 0x17, 0x00, 0x00, 0x00, 0x00, 0xcd, 0x00, 0xc5, 0x00, 0xcc,
        0x00, 0x00, 0xc4, 0x00, 0x00, 0xc2, 0xc5, 0x00, 0x00, 0x00, 0xc0, 0xc2, 0x00, 0xc1, 0xc1,
        0xc1, 0x00, 0x00, 0x00, 0x00, 0x00, 0xff, 0x22, 0x00, 0x00, 0x00, 0x00, 0xff, 0x00, 0xff,
        0x00, 0xff, 0x00, 0x00, 0xff, 0x00, 0x00, 0xff, 0xff, 0x00, 0x00, 0x00, 0xfd, 0xff, 0x00,
        0xff, 0xff, 0xff, 0x00,
    ];
    assert_eq!(PALETTE_ENTRIES, 16);
    assert_eq!(PALETTE_LEN, 64);
    assert_eq!(expected.len(), PALETTE_LEN);
    assert_eq!(palette(), expected);
}

#[test]
fn palette_entries_follow_the_index_bits() {
    assert_eq!(palette_entry(0), (0x00, 0x00, 0x00));
    assert_eq!(palette_entry(1), (0x00, 0x17, 0xc6));
    assert_eq!(palette_entry(2), (0xcd, 0x00, 0x00));
    assert_eq!(palette_entry(4), (0x00, 0xc4, 0x00));
    assert_eq!(palette_entry(7), (0xc1, 0xc1, 0xc1));
    assert_eq!(palette_entry(8), (0x00, 0x00, 0x00));
    assert_eq!(palette_entry(9), (0x00, 0x22, 0xff));
    assert_eq!(palette_entry(14), (0xff, 0xfd, 0x00));
    assert_eq!(palette_entry(15), (0xff, 0xff, 0xff));
    let table: Vec<u8> = palette();
    let mut index: u8 = 0;
    while index < 16 {
        let (red, green, blue): (u8, u8, u8) = palette_entry(index);
        let at: usize = 4 * (index as usize);
        assert_eq!(table[at], blue);
        assert_eq!(table[at + 1], green);
        assert_eq!(table[at + 2], red);
        assert_eq!(table[at + 3], 0);
        index += 1;
    }
}
