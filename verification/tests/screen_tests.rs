use scr2bmp::layout::{BITMAP_LEN, SCREEN_LEN};
use scr2bmp::screen::ScreenDump;

#[test]
fn a_dump_has_exactly_the_length_of_a_screen() {
    assert!(ScreenDump::from_bytes(&vec![0u8; SCREEN_LEN]).is_some());
    assert!(ScreenDump::from_bytes(&vec![0u8; SCREEN_LEN - 1]).is_none());
    assert!(ScreenDump::from_bytes(&vec![0u8; SCREEN_LEN + 1]).is_none());
    assert!(ScreenDump::from_bytes(&[]).is_none());
}

#[test]
fn a_dump_keeps_its_bytes() {
    let mut input: Vec<u8> = vec![0u8; SCREEN_LEN];
    let mut i: usize = 0;
    while i < SCREEN_LEN {
        input[i] = (i * 7 % 251) as u8;
        i += 1;
    }
    let dump: ScreenDump = ScreenDump::from_bytes(&input).unwrap();
    assert_eq!(dump.as_bytes(), &input[..]);
    assert_eq!(dump.as_bytes().len(), SCREEN_LEN);
}

#[test]
fn pixels_and_attributes_are_read_from_their_regions() {
    let mut input: Vec<u8> = vec![0u8; SCREEN_LEN];
    input[0] = 0x11;
    input[256] = 0x22;
    input[32] = 0x33;
    input[2048 + 5] = 0x44;
    input[6143] = 0x55;
    input[BITMAP_LEN] = 0x66;
    input[BITMAP_LEN + 32 + 4] = 0x77;
    input[SCREEN_LEN - 1] = 0x88;
    let dump: ScreenDump = ScreenDump::from_bytes(&input).unwrap();
    assert_eq!(dump.pixels(0, 0), 0x11);
    assert_eq!(dump.pixels(1, 0), 0x22);
    assert_eq!(dump.pixels(8, 0), 0x33);
    assert_eq!(dump.pixels(64, 5), 0x44);
    assert_eq!(dump.pixels(191, 31), 0x55);
    assert_eq!(dump.pixels(2, 0), 0x00);
    assert_eq!(dump.attribute(0, 0), 0x66);
    assert_eq!(dump.attribute(7, 0), 0x66);
    assert_eq!(dump.attribute(8, 4), 0x77);
    assert_eq!(dump.attribute(15, 4), 0x77);
    assert_eq!(dump.attribute(191, 31), 0x88);
    assert_eq!(dump.attribute(16, 4), 0x00);
}
