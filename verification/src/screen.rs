//! The screen dump: 6144 bytes of pixels in interleaved order, followed by
//! 768 attribute bytes, one for each 8x8 cell.

use crate::layout::{
    attribute_index, attribute_offset, bitmap_index, bitmap_offset, valid_cell, BITMAP_LEN,
    SCREEN_LEN,
};
use vstd::prelude::*;
use vstd::slice::slice_to_vec;

verus! {

/// The pixel byte of the cell strip `(y, ax)` in the dump `screen`.
pub open spec fn cell_pixels(screen: Seq<u8>, y: int, ax: int) -> u8 {
    screen[bitmap_offset(y, ax)]
}

/// The attribute byte that colours the cell strip `(y, ax)` in the dump
/// `screen`.
pub open spec fn cell_attribute(screen: Seq<u8>, y: int, ax: int) -> u8 {
    screen[BITMAP_LEN + attribute_offset(y, ax)]
}

/// A screen dump of exactly [`SCREEN_LEN`] bytes. Its view is the sequence of
/// those bytes.
pub struct ScreenDump {
    bytes: Vec<u8>,
}

impl View for ScreenDump {
    type V = Seq<u8>;

    closed spec fn view(&self) -> Seq<u8> {
        self.bytes@
    }
}

impl ScreenDump {
    #[verifier::type_invariant]
    spec fn has_screen_len(&self) -> bool {
        self.bytes@.len() == SCREEN_LEN
    }

    /// Takes `input` as a screen dump if it has the length of one.
    pub fn from_bytes(input: &[u8]) -> (dump: Option<ScreenDump>)
        ensures
            dump is Some <==> input@.len() == SCREEN_LEN,
            dump matches Some(d) ==> d@ == input@,
    {
        if input.len() == SCREEN_LEN {
            Some(ScreenDump { bytes: slice_to_vec(input) })
        } else {
            None
        }
    }

    /// The bytes of the dump.
    pub fn as_bytes(&self) -> (bytes: &[u8])
        ensures
            bytes@ == self@,
            bytes@.len() == SCREEN_LEN,
    {
        proof {
            use_type_invariant(self);
        }
        self.bytes.as_slice()
    }

    /// The pixel byte of the cell strip `(y, ax)`.
    pub fn pixels(&self, y: usize, ax: usize) -> (bits: u8)
        requires
            valid_cell(y as int, ax as int),
        ensures
            bits == cell_pixels(self@, y as int, ax as int),
    {
        proof {
            use_type_invariant(self);
        }
        self.bytes[bitmap_index(y, ax)]
    }

    /// The attribute byte that colours the cell strip `(y, ax)`.
    pub fn attribute(&self, y: usize, ax: usize) -> (attr: u8)
        requires
            valid_cell(y as int, ax as int),
        ensures
            attr == cell_attribute(self@, y as int, ax as int),
    {
        proof {
            use_type_invariant(self);
        }
        self.bytes[BITMAP_LEN + attribute_index(y, ax)]
    }
}

} // verus!
