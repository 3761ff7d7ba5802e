//! Screen rectangles and the packing of a point into a message parameter.

use vstd::prelude::*;

verus! {

/// A window rectangle in screen coordinates, as the window system reports it.
#[derive(Clone, Copy, Debug, PartialEq, Eq, Structural)]
pub struct Rect {
    pub left: i32,
    pub top: i32,
    pub right: i32,
    pub bottom: i32,
}

/// `x` in the low 16 bits and `y` in the next 16 bits, each taken modulo 2^16,
/// read as a pointer-sized signed integer (the `MAKELPARAM` layout).
pub open spec fn packed_point(x: i32, y: i32) -> isize {
    ((x as int % 0x10000) + (y as int % 0x10000) * 0x10000) as isize
}

/// Packs a point into the parameter of a list-view "set item position" message.
pub fn pack_xy(x: i32, y: i32) -> (r: isize)
    ensures
        r == packed_point(x, y),
        r & 0xFFFF == (x & 0xFFFF) as isize,
        (r >> 16) & 0xFFFF == (y & 0xFFFF) as isize,
{
    let lo: i32 = x & 0xFFFF;
    let hi: i32 = y & 0xFFFF;
    let r: isize = (lo as isize) | ((hi as isize) << 16u32);
    assert(r == packed_point(x, y) && r & 0xFFFF == (x & 0xFFFF) as isize
        && (r >> 16) & 0xFFFF == (y & 0xFFFF) as isize) by (bit_vector)
        requires
            lo == x & 0xFFFF,
            hi == y & 0xFFFF,
            r == (lo as isize) | ((hi as isize) << 16u32),
    ;
    r
}

/// The packed point holds `x & 0xFFFF` in its low half-word and `y & 0xFFFF`
/// in the next one; with 64-bit pointers nothing else is set.
pub proof fn lemma_packed_point_words(x: i32, y: i32)
    ensures
        usize::BITS == 64 ==> packed_point(x, y) == (x & 0xFFFF) as int + (y & 0xFFFF) as int * 0x10000,
        0 <= (x & 0xFFFF) < 0x10000,
        0 <= (y & 0xFFFF) < 0x10000,
{
    assert(x & 0xFFFF == x as int % 0x10000 && 0 <= x & 0xFFFF < 0x10000) by (bit_vector);
    assert(y & 0xFFFF == y as int % 0x10000 && 0 <= y & 0xFFFF < 0x10000) by (bit_vector);
}

} // verus!
