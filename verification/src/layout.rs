//! Where each desktop icon goes: a multiplicative hash of the icon's index
//! scatters it over the area that the program window covers.

use vstd::prelude::*;
use crate::geometry::Rect;

verus! {

/// Extent of the scatter area along one axis: the window's extent less 70,
/// but never below 50.
pub open spec fn area_span(near: i32, far: i32) -> int {
    let a = far - near - 70;
    if a < 50 { 50 } else { a }
}

/// The subtractions that size the scatter area stay within `i32`.
pub open spec fn area_fits(rect: Rect) -> bool {
    &&& i32::MIN + 70 <= rect.right - rect.left <= i32::MAX
    &&& i32::MIN + 70 <= rect.bottom - rect.top <= i32::MAX
}

/// First hash of an icon index: its low 32 bits times 0x9E3779B1, modulo 2^32.
pub open spec fn scatter_x(index: usize) -> u32 {
    (((index as u32) as nat * 0x9E3779B1nat) % 0x1_0000_0000nat) as u32
}

/// Second hash: the first one times 0x85EBCA77, modulo 2^32.
pub open spec fn scatter_y(index: usize) -> u32 {
    ((scatter_x(index) as nat * 0x85EBCA77nat) % 0x1_0000_0000nat) as u32
}

/// The point at which icon `index` is placed for a window at `rect`.
pub open spec fn icon_spot(rect: Rect, index: usize) -> (int, int) {
    (
        rect.left + 10 + scatter_x(index) as int % area_span(rect.left, rect.right),
        rect.top + 10 + scatter_y(index) as int % area_span(rect.top, rect.bottom),
    )
}

/// All of the arithmetic for icon `index` stays within `i32`.
pub open spec fn spot_fits(rect: Rect, index: usize) -> bool {
    &&& area_fits(rect)
    &&& icon_spot(rect, index).0 <= i32::MAX
    &&& icon_spot(rect, index).1 <= i32::MAX
}

fn area_extent(near: i32, far: i32) -> (r: Option<i32>)
    ensures
        r is Some <==> i32::MIN + 70 <= far - near <= i32::MAX,
        r matches Some(a) ==> a == area_span(near, far),
{
    let d: i64 = far as i64 - near as i64;
    if d > i32::MAX as i64 || d < i32::MIN as i64 + 70 {
        return None;
    }
    let a: i32 = (d - 70) as i32;
    Some(if a < 50 { 50 } else { a })
}

/// The position of icon `index` for a window at `rect`, or `None` exactly
/// where the arithmetic that computes it would leave `i32`.
pub fn icon_position(rect: Rect, index: usize) -> (r: Option<(i32, i32)>)
    ensures
        r is Some <==> spot_fits(rect, index),
        r matches Some(p) ==> p.0 == icon_spot(rect, index).0 && p.1 == icon_spot(rect, index).1,
{
    let w = match area_extent(rect.left, rect.right) {
        Some(w) => w,
        None => return None,
    };
    let h = match area_extent(rect.top, rect.bottom) {
        Some(h) => h,
        None => return None,
    };
    let s: u32 = (index as u32).wrapping_mul(0x9E3779B1u32);
    let s2: u32 = s.wrapping_mul(0x85EBCA77u32);
    assert(s == scatter_x(index));
    assert(s2 == scatter_y(index));
    let dx: u32 = s % (w as u32);
    let dy: u32 = s2 % (h as u32);
    let x: i64 = rect.left as i64 + 10 + dx as i64;
    let y: i64 = rect.top as i64 + 10 + dy as i64;
    if x > i32::MAX as i64 || y > i32::MAX as i64 {
        return None;
    }
    Some((x as i32, y as i32))
}

/// Every icon lands in the scatter area, whose corner is 10 pixels inside the
/// window's top-left corner; for a window at least 120 pixels across (down),
/// that area ends 60 pixels short of the right (bottom) edge.
pub proof fn lemma_spot_within_window(rect: Rect, index: usize)
    requires
        area_fits(rect),
    ensures
        rect.left + 10 <= icon_spot(rect, index).0 < rect.left + 10 + area_span(rect.left, rect.right),
        rect.top + 10 <= icon_spot(rect, index).1 < rect.top + 10 + area_span(rect.top, rect.bottom),
        rect.right - rect.left >= 120 ==> icon_spot(rect, index).0 < rect.right - 60,
        rect.bottom - rect.top >= 120 ==> icon_spot(rect, index).1 < rect.bottom - 60,
{
}

/// Moving the window without resizing it moves every icon by the same offset:
/// the icons follow the window.
pub proof fn lemma_spots_follow_window(a: Rect, b: Rect, index: usize)
    requires
        b.right - b.left == a.right - a.left,
        b.bottom - b.top == a.bottom - a.top,
    ensures
        icon_spot(b, index).0 - icon_spot(a, index).0 == b.left - a.left,
        icon_spot(b, index).1 - icon_spot(a, index).1 == b.top - a.top,
{
}

/// The scatter area along each axis is the window's extent less 70 whenever
/// that leaves at least 50, and 50 otherwise; icon `index` sits at the first
/// hash of its index (low 32 bits times 0x9E3779B1, modulo 2^32) modulo the
/// area's width, and at the second hash (the first times 0x85EBCA77, modulo
/// 2^32) modulo its height, counted from 10 pixels inside the window's corner.
pub proof fn lemma_spot_formula(rect: Rect, index: usize)
    requires
        area_fits(rect),
    ensures ({
        let h1: int = ((index as u32) as int * 0x9E3779B1) % 0x1_0000_0000;
        let h2: int = (h1 * 0x85EBCA77) % 0x1_0000_0000;
        let w: int = if rect.right - rect.left >= 120 { rect.right - rect.left - 70 } else { 50 };
        let h: int = if rect.bottom - rect.top >= 120 { rect.bottom - rect.top - 70 } else { 50 };
        &&& icon_spot(rect, index).0 == rect.left + 10 + h1 % w
        &&& icon_spot(rect, index).1 == rect.top + 10 + h2 % h
    }),
{
}

/// Icon `index` has a position exactly when every step of its arithmetic
/// stays within `i32`: the window's width and height, each less 70, and the
/// two sums that offset the window's corner.
pub proof fn lemma_spot_fits_exactly(rect: Rect, index: usize)
    ensures ({
        let h1: int = ((index as u32) as int * 0x9E3779B1) % 0x1_0000_0000;
        let h2: int = (h1 * 0x85EBCA77) % 0x1_0000_0000;
        let w: int = if rect.right - rect.left >= 120 { rect.right - rect.left - 70 } else { 50 };
        let h: int = if rect.bottom - rect.top >= 120 { rect.bottom - rect.top - 70 } else { 50 };
        spot_fits(rect, index) <==> {
            &&& -0x8000_0000 + 70 <= rect.right - rect.left <= 0x7FFF_FFFF
            &&& -0x8000_0000 + 70 <= rect.bottom - rect.top <= 0x7FFF_FFFF
            &&& rect.left + 10 + h1 % w <= 0x7FFF_FFFF
            &&& rect.top + 10 + h2 % h <= 0x7FFF_FFFF
        }
    }),
{
    if area_fits(rect) {
        lemma_spot_formula(rect, index);
    }
}

} // verus!
