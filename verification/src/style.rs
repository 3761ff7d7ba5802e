//! The auto-arrange bit of the desktop list view's window style.

use vstd::prelude::*;

verus! {

/// The list-view style bit that makes the shell re-arrange icons by itself.
pub const LVS_AUTOARRANGE: isize = 0x100;

/// Whether a window style has the auto-arrange bit set.
pub open spec fn has_auto_arrange(style: isize) -> bool {
    style & 0x100 != 0
}

/// The style to write before moving icons: `None` when auto-arrange is
/// already off (nothing is written), otherwise the style with that bit cleared.
pub fn style_without_auto_arrange(style: isize) -> (r: Option<isize>)
    ensures
        r == (if has_auto_arrange(style) { Some(style & !0x100isize) } else { None::<isize> }),
        r matches Some(s) ==> !has_auto_arrange(s) && (s ^ style) & !0x100isize == 0,
{
    if style & LVS_AUTOARRANGE != 0 {
        let s: isize = style & !LVS_AUTOARRANGE;
        assert(s & 0x100 == 0 && (s ^ style) & !0x100isize == 0) by (bit_vector)
            requires s == style & !0x100isize;
        Some(s)
    } else {
        None
    }
}

/// The style to write when handing the desktop back: auto-arrange switched on,
/// every other bit as read.
pub fn style_with_auto_arrange(style: isize) -> (r: isize)
    ensures
        r == style | 0x100isize,
        has_auto_arrange(r),
        (r ^ style) & !0x100isize == 0,
{
    let r: isize = style | LVS_AUTOARRANGE;
    assert(r & 0x100 != 0 && (r ^ style) & !0x100isize == 0) by (bit_vector)
        requires r == style | 0x100isize;
    r
}

/// Switching auto-arrange back on after it was switched off gives back the
/// style the list view had before, whenever the bit was set to begin with.
pub proof fn lemma_restore_undoes_disable(style: isize)
    requires
        has_auto_arrange(style),
    ensures
        (style & !0x100isize) | 0x100isize == style,
{
    assert((style & !0x100isize) | 0x100isize == style) by (bit_vector)
        requires style & 0x100 != 0;
}

/// Switching auto-arrange on twice is the same as switching it on once, and
/// a style without the bit is left alone by the disabling step.
pub proof fn lemma_toggles_are_idempotent(style: isize)
    ensures
        (style | 0x100isize) | 0x100isize == style | 0x100isize,
        !has_auto_arrange(style) ==> style & !0x100isize == style,
        (style & !0x100isize) & !0x100isize == style & !0x100isize,
{
    assert((style | 0x100isize) | 0x100isize == style | 0x100isize) by (bit_vector);
    assert(style & 0x100 == 0 ==> style & !0x100isize == style) by (bit_vector);
    assert((style & !0x100isize) & !0x100isize == style & !0x100isize) by (bit_vector);
}

} // verus!
