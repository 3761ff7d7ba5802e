use desktop_clear_master::geometry::{pack_xy, Rect};
use desktop_clear_master::layout::icon_position;
use desktop_clear_master::style::{style_with_auto_arrange, style_without_auto_arrange, LVS_AUTOARRANGE};

fn rect(left: i32, top: i32, right: i32, bottom: i32) -> Rect {
    Rect { left, top, right, bottom }
}

#[test]
fn pack_puts_x_low_and_y_high() {
    assert_eq!(pack_xy(3, 4), 0x40003);
    assert_eq!(pack_xy(0, 0), 0);
    assert_eq!(pack_xy(0xFFFF, 1), 0x1FFFF);
}

#[test]
fn pack_keeps_only_sixteen_bits_of_each_coordinate() {
    assert_eq!(pack_xy(-1, -2), 0xFFFEFFFF);
    assert_eq!(pack_xy(0x12345, 0x10002), 0x22345);
    let r = pack_xy(-300, 700);
    assert_eq!(r & 0xFFFF, (-300i32 & 0xFFFF) as isize);
    assert_eq!((r >> 16) & 0xFFFF, 700);
}

#[test]
fn disabling_auto_arrange_clears_only_its_bit() {
    assert_eq!(style_without_auto_arrange(0x5000_0B4D), Some(0x5000_0A4D));
    assert_eq!(style_without_auto_arrange(0x5000_0A4D), None);
    assert_eq!(style_without_auto_arrange(LVS_AUTOARRANGE), Some(0));
    assert_eq!(style_without_auto_arrange(-1), Some(!0x100));
}

#[test]
fn enabling_auto_arrange_sets_its_bit() {
    assert_eq!(style_with_auto_arrange(0x5000_0A4D), 0x5000_0B4D);
    assert_eq!(style_with_auto_arrange(0x5000_0B4D), 0x5000_0B4D);
    assert_eq!(style_with_auto_arrange(0), 0x100);
}

#[test]
fn restore_after_disable_gives_back_the_style() {
    let style: isize = 0x5601_0B4D;
    let cleared = style_without_auto_arrange(style).unwrap();
    assert_eq!(style_with_auto_arrange(cleared), style);
}

#[test]
fn icon_positions_follow_the_hash() {
    let r = rect(100, 200, 580, 580);
    assert_eq!(icon_position(r, 0), Some((110, 210)));
    assert_eq!(icon_position(r, 1), Some((341, 221)));
    assert_eq!(icon_position(r, 2), Some((166, 476)));
    assert_eq!(icon_position(r, 3), Some((397, 421)));
    assert_eq!(pack_xy(341, 221), 14483797);
}

#[test]
fn small_windows_use_a_fifty_pixel_area() {
    let r = rect(0, 0, 60, 60);
    assert_eq!(icon_position(r, 0), Some((10, 10)));
    assert_eq!(icon_position(r, 1), Some((21, 31)));
    assert_eq!(icon_position(r, 2), Some((36, 56)));
    assert_eq!(icon_position(r, 3), Some((47, 31)));
}

#[test]
fn icons_follow_a_moved_window() {
    let a = rect(100, 200, 580, 580);
    let b = rect(130, 250, 610, 630);
    for i in 0..50usize {
        let (ax, ay) = icon_position(a, i).unwrap();
        let (bx, by) = icon_position(b, i).unwrap();
        assert_eq!((bx - ax, by - ay), (30, 50));
    }
}

#[test]
fn icons_stay_inside_the_window() {
    let r = rect(-40, 15, 760, 615);
    for i in 0..500usize {
        let (x, y) = icon_position(r, i).unwrap();
        assert!(x >= r.left + 10 && x < r.right - 60);
        assert!(y >= r.top + 10 && y < r.bottom - 60);
    }
}

#[test]
fn position_overflow_is_reported() {
    let r = rect(2147483630, 0, 2147483647, 500);
    assert_eq!(icon_position(r, 0), Some((2147483640, 10)));
    assert_eq!(icon_position(r, 1), None);
    assert_eq!(icon_position(rect(i32::MIN, 0, i32::MAX, 500), 0), None);
    assert_eq!(icon_position(rect(0, i32::MAX, 100, i32::MIN + 10), 0), None);
}
