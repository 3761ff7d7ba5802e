use desktop_clear_master::geometry::Rect;
use desktop_clear_master::monitor::{start_drag_monitor, SETTLE_NANOS};
use desktop_clear_master::session::{App, Closing, Phase};

const MS: u64 = 1_000_000;

fn at(left: i32, top: i32) -> Rect {
    Rect { left, top, right: left + 480, bottom: top + 380 }
}

#[test]
fn monitor_looks_for_the_window_until_found() {
    let mut m = start_drag_monitor();
    assert!(m.needs_window());
    m.window_found(0);
    assert!(m.needs_window());
    m.window_found(42);
    assert!(!m.needs_window());
    assert_eq!(m.window, 42);
}

#[test]
fn monitor_follows_a_window_that_comes_to_rest() {
    let mut m = start_drag_monitor();
    // the first reading counts as a move
    assert_eq!(m.observe(Some(at(10, 10)), 0), None);
    assert_eq!(m.observe(Some(at(10, 10)), 150 * MS), None);
    assert_eq!(m.observe(Some(at(10, 10)), 300 * MS), None);
    assert_eq!(m.observe(Some(at(10, 10)), 600 * MS), None);
    assert_eq!(m.observe(Some(at(10, 10)), 650 * MS), Some(at(10, 10)));
    // at rest: nothing more happens
    assert_eq!(m.observe(Some(at(10, 10)), 2000 * MS), None);
    assert_eq!(m.observe(Some(at(10, 10)), 9000 * MS), None);
}

#[test]
fn monitor_restarts_the_wait_on_every_move() {
    let mut m = start_drag_monitor();
    assert_eq!(m.observe(Some(at(0, 0)), 0), None);
    assert_eq!(m.observe(Some(at(0, 0)), 100 * MS), None);
    assert_eq!(m.observe(Some(at(5, 0)), 400 * MS), None);
    assert_eq!(m.observe(Some(at(5, 0)), 700 * MS), None);
    assert_eq!(m.observe(Some(at(5, 0)), 700 * MS + SETTLE_NANOS - 1), None);
    assert_eq!(m.observe(Some(at(5, 0)), 700 * MS + SETTLE_NANOS), Some(at(5, 0)));
}

#[test]
fn monitor_ignores_unreadable_polls() {
    let mut m = start_drag_monitor();
    assert_eq!(m.observe(Some(at(0, 0)), 0), None);
    assert_eq!(m.observe(Some(at(0, 0)), 10 * MS), None);
    assert_eq!(m.observe(None, 800 * MS), None);
    assert_eq!(m.observe(Some(at(0, 0)), 900 * MS), Some(at(0, 0)));
}

#[test]
fn program_runs_idle_cleaning_cleaned() {
    let mut app = App::default();
    assert_eq!(app.phase, Phase::Idle);
    assert!(!app.needs_repaint());
    assert!(!app.tick_cleaning(true));
    assert!(app.press_clean());
    assert_eq!(app.phase, Phase::Cleaning);
    assert!(app.needs_repaint());
    assert!(!app.press_clean());
    assert!(!app.tick_cleaning(false));
    assert!(app.tick_cleaning(true));
    assert_eq!(app.phase, Phase::Cleaned);
    assert!(app.monitor_active);
    assert!(!app.tick_cleaning(true));
    assert!(!app.needs_repaint());
}

#[test]
fn closing_restores_only_a_tidied_desktop() {
    let mut idle = App::default();
    assert_eq!(idle.close(), Closing { stop_monitor: false, restore_desktop: false });

    let mut counting = App::default();
    counting.press_clean();
    assert_eq!(counting.close(), Closing { stop_monitor: false, restore_desktop: false });

    let mut done = App::default();
    done.press_clean();
    done.tick_cleaning(true);
    assert_eq!(done.close(), Closing { stop_monitor: true, restore_desktop: true });
    assert!(!done.monitor_active);
}

#[test]
fn stopping_the_monitor_reports_whether_one_ran() {
    let mut app = App::default();
    assert!(!app.stop_monitor());
    app.start_monitor();
    assert!(app.monitor_active);
    assert!(app.stop_monitor());
    assert!(!app.monitor_active);
}
