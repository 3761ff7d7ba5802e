use desktop_clear_master::geometry::{pack_xy, Rect};
use desktop_clear_master::search::{ListViewSearch, Lookup, SearchStep, WindowClass};
use desktop_clear_master::task::{
    reposition_icons_at, restore_desktop, stack_icons_under_window, Action, DesktopTask, Event,
};

const RECT: Rect = Rect { left: 100, top: 200, right: 580, bottom: 580 };

fn child(parent: usize, after: usize, class: WindowClass) -> Action {
    Action::FindWindow { lookup: Lookup::Child { parent, after, class } }
}

fn top(class: WindowClass) -> Action {
    Action::FindWindow { lookup: Lookup::TopLevel { class } }
}

/// Feeds `event` after checking that the task waits on `expected`.
fn expect(task: &mut DesktopTask, expected: Action, event: Event) {
    assert_eq!(task.action(), expected);
    task.advance(event);
}

#[test]
fn search_prefers_the_progman_chain() {
    let s = ListViewSearch::start();
    assert_eq!(s.lookup(), Lookup::TopLevel { class: WindowClass::Progman });
    let s = match s.advance(11) { SearchStep::Continue(s) => s, other => panic!("{:?}", other) };
    assert_eq!(s.lookup(), Lookup::Child { parent: 11, after: 0, class: WindowClass::ShellView });
    let s = match s.advance(22) { SearchStep::Continue(s) => s, other => panic!("{:?}", other) };
    assert_eq!(s.lookup(), Lookup::Child { parent: 22, after: 0, class: WindowClass::ListView });
    assert_eq!(s.advance(33), SearchStep::Found(33));
}

#[test]
fn search_falls_back_to_worker_windows() {
    let mut t = restore_desktop();
    expect(&mut t, top(WindowClass::Progman), Event::Window(11));
    expect(&mut t, child(11, 0, WindowClass::ShellView), Event::Window(0));
    // first WorkerW has no shell view, the second has no list view, the third has both
    expect(&mut t, child(0, 0, WindowClass::Worker), Event::Window(40));
    expect(&mut t, child(40, 0, WindowClass::ShellView), Event::Window(0));
    expect(&mut t, child(0, 40, WindowClass::Worker), Event::Window(50));
    expect(&mut t, child(50, 0, WindowClass::ShellView), Event::Window(51));
    expect(&mut t, child(51, 0, WindowClass::ListView), Event::Window(0));
    expect(&mut t, child(0, 50, WindowClass::Worker), Event::Window(60));
    expect(&mut t, child(60, 0, WindowClass::ShellView), Event::Window(61));
    expect(&mut t, child(61, 0, WindowClass::ListView), Event::Window(62));
    assert_eq!(t.action(), Action::ReadStyle { list_view: 62 });
}

#[test]
fn search_gives_up_when_workers_run_out() {
    let mut t = reposition_icons_at(RECT);
    expect(&mut t, top(WindowClass::Progman), Event::Window(0));
    expect(&mut t, child(0, 0, WindowClass::Worker), Event::Window(40));
    expect(&mut t, child(40, 0, WindowClass::ShellView), Event::Window(0));
    expect(&mut t, child(0, 40, WindowClass::Worker), Event::Window(0));
    assert_eq!(t.action(), Action::Finish);
    assert!(matches!(t.action(), Action::Finish | Action::Overflow));
}

#[test]
fn restore_turns_auto_arrange_on_and_arranges() {
    let mut t = restore_desktop();
    expect(&mut t, top(WindowClass::Progman), Event::Window(1));
    expect(&mut t, child(1, 0, WindowClass::ShellView), Event::Window(2));
    expect(&mut t, child(2, 0, WindowClass::ListView), Event::Window(3));
    expect(&mut t, Action::ReadStyle { list_view: 3 }, Event::Value(0x5000_0A4D));
    expect(&mut t, Action::WriteStyle { list_view: 3, style: 0x5000_0B4D }, Event::Done);
    expect(&mut t, Action::ArrangeItems { list_view: 3 }, Event::Done);
    expect(&mut t, Action::Redraw { list_view: 3 }, Event::Done);
    assert_eq!(t.action(), Action::Finish);
}

#[test]
fn stacking_places_every_icon_then_redraws() {
    let mut t = stack_icons_under_window();
    expect(&mut t, Action::FindOwnWindow, Event::Window(7));
    expect(&mut t, Action::ReadWindowRect { window: 7 }, Event::WindowRect(Some(RECT)));
    expect(&mut t, top(WindowClass::Progman), Event::Window(1));
    expect(&mut t, child(1, 0, WindowClass::ShellView), Event::Window(2));
    expect(&mut t, child(2, 0, WindowClass::ListView), Event::Window(3));
    expect(&mut t, Action::ReadStyle { list_view: 3 }, Event::Value(0x5000_0B4D));
    expect(&mut t, Action::WriteStyle { list_view: 3, style: 0x5000_0A4D }, Event::Done);
    expect(&mut t, Action::ReadItemCount { list_view: 3 }, Event::Value(3));
    expect(&mut t, Action::PlaceItem { list_view: 3, index: 0, position: pack_xy(110, 210) }, Event::Done);
    expect(&mut t, Action::PlaceItem { list_view: 3, index: 1, position: pack_xy(341, 221) }, Event::Done);
    expect(&mut t, Action::PlaceItem { list_view: 3, index: 2, position: pack_xy(166, 476) }, Event::Done);
    expect(&mut t, Action::Redraw { list_view: 3 }, Event::Done);
    assert_eq!(t.action(), Action::Finish);
}

#[test]
fn stacking_leaves_an_unarranged_view_style_alone() {
    let mut t = reposition_icons_at(RECT);
    expect(&mut t, top(WindowClass::Progman), Event::Window(1));
    expect(&mut t, child(1, 0, WindowClass::ShellView), Event::Window(2));
    expect(&mut t, child(2, 0, WindowClass::ListView), Event::Window(3));
    expect(&mut t, Action::ReadStyle { list_view: 3 }, Event::Value(0x5000_0A4D));
    expect(&mut t, Action::ReadItemCount { list_view: 3 }, Event::Value(0));
    // no icons: nothing is moved and nothing redrawn
    assert_eq!(t.action(), Action::Finish);
}

#[test]
fn stacking_stops_without_own_window_or_rect() {
    let mut t = stack_icons_under_window();
    expect(&mut t, Action::FindOwnWindow, Event::Window(0));
    assert_eq!(t.action(), Action::Finish);

    let mut t = stack_icons_under_window();
    expect(&mut t, Action::FindOwnWindow, Event::Window(9));
    expect(&mut t, Action::ReadWindowRect { window: 9 }, Event::WindowRect(None));
    assert_eq!(t.action(), Action::Finish);
}

#[test]
fn position_overflow_stops_the_procedure() {
    let far = Rect { left: 2147483630, top: 0, right: 2147483647, bottom: 500 };
    let mut t = reposition_icons_at(far);
    expect(&mut t, top(WindowClass::Progman), Event::Window(1));
    expect(&mut t, child(1, 0, WindowClass::ShellView), Event::Window(2));
    expect(&mut t, child(2, 0, WindowClass::ListView), Event::Window(3));
    expect(&mut t, Action::ReadStyle { list_view: 3 }, Event::Value(0));
    expect(&mut t, Action::ReadItemCount { list_view: 3 }, Event::Value(5));
    expect(&mut t, Action::PlaceItem { list_view: 3, index: 0, position: pack_xy(2147483640, 10) }, Event::Done);
    assert_eq!(t.action(), Action::Overflow);
    assert!(matches!(t.action(), Action::Finish | Action::Overflow));
    t.advance(Event::Done);
    assert_eq!(t.action(), Action::Overflow);
}

#[test]
fn an_unexpected_reply_ends_the_procedure() {
    let mut t = restore_desktop();
    expect(&mut t, top(WindowClass::Progman), Event::Value(5));
    assert_eq!(t.action(), Action::Finish);
    t.advance(Event::Window(3));
    assert_eq!(t.action(), Action::Finish);
}
