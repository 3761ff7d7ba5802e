//! Following the program window: once the window has been dragged and then
//! left in one place for half a second, the icons are tidied again under it.
//! The caller polls the window and the clock and passes what it saw in.

use vstd::prelude::*;
use crate::geometry::Rect;

verus! {

/// How long, in nanoseconds, the window must stay put before icons follow it.
pub const SETTLE_NANOS: u64 = 500_000_000;

/// The monitor's memory between polls.
#[derive(Clone, Copy, Debug)]
pub struct DragMonitor {
    /// The program window once found (0 until then).
    pub window: usize,
    /// The window's top-left corner at the last poll that read it.
    pub last_pos: Option<(i32, i32)>,
    /// Whether the window has moved since the icons were last tidied.
    pub has_moved: bool,
    /// When (clock reading in nanoseconds) and where the window came to rest.
    pub stable_since: Option<(u64, Rect)>,
}

/// Time passed from `since` to `now`, zero if the clock reads earlier.
pub open spec fn elapsed(since: u64, now: u64) -> int {
    if now >= since { now - since } else { 0 }
}

/// The monitor's memory is consistent: a rest is only timed after a move.
pub open spec fn monitor_wf(m: DragMonitor) -> bool {
    m.stable_since is Some ==> m.has_moved
}

/// One poll of the window's rectangle (`None` when it could not be read) at
/// clock reading `now`: the new memory and, where icons must follow, the
/// rectangle to tidy them under.
pub open spec fn monitor_next(m: DragMonitor, rect: Option<Rect>, now: u64) -> (DragMonitor, Option<Rect>) {
    match rect {
        None => (m, None),
        Some(r) => {
            let pos = (r.left, r.top);
            let m1 = if m.last_pos != Some(pos) {
                DragMonitor { last_pos: Some(pos), stable_since: None, has_moved: true, ..m }
            } else if m.has_moved && m.stable_since is None {
                DragMonitor { stable_since: Some((now, r)), ..m }
            } else {
                m
            };
            match m1.stable_since {
                Some((since, rest)) => if elapsed(since, now) >= SETTLE_NANOS {
                    (DragMonitor { stable_since: None, has_moved: false, ..m1 }, Some(rest))
                } else {
                    (m1, None)
                },
                None => (m1, None),
            }
        },
    }
}

/// A monitor that has seen nothing yet.
pub fn start_drag_monitor() -> (r: DragMonitor)
    ensures
        r == (DragMonitor { window: 0, last_pos: None, has_moved: false, stable_since: None }),
        monitor_wf(r),
{
    DragMonitor { window: 0, last_pos: None, has_moved: false, stable_since: None }
}

impl DragMonitor {
    /// Whether the program window still has to be looked up before polling.
    pub fn needs_window(&self) -> (r: bool)
        ensures
            r == (self.window == 0),
    {
        self.window == 0
    }

    /// Records the answer of a window lookup (0: not found, keep looking).
    pub fn window_found(&mut self, window: usize)
        ensures
            *final(self) == (if window != 0 { DragMonitor { window, ..*old(self) } } else { *old(self) }),
    {
        if window != 0 {
            self.window = window;
        }
    }

    /// Takes one poll of the window's rectangle at clock reading `now`;
    /// returns the rectangle to tidy the icons under, if they must follow now.
    pub fn observe(&mut self, rect: Option<Rect>, now: u64) -> (r: Option<Rect>)
        ensures
            (*final(self), r) == monitor_next(*old(self), rect, now),
    {
        let r = match rect {
            None => return None,
            Some(r) => r,
        };
        let pos = (r.left, r.top);
        let moved = match self.last_pos {
            Some(p) => !(p.0 == pos.0 && p.1 == pos.1),
            None => true,
        };
        if moved {
            self.last_pos = Some(pos);
            self.stable_since = None;
            self.has_moved = true;
        } else if self.has_moved && self.stable_since.is_none() {
            self.stable_since = Some((now, r));
        }
        match self.stable_since {
            Some((since, rest)) => {
                let passed: u64 = if now >= since { now - since } else { 0 };
                if passed >= SETTLE_NANOS {
                    self.stable_since = None;
                    self.has_moved = false;
                    Some(rest)
                } else {
                    None
                }
            },
            None => None,
        }
    }
}

/// Every poll keeps the monitor's memory consistent.
pub proof fn lemma_monitor_keeps_wf(m: DragMonitor, rect: Option<Rect>, now: u64)
    requires
        monitor_wf(m),
    ensures
        monitor_wf(monitor_next(m, rect, now).0),
{
}

/// Icons follow only a window that has moved and then stayed where it is for
/// at least half a second, and they follow it to where it came to rest; after
/// that the monitor waits for the next move.
pub proof fn lemma_follow_only_after_rest(m: DragMonitor, rect: Option<Rect>, now: u64)
    requires
        monitor_wf(m),
    ensures ({
        let (m2, r) = monitor_next(m, rect, now);
        r matches Some(rest) ==> {
            &&& rect is Some
            &&& m.has_moved
            &&& m.last_pos == Some((rect.unwrap().left, rect.unwrap().top))
            &&& m.stable_since matches Some((since, at)) && at == rest && elapsed(since, now) >= SETTLE_NANOS
            &&& !m2.has_moved && m2.stable_since is None
        }
    }),
{
}

/// A move restarts the wait: polling the window somewhere new never tidies
/// the icons at once, and forgets any earlier rest.
pub proof fn lemma_move_restarts_wait(m: DragMonitor, rect: Rect, now: u64)
    requires
        m.last_pos != Some((rect.left, rect.top)),
    ensures
        monitor_next(m, Some(rect), now) == ((
            DragMonitor { last_pos: Some((rect.left, rect.top)), stable_since: None, has_moved: true, ..m },
            None::<Rect>,
        )),
{
}

/// A window that has not moved since the icons were last tidied leaves the
/// monitor unchanged and never tidies them again.
pub proof fn lemma_still_window_is_left_alone(m: DragMonitor, rect: Option<Rect>, now: u64)
    requires
        !m.has_moved,
        m.stable_since is None,
        rect matches Some(r) ==> m.last_pos == Some((r.left, r.top)),
    ensures
        monitor_next(m, rect, now) == (m, None::<Rect>),
{
}

/// After a move, a window that is seen at rest at time `t1` and again at the
/// same place at a time `t2` half a second or more later has the icons follow
/// it to that place at `t2`.
pub proof fn lemma_rest_is_followed(m: DragMonitor, rect: Rect, t1: u64, t2: u64)
    requires
        m.has_moved,
        m.stable_since is None,
        m.last_pos == Some((rect.left, rect.top)),
        t2 >= t1 + SETTLE_NANOS,
    ensures ({
        let (m1, r1) = monitor_next(m, Some(rect), t1);
        let (m2, r2) = monitor_next(m1, Some(rect), t2);
        &&& r1 is None
        &&& m1.stable_since == Some((t1, rect))
        &&& r2 == Some(rect)
        &&& !m2.has_moved && m2.stable_since is None
    }),
{
}

/// A poll whose rectangle could not be read changes nothing; icons follow a
/// window only once half a second (500,000,000 ns) has passed since it came
/// to rest, and a rest of 500,000,000 ns or more is always followed.
pub proof fn lemma_half_second_rest(m: DragMonitor, rect: Rect, since: u64, now: u64)
    requires
        m.has_moved,
        m.last_pos == Some((rect.left, rect.top)),
        m.stable_since == Some((since, rect)),
        now >= since,
    ensures
        monitor_next(m, None, now) == (m, None::<Rect>),
        now - since < 500_000_000 ==> monitor_next(m, Some(rect), now) == (m, None::<Rect>),
        now - since >= 500_000_000 ==> monitor_next(m, Some(rect), now)
            == ((DragMonitor { stable_since: None, has_moved: false, ..m }, Some(rect))),
{
}

} // verus!
