//! The two desktop procedures, tidying the icons away under the program
//! window and handing the desktop back, as a state machine. The machine names
//! the next window-system call to make (`action`) and is told what it returned
//! (`advance`); the caller makes the calls.

use vstd::prelude::*;
use crate::geometry::{Rect, pack_xy, packed_point};
use crate::layout::{icon_position, icon_spot, spot_fits};
use crate::search::{ListViewSearch, Lookup, SearchStep, WindowClass, lookup_of, search_next};
use crate::style::{style_with_auto_arrange, style_without_auto_arrange, has_auto_arrange};

verus! {

/// What a procedure is for.
#[derive(Clone, Copy, Debug, PartialEq, Eq, Structural)]
pub enum Goal {
    /// Scatter the icons over the program window, whose place is not known yet.
    TidyAtOwnWindow,
    /// Scatter the icons over `rect`.
    TidyAt { rect: Rect },
    /// Switch the list view's auto-arrange back on and let it re-arrange.
    Restore,
}

/// The call a procedure waits on, with what it has learnt so far.
#[derive(Clone, Copy, Debug, PartialEq, Eq, Structural)]
pub enum Stage {
    /// Looking for the program's own window by its title.
    LocateOwnWindow,
    /// Reading that window's rectangle.
    ReadOwnRect { window: usize },
    /// Looking for the desktop list view.
    Searching { search: ListViewSearch },
    /// Reading the list view's window style.
    ReadStyle { list_view: usize },
    /// Writing the list view's window style.
    WriteStyle { list_view: usize, style: isize },
    /// Asking the list view how many icons it holds.
    ReadCount { list_view: usize },
    /// Moving icon `index` of `count` to `position`.
    Placing { list_view: usize, index: usize, count: usize, position: isize },
    /// Asking the list view to arrange its icons.
    Arranging { list_view: usize },
    /// Asking for the list view to be redrawn.
    Redrawing { list_view: usize },
    /// The next icon's position leaves the `i32` range.
    Overflowed,
    /// Nothing is left to do.
    Finished,
}

/// A desktop procedure in progress.
#[derive(Clone, Copy, Debug, PartialEq, Eq, Structural)]
pub struct DesktopTask {
    pub goal: Goal,
    pub stage: Stage,
}

/// A window-system call for the caller to make.
#[derive(Clone, Copy, Debug, PartialEq, Eq, Structural)]
pub enum Action {
    /// Find the program's own window by its title.
    FindOwnWindow,
    /// Read the rectangle of `window`.
    ReadWindowRect { window: usize },
    /// Look a window up.
    FindWindow { lookup: Lookup },
    /// Read the window style of the list view.
    ReadStyle { list_view: usize },
    /// Write the window style of the list view.
    WriteStyle { list_view: usize, style: isize },
    /// Ask the list view for its number of items.
    ReadItemCount { list_view: usize },
    /// Move item `index` of the list view to the packed point `position`.
    PlaceItem { list_view: usize, index: usize, position: isize },
    /// Ask the list view to arrange its items.
    ArrangeItems { list_view: usize },
    /// Invalidate the list view so that it is redrawn.
    Redraw { list_view: usize },
    /// Stop: the position arithmetic overflowed.
    Overflow,
    /// Stop: the procedure is complete.
    Finish,
}

/// What the last call returned.
#[derive(Clone, Copy, Debug, PartialEq, Eq, Structural)]
pub enum Event {
    /// A window handle; 0 when the lookup failed or found nothing.
    Window(usize),
    /// A window rectangle, or `None` when it could not be read.
    WindowRect(Option<Rect>),
    /// A number the call returned (a window style or a message result).
    Value(isize),
    /// A call whose result the procedure does not use has been made.
    Done,
}

/// The call that a procedure in this state waits on.
pub open spec fn action_of(t: DesktopTask) -> Action {
    match t.stage {
        Stage::LocateOwnWindow => Action::FindOwnWindow,
        Stage::ReadOwnRect { window } => Action::ReadWindowRect { window },
        Stage::Searching { search } => Action::FindWindow { lookup: lookup_of(search) },
        Stage::ReadStyle { list_view } => Action::ReadStyle { list_view },
        Stage::WriteStyle { list_view, style } => Action::WriteStyle { list_view, style },
        Stage::ReadCount { list_view } => Action::ReadItemCount { list_view },
        Stage::Placing { list_view, index, count, position } =>
            Action::PlaceItem { list_view, index, position },
        Stage::Arranging { list_view } => Action::ArrangeItems { list_view },
        Stage::Redrawing { list_view } => Action::Redraw { list_view },
        Stage::Overflowed => Action::Overflow,
        Stage::Finished => Action::Finish,
    }
}

/// The stage that moves icon `index` of `count` to its spot for `rect`,
/// or the overflow stop where that spot leaves the `i32` range.
pub open spec fn placing_stage(list_view: usize, rect: Rect, index: usize, count: usize) -> Stage {
    if spot_fits(rect, index) {
        Stage::Placing {
            list_view,
            index,
            count,
            position: packed_point(icon_spot(rect, index).0 as i32, icon_spot(rect, index).1 as i32),
        }
    } else {
        Stage::Overflowed
    }
}

/// The stage after the list view's item count has been read.
pub open spec fn counted_stage(list_view: usize, goal: Goal, count: usize) -> Stage {
    match goal {
        Goal::TidyAt { rect } => if count == 0 {
            Stage::Finished
        } else {
            placing_stage(list_view, rect, 0, count)
        },
        _ => Stage::Finished,
    }
}

/// The stage after the list view's style has been read.
pub open spec fn styled_stage(list_view: usize, goal: Goal, style: isize) -> Stage {
    match goal {
        Goal::Restore => Stage::WriteStyle { list_view, style: style | 0x100isize },
        _ => if has_auto_arrange(style) {
            Stage::WriteStyle { list_view, style: style & !0x100isize }
        } else {
            Stage::ReadCount { list_view }
        },
    }
}

/// The procedure's transitions. An event of the wrong kind for the call that
/// was waited on ends the procedure.
pub open spec fn task_next(t: DesktopTask, e: Event) -> DesktopTask {
    let finished = DesktopTask { goal: t.goal, stage: Stage::Finished };
    match (t.stage, e) {
        (Stage::LocateOwnWindow, Event::Window(h)) => if h != 0 {
            DesktopTask { goal: t.goal, stage: Stage::ReadOwnRect { window: h } }
        } else {
            finished
        },
        (Stage::ReadOwnRect { window }, Event::WindowRect(r)) => match r {
            Some(rect) => DesktopTask {
                goal: Goal::TidyAt { rect },
                stage: Stage::Searching { search: ListViewSearch::Progman },
            },
            None => finished,
        },
        (Stage::Searching { search }, Event::Window(h)) => match search_next(search, h) {
            SearchStep::Continue(s) => DesktopTask { goal: t.goal, stage: Stage::Searching { search: s } },
            SearchStep::Found(lv) => DesktopTask { goal: t.goal, stage: Stage::ReadStyle { list_view: lv } },
            SearchStep::NotFound => finished,
        },
        (Stage::ReadStyle { list_view }, Event::Value(style)) =>
            DesktopTask { goal: t.goal, stage: styled_stage(list_view, t.goal, style) },
        (Stage::WriteStyle { list_view, style }, Event::Done) => match t.goal {
            Goal::Restore => DesktopTask { goal: t.goal, stage: Stage::Arranging { list_view } },
            _ => DesktopTask { goal: t.goal, stage: Stage::ReadCount { list_view } },
        },
        (Stage::ReadCount { list_view }, Event::Value(n)) =>
            DesktopTask { goal: t.goal, stage: counted_stage(list_view, t.goal, n as usize) },
        (Stage::Placing { list_view, index, count, position }, Event::Done) =>
            if index + 1 < count {
                match t.goal {
                    Goal::TidyAt { rect } => DesktopTask {
                        goal: t.goal,
                        stage: placing_stage(list_view, rect, (index + 1) as usize, count),
                    },
                    _ => finished,
                }
            } else {
                DesktopTask { goal: t.goal, stage: Stage::Redrawing { list_view } }
            },
        (Stage::Arranging { list_view }, Event::Done) =>
            DesktopTask { goal: t.goal, stage: Stage::Redrawing { list_view } },
        (Stage::Redrawing { list_view }, Event::Done) => finished,
        (Stage::Overflowed, _) => t,
        (Stage::Finished, _) => t,
        _ => finished,
    }
}

/// Tidies the icons away: finds the program window, reads where it is, then
/// scatters every desktop icon over it.
pub fn stack_icons_under_window() -> (r: DesktopTask)
    ensures
        r == (DesktopTask { goal: Goal::TidyAtOwnWindow, stage: Stage::LocateOwnWindow }),
        action_of(r) == Action::FindOwnWindow,
{
    DesktopTask { goal: Goal::TidyAtOwnWindow, stage: Stage::LocateOwnWindow }
}

/// Scatters every desktop icon over a window at `rect`.
pub fn reposition_icons_at(rect: Rect) -> (r: DesktopTask)
    ensures
        r == (DesktopTask { goal: Goal::TidyAt { rect }, stage: Stage::Searching { search: ListViewSearch::Progman } }),
{
    DesktopTask { goal: Goal::TidyAt { rect }, stage: Stage::Searching { search: ListViewSearch::start() } }
}

/// Hands the desktop back: auto-arrange on, icons re-arranged, list view redrawn.
pub fn restore_desktop() -> (r: DesktopTask)
    ensures
        r == (DesktopTask { goal: Goal::Restore, stage: Stage::Searching { search: ListViewSearch::Progman } }),
{
    DesktopTask { goal: Goal::Restore, stage: Stage::Searching { search: ListViewSearch::start() } }
}

fn placing(list_view: usize, rect: Rect, index: usize, count: usize) -> (r: Stage)
    ensures
        r == placing_stage(list_view, rect, index, count),
{
    match icon_position(rect, index) {
        Some(p) => Stage::Placing { list_view, index, count, position: pack_xy(p.0, p.1) },
        None => Stage::Overflowed,
    }
}

impl DesktopTask {
    /// The call this procedure waits on.
    pub fn action(&self) -> (r: Action)
        ensures
            r == action_of(*self),
    {
        match self.stage {
            Stage::LocateOwnWindow => Action::FindOwnWindow,
            Stage::ReadOwnRect { window } => Action::ReadWindowRect { window },
            Stage::Searching { search } => Action::FindWindow { lookup: search.lookup() },
            Stage::ReadStyle { list_view } => Action::ReadStyle { list_view },
            Stage::WriteStyle { list_view, style } => Action::WriteStyle { list_view, style },
            Stage::ReadCount { list_view } => Action::ReadItemCount { list_view },
            Stage::Placing { list_view, index, count, position } =>
                Action::PlaceItem { list_view, index, position },
            Stage::Arranging { list_view } => Action::ArrangeItems { list_view },
            Stage::Redrawing { list_view } => Action::Redraw { list_view },
            Stage::Overflowed => Action::Overflow,
            Stage::Finished => Action::Finish,
        }
    }

    /// Takes what the awaited call returned and moves to the next call.
    pub fn advance(&mut self, e: Event)
        ensures
            *final(self) == task_next(*old(self), e),
    {
        let goal = self.goal;
        let next: Stage = match (self.stage, e) {
            (Stage::LocateOwnWindow, Event::Window(h)) => if h != 0 {
                Stage::ReadOwnRect { window: h }
            } else {
                Stage::Finished
            },
            (Stage::ReadOwnRect { window }, Event::WindowRect(r)) => match r {
                Some(rect) => {
                    self.goal = Goal::TidyAt { rect };
                    Stage::Searching { search: ListViewSearch::start() }
                },
                None => Stage::Finished,
            },
            (Stage::Searching { search }, Event::Window(h)) => match search.advance(h) {
                SearchStep::Continue(s) => Stage::Searching { search: s },
                SearchStep::Found(lv) => Stage::ReadStyle { list_view: lv },
                SearchStep::NotFound => Stage::Finished,
            },
            (Stage::ReadStyle { list_view }, Event::Value(style)) => match goal {
                Goal::Restore => Stage::WriteStyle { list_view, style: style_with_auto_arrange(style) },
                _ => match style_without_auto_arrange(style) {
                    Some(s) => Stage::WriteStyle { list_view, style: s },
                    None => Stage::ReadCount { list_view },
                },
            },
            (Stage::WriteStyle { list_view, style }, Event::Done) => match goal {
                Goal::Restore => Stage::Arranging { list_view },
                _ => Stage::ReadCount { list_view },
            },
            (Stage::ReadCount { list_view }, Event::Value(n)) => {
                let count: usize = #[verifier::truncate] (n as usize);
                match goal {
                    Goal::TidyAt { rect } => if count == 0 {
                        Stage::Finished
                    } else {
                        placing(list_view, rect, 0, count)
                    },
                    _ => Stage::Finished,
                }
            },
            (Stage::Placing { list_view, index, count, position }, Event::Done) =>
                if count > 0 && index < count - 1 {
                    match goal {
                        Goal::TidyAt { rect } => placing(list_view, rect, index + 1, count),
                        _ => Stage::Finished,
                    }
                } else {
                    Stage::Redrawing { list_view }
                },
            (Stage::Arranging { list_view }, Event::Done) => Stage::Redrawing { list_view },
            (Stage::Redrawing { list_view }, Event::Done) => Stage::Finished,
            (Stage::Overflowed, _) => Stage::Overflowed,
            (Stage::Finished, _) => Stage::Finished,
            _ => Stage::Finished,
        };
        self.stage = next;
    }
}

/// What holds of every state a procedure reaches: every call names a window
/// that a lookup returned (never the null window), and every icon placement
/// moves an icon below the reported count to its hashed spot in the target
/// rectangle.
pub open spec fn task_wf(t: DesktopTask) -> bool {
    match t.stage {
        Stage::LocateOwnWindow => t.goal == Goal::TidyAtOwnWindow,
        Stage::ReadOwnRect { window } => window != 0 && t.goal == Goal::TidyAtOwnWindow,
        Stage::Searching { search } => crate::search::search_wf(search) && t.goal != Goal::TidyAtOwnWindow,
        Stage::ReadStyle { list_view } => list_view != 0 && t.goal != Goal::TidyAtOwnWindow,
        Stage::WriteStyle { list_view, style } => list_view != 0 && t.goal != Goal::TidyAtOwnWindow,
        Stage::ReadCount { list_view } => list_view != 0 && t.goal != Goal::TidyAtOwnWindow,
        Stage::Placing { list_view, index, count, position } => {
            &&& list_view != 0
            &&& index < count
            &&& t.goal matches Goal::TidyAt { rect }
            &&& spot_fits(rect, index)
            &&& position == packed_point(icon_spot(rect, index).0 as i32, icon_spot(rect, index).1 as i32)
        },
        Stage::Arranging { list_view } => list_view != 0 && t.goal == Goal::Restore,
        Stage::Redrawing { list_view } => list_view != 0,
        Stage::Overflowed => true,
        Stage::Finished => true,
    }
}

/// Every procedure starts in a state of `task_wf`, and every transition keeps it.
pub proof fn lemma_task_keeps_wf(t: DesktopTask, e: Event, rect: Rect)
    ensures
        task_wf(DesktopTask { goal: Goal::TidyAtOwnWindow, stage: Stage::LocateOwnWindow }),
        task_wf(DesktopTask { goal: Goal::TidyAt { rect }, stage: Stage::Searching { search: ListViewSearch::Progman } }),
        task_wf(DesktopTask { goal: Goal::Restore, stage: Stage::Searching { search: ListViewSearch::Progman } }),
        task_wf(t) ==> task_wf(task_next(t, e)),
{
    match (t.stage, e) {
        (Stage::Searching { search }, Event::Window(h)) => {
            crate::search::lemma_search_keeps_handles(search, h);
            crate::search::lemma_found_is_list_view(search, h);
        },
        _ => {},
    }
}

/// The procedure after `k` calls whose results it does not use.
pub open spec fn after_acks(t: DesktopTask, k: nat) -> DesktopTask
    decreases k,
{
    if k == 0 {
        t
    } else {
        task_next(after_acks(t, (k - 1) as nat), Event::Done)
    }
}

/// Once a procedure has stopped, nothing moves it again.
pub proof fn lemma_stopped_stays_stopped(t: DesktopTask, e: Event)
    requires
        t.stage is Finished || t.stage is Overflowed,
    ensures
        task_next(t, e) == t,
        action_of(t) == (if t.stage is Finished { Action::Finish } else { Action::Overflow }),
{
}

/// Tidying starts with the program's own window: when it cannot be found, or
/// its rectangle cannot be read, the procedure ends before any call touches the
/// desktop; otherwise the icon search starts with that rectangle as the target.
pub proof fn lemma_tidy_starts_at_own_window(window: usize, rect: Option<Rect>)
    ensures ({
        let t0 = DesktopTask { goal: Goal::TidyAtOwnWindow, stage: Stage::LocateOwnWindow };
        let t1 = task_next(t0, Event::Window(window));
        let t2 = task_next(t1, Event::WindowRect(rect));
        &&& window == 0 ==> t1.stage is Finished
        &&& window != 0 ==> action_of(t1) == (Action::ReadWindowRect { window })
        &&& window != 0 && rect is None ==> t2.stage is Finished
        &&& window != 0 && rect is Some ==> t2 == (DesktopTask {
                goal: Goal::TidyAt { rect: rect.unwrap() },
                stage: Stage::Searching { search: ListViewSearch::Progman },
            })
    }),
{
}

/// Tidying switches auto-arrange off only where it is on, writing the style
/// with that one bit cleared, and then asks for the number of icons.
pub proof fn lemma_tidy_clears_auto_arrange(list_view: usize, rect: Rect, style: isize)
    ensures ({
        let t0 = DesktopTask { goal: Goal::TidyAt { rect }, stage: Stage::ReadStyle { list_view } };
        let t1 = task_next(t0, Event::Value(style));
        let t2 = task_next(t1, Event::Done);
        &&& has_auto_arrange(style) ==> action_of(t1) == (Action::WriteStyle { list_view, style: style & !0x100isize })
        &&& has_auto_arrange(style) ==> action_of(t2) == (Action::ReadItemCount { list_view })
        &&& !has_auto_arrange(style) ==> action_of(t1) == (Action::ReadItemCount { list_view })
    }),
{
}

/// Handing the desktop back writes the style read with auto-arrange on, then
/// has the list view arrange its icons, then redraws it, then stops.
pub proof fn lemma_restore_sequence(list_view: usize, style: isize)
    ensures ({
        let t0 = DesktopTask { goal: Goal::Restore, stage: Stage::ReadStyle { list_view } };
        let t1 = task_next(t0, Event::Value(style));
        &&& action_of(t1) == (Action::WriteStyle { list_view, style: style | 0x100isize })
        &&& action_of(after_acks(t1, 1)) == (Action::ArrangeItems { list_view })
        &&& action_of(after_acks(t1, 2)) == (Action::Redraw { list_view })
        &&& action_of(after_acks(t1, 3)) == Action::Finish
    }),
{
    let t0 = DesktopTask { goal: Goal::Restore, stage: Stage::ReadStyle { list_view } };
    let t1 = task_next(t0, Event::Value(style));
    assert(after_acks(t1, 1) == task_next(after_acks(t1, 0), Event::Done));
    assert(after_acks(t1, 2) == task_next(after_acks(t1, 1), Event::Done));
    assert(after_acks(t1, 3) == task_next(after_acks(t1, 2), Event::Done));
}

/// Tidying and then handing the desktop back leaves the list view's style as
/// it was: the style the restore reads is the one the tidy wrote, and the
/// restore writes back exactly the style the tidy first read.
pub proof fn lemma_restore_undoes_tidy(list_view: usize, rect: Rect, style: isize)
    requires
        has_auto_arrange(style),
    ensures ({
        let tidied = task_next(
            DesktopTask { goal: Goal::TidyAt { rect }, stage: Stage::ReadStyle { list_view } },
            Event::Value(style),
        );
        let written = style & !0x100isize;
        let restored = task_next(
            DesktopTask { goal: Goal::Restore, stage: Stage::ReadStyle { list_view } },
            Event::Value(written),
        );
        &&& action_of(tidied) == (Action::WriteStyle { list_view, style: written })
        &&& action_of(restored) == (Action::WriteStyle { list_view, style })
    }),
{
    crate::style::lemma_restore_undoes_disable(style);
}

proof fn lemma_placing_run(list_view: usize, rect: Rect, count: usize, k: nat)
    requires
        0 < count,
        k < count,
        forall|j: usize| j < count ==> #[trigger] spot_fits(rect, j),
    ensures
        after_acks(
            DesktopTask { goal: Goal::TidyAt { rect }, stage: placing_stage(list_view, rect, 0, count) },
            k,
        ) == (DesktopTask { goal: Goal::TidyAt { rect }, stage: placing_stage(list_view, rect, k as usize, count) }),
    decreases k,
{
    if k > 0 {
        lemma_placing_run(list_view, rect, count, (k - 1) as nat);
        assert(spot_fits(rect, (k - 1) as usize));
        assert(spot_fits(rect, k as usize));
    }
}

/// Tidying moves every icon the list view reports, each exactly once and in
/// index order, icon `i` to the packed spot `icon_spot(rect, i)`; then it
/// redraws the list view once and stops. (Where a spot would leave the `i32`
/// range the procedure stops there instead; this law assumes none does.)
pub proof fn lemma_tidy_places_every_icon(list_view: usize, rect: Rect, n: isize, k: nat)
    requires
        0 < n as usize,
        forall|j: usize| j < n as usize ==> #[trigger] spot_fits(rect, j),
    ensures ({
        let count = n as usize;
        let placing = task_next(
            DesktopTask { goal: Goal::TidyAt { rect }, stage: Stage::ReadCount { list_view } },
            Event::Value(n),
        );
        &&& k < count ==> action_of(after_acks(placing, k)) == (Action::PlaceItem {
                list_view,
                index: k as usize,
                position: packed_point(icon_spot(rect, k as usize).0 as i32, icon_spot(rect, k as usize).1 as i32),
            })
        &&& action_of(after_acks(placing, count as nat)) == (Action::Redraw { list_view })
        &&& action_of(after_acks(placing, (count + 1) as nat)) == Action::Finish
    }),
{
    let count = n as usize;
    let placing = task_next(
        DesktopTask { goal: Goal::TidyAt { rect }, stage: Stage::ReadCount { list_view } },
        Event::Value(n),
    );
    assert(spot_fits(rect, 0));
    assert(placing == DesktopTask { goal: Goal::TidyAt { rect }, stage: placing_stage(list_view, rect, 0, count) });
    if k < count {
        lemma_placing_run(list_view, rect, count, k);
        assert(spot_fits(rect, k as usize));
    }
    lemma_placing_run(list_view, rect, count, (count - 1) as nat);
    assert(spot_fits(rect, (count - 1) as usize));
    assert(after_acks(placing, count as nat) == task_next(after_acks(placing, (count - 1) as nat), Event::Done));
    assert(after_acks(placing, (count + 1) as nat) == task_next(after_acks(placing, count as nat), Event::Done));
}

/// While the list view is being looked for, the procedure asks exactly the
/// lookup its search waits for, whatever the goal: `Progman`, its shell view,
/// that view's list view, the next `WorkerW`, a `WorkerW`'s shell view, that
/// view's list view.
pub proof fn lemma_search_asks_its_lookup(goal: Goal, progman: usize, view: usize, worker: usize, after: usize)
    ensures
        forall|s: ListViewSearch| action_of(DesktopTask { goal, stage: Stage::Searching { search: s } })
            == (Action::FindWindow { lookup: lookup_of(s) }),
        action_of(DesktopTask { goal, stage: Stage::Searching { search: ListViewSearch::Progman } })
            == (Action::FindWindow { lookup: Lookup::TopLevel { class: WindowClass::Progman } }),
        action_of(DesktopTask { goal, stage: Stage::Searching { search: ListViewSearch::ProgmanView { progman } } })
            == (Action::FindWindow { lookup: Lookup::Child { parent: progman, after: 0, class: WindowClass::ShellView } }),
        action_of(DesktopTask { goal, stage: Stage::Searching { search: ListViewSearch::ProgmanList { view } } })
            == (Action::FindWindow { lookup: Lookup::Child { parent: view, after: 0, class: WindowClass::ListView } }),
        action_of(DesktopTask { goal, stage: Stage::Searching { search: ListViewSearch::Worker { after } } })
            == (Action::FindWindow { lookup: Lookup::Child { parent: 0, after, class: WindowClass::Worker } }),
        action_of(DesktopTask { goal, stage: Stage::Searching { search: ListViewSearch::WorkerView { worker } } })
            == (Action::FindWindow { lookup: Lookup::Child { parent: worker, after: 0, class: WindowClass::ShellView } }),
        action_of(DesktopTask { goal, stage: Stage::Searching { search: ListViewSearch::WorkerList { worker, view } } })
            == (Action::FindWindow { lookup: Lookup::Child { parent: view, after: 0, class: WindowClass::ListView } }),
{
}

/// Whatever the goal and whichever chain found it, a found list view is the
/// one whose style is read next; a search that goes on stays a search with the
/// same goal; a search that runs out ends the procedure.
pub proof fn lemma_found_list_view_is_used(goal: Goal, s: ListViewSearch, h: usize)
    ensures ({
        let t = task_next(DesktopTask { goal, stage: Stage::Searching { search: s } }, Event::Window(h));
        &&& search_next(s, h) matches SearchStep::Found(lv) ==> t == (DesktopTask { goal, stage: Stage::ReadStyle { list_view: lv } })
        &&& search_next(s, h) matches SearchStep::Continue(s2) ==> t == (DesktopTask { goal, stage: Stage::Searching { search: s2 } })
        &&& search_next(s, h) is NotFound ==> t == (DesktopTask { goal, stage: Stage::Finished })
    }),
{
}

/// A tidy reads the style of the list view the search found, switches its
/// auto-arrange off where it is on (writing the style with just that bit
/// cleared), and only then asks that list view for its icon count.
pub proof fn lemma_tidy_disables_found_list_view(rect: Rect, s: ListViewSearch, h: usize, style: isize)
    requires
        search_next(s, h) is Found,
    ensures ({
        let lv = h;
        let t1 = task_next(DesktopTask { goal: Goal::TidyAt { rect }, stage: Stage::Searching { search: s } }, Event::Window(h));
        let t2 = task_next(t1, Event::Value(style));
        let t3 = task_next(t2, Event::Done);
        &&& action_of(t1) == (Action::ReadStyle { list_view: lv })
        &&& style & 0x100 != 0 ==> action_of(t2) == (Action::WriteStyle { list_view: lv, style: style & !0x100isize })
        &&& style & 0x100 != 0 ==> action_of(t3) == (Action::ReadItemCount { list_view: lv })
        &&& style & 0x100 == 0 ==> action_of(t2) == (Action::ReadItemCount { list_view: lv })
    }),
{
    crate::search::lemma_found_is_list_view(s, h);
}

/// Reading an icon count of zero ends a tidy without moving or redrawing
/// anything; with a positive count the first icon is placed at its spot, or
/// the procedure stops on overflow where that spot leaves `i32`.
pub proof fn lemma_count_starts_placing(list_view: usize, rect: Rect, n: isize)
    ensures ({
        let t = task_next(DesktopTask { goal: Goal::TidyAt { rect }, stage: Stage::ReadCount { list_view } }, Event::Value(n));
        &&& n as usize == 0 ==> t.stage is Finished
        &&& n as usize > 0 && spot_fits(rect, 0) ==> action_of(t) == (Action::PlaceItem {
                list_view,
                index: 0,
                position: packed_point(icon_spot(rect, 0).0 as i32, icon_spot(rect, 0).1 as i32),
            })
        &&& n as usize > 0 && !spot_fits(rect, 0) ==> action_of(t) == Action::Overflow
    }),
{
}

/// After icon `index` has been placed, the next icon is placed at its spot,
/// or the procedure stops on overflow where that spot leaves `i32`; after the
/// last icon the list view is redrawn.
pub proof fn lemma_placing_steps(list_view: usize, rect: Rect, index: usize, count: usize, position: isize)
    ensures ({
        let t = task_next(
            DesktopTask { goal: Goal::TidyAt { rect }, stage: Stage::Placing { list_view, index, count, position } },
            Event::Done,
        );
        &&& index + 1 >= count ==> action_of(t) == (Action::Redraw { list_view })
        &&& index + 1 < count && spot_fits(rect, (index + 1) as usize) ==> action_of(t) == (Action::PlaceItem {
                list_view,
                index: (index + 1) as usize,
                position: packed_point(
                    icon_spot(rect, (index + 1) as usize).0 as i32,
                    icon_spot(rect, (index + 1) as usize).1 as i32,
                ),
            })
        &&& index + 1 < count && !spot_fits(rect, (index + 1) as usize) ==> action_of(t) == Action::Overflow
    }),
{
}

/// A reply of the wrong kind for the call a running procedure waits on ends
/// the procedure: lookups take a window, a rectangle read takes a rectangle,
/// style and count reads take a number, and every other call takes `Done`.
pub proof fn lemma_wrong_reply_ends(t: DesktopTask, e: Event)
    requires
        !(t.stage is Finished || t.stage is Overflowed),
        !((t.stage is LocateOwnWindow || t.stage is Searching) && e is Window),
        !(t.stage is ReadOwnRect && e is WindowRect),
        !((t.stage is ReadStyle || t.stage is ReadCount) && e is Value),
        !((t.stage is WriteStyle || t.stage is Placing || t.stage is Arranging || t.stage is Redrawing) && e is Done),
    ensures
        task_next(t, e) == (DesktopTask { goal: t.goal, stage: Stage::Finished }),
{
}

} // verus!
