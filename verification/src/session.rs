//! The program's own progress: idle, counting down to the tidy, tidied; and
//! what it must start and stop along the way.

use vstd::prelude::*;

verus! {

/// Where the program stands.
#[derive(Clone, Copy, Debug, PartialEq, Eq, Structural)]
pub enum Phase {
    /// Waiting for the "tidy" button.
    Idle,
    /// Counting down before the tidy.
    Cleaning,
    /// The icons have been tidied.
    Cleaned,
}

/// How far along a phase is.
pub open spec fn phase_rank(p: Phase) -> int {
    match p {
        Phase::Idle => 0,
        Phase::Cleaning => 1,
        Phase::Cleaned => 2,
    }
}

/// The state after the "tidy" button is pressed: idle turns to counting down.
pub open spec fn after_press(a: App) -> App {
    if a.phase == Phase::Idle { App { phase: Phase::Cleaning, ..a } } else { a }
}

/// Whether a countdown check launches the tidy.
pub open spec fn launches(a: App, countdown_over: bool) -> bool {
    a.phase == Phase::Cleaning && countdown_over
}

/// The state after a countdown check: tidied, with the monitor running, when
/// the tidy is launched; unchanged otherwise.
pub open spec fn after_tick(a: App, countdown_over: bool) -> App {
    if launches(a, countdown_over) { App { phase: Phase::Cleaned, monitor_active: true } } else { a }
}

/// The program's state: its phase and whether a window monitor is running.
#[derive(Clone, Copy, Debug)]
pub struct App {
    pub phase: Phase,
    pub monitor_active: bool,
}

/// What closing the program has to do.
#[derive(Clone, Copy, Debug, PartialEq, Eq, Structural)]
pub struct Closing {
    /// Tell the running window monitor to stop.
    pub stop_monitor: bool,
    /// Hand the desktop back (auto-arrange on).
    pub restore_desktop: bool,
}

impl Default for App {
    fn default() -> (r: App)
        ensures
            r.phase == Phase::Idle,
            !r.monitor_active,
    {
        App { phase: Phase::Idle, monitor_active: false }
    }
}

impl App {
    /// The "tidy" button was pressed: the countdown starts. Returns whether it
    /// did (the button only acts while idle).
    pub fn press_clean(&mut self) -> (started: bool)
        ensures
            started == (old(self).phase == Phase::Idle),
            *final(self) == after_press(*old(self)),
    {
        if self.phase == Phase::Idle {
            self.phase = Phase::Cleaning;
            true
        } else {
            false
        }
    }

    /// One frame's check of the countdown (`countdown_over`: three seconds
    /// have passed since the button was pressed). Returns whether the tidy
    /// must be launched now; when it must, the program is tidied and the
    /// window monitor has been started.
    pub fn tick_cleaning(&mut self, countdown_over: bool) -> (launch: bool)
        ensures
            launch == launches(*old(self), countdown_over),
            *final(self) == after_tick(*old(self), countdown_over),
    {
        if self.phase == Phase::Cleaning && countdown_over {
            self.phase = Phase::Cleaned;
            self.start_monitor();
            true
        } else {
            false
        }
    }

    /// A window monitor has been started.
    pub fn start_monitor(&mut self)
        ensures
            final(self).monitor_active,
            final(self).phase == old(self).phase,
    {
        self.monitor_active = true;
    }

    /// Stops the window monitor; returns whether one was running and must be
    /// told to stop.
    pub fn stop_monitor(&mut self) -> (was_active: bool)
        ensures
            was_active == old(self).monitor_active,
            !final(self).monitor_active,
            final(self).phase == old(self).phase,
    {
        let was_active = self.monitor_active;
        self.monitor_active = false;
        was_active
    }

    /// Whether the next frame must be drawn without waiting for input (the
    /// countdown is running).
    pub fn needs_repaint(&self) -> (r: bool)
        ensures
            r == (self.phase == Phase::Cleaning),
    {
        self.phase == Phase::Cleaning
    }

    /// The program closes: the monitor is stopped, and the desktop is handed
    /// back exactly when the icons were tidied.
    pub fn close(&mut self) -> (r: Closing)
        ensures
            r.stop_monitor == old(self).monitor_active,
            r.restore_desktop == (old(self).phase == Phase::Cleaned),
            !final(self).monitor_active,
            final(self).phase == old(self).phase,
    {
        let stop = self.stop_monitor();
        Closing { stop_monitor: stop, restore_desktop: self.phase == Phase::Cleaned }
    }
}

/// The phase only ever moves forward, and the tidy is launched at most once:
/// neither a press nor a countdown check lowers the phase, and once a check
/// has launched the tidy, no later press or check launches it again.
pub proof fn lemma_phase_moves_forward(a: App, countdown_over: bool, later: bool)
    ensures
        phase_rank(after_press(a).phase) >= phase_rank(a.phase),
        phase_rank(after_tick(a, countdown_over).phase) >= phase_rank(a.phase),
        launches(a, countdown_over) ==> !launches(after_tick(a, countdown_over), later),
        launches(a, countdown_over) ==> !launches(after_press(after_tick(a, countdown_over)), later),
{
}

/// A countdown check changes nothing unless the program is counting down and
/// the countdown is over; then it moves to tidied with the monitor running.
/// So the monitor started at the launch stays recorded for later checks, and
/// closing after a launch always stops it and hands the desktop back.
pub proof fn lemma_tick_changes_only_on_launch(a: App, countdown_over: bool, later: bool)
    ensures
        !(a.phase == Phase::Cleaning && countdown_over) ==> after_tick(a, countdown_over) == a,
        (a.phase == Phase::Cleaning && countdown_over) ==> after_tick(a, countdown_over)
            == (App { phase: Phase::Cleaned, monitor_active: true }),
        (a.phase == Phase::Cleaning && countdown_over) ==> ({
            let b = after_tick(after_tick(a, countdown_over), later);
            b.phase == Phase::Cleaned && b.monitor_active
        }),
        launches(a, countdown_over) == (a.phase == Phase::Cleaning && countdown_over),
        after_press(a) == (if a.phase == Phase::Idle { App { phase: Phase::Cleaning, monitor_active: a.monitor_active } } else { a }),
{
}

} // verus!
