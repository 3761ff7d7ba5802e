//! Verified core of a desktop-icon tidier: the arithmetic that places
//! icons, the list-view style bits it toggles, and the decision logic
//! that drives the window-system calls, written as state machines that
//! an outer shell runs.


pub mod geometry;
pub mod style;
pub mod layout;
pub mod search;
pub mod task;
pub mod monitor;
pub mod session;
