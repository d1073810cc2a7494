//! The decision logic of a work/break interval timer.
//!
//! The library holds what the timer decides: how a key becomes an action, how
//! one tick of a countdown changes its state, when a confirmation prompt is
//! left, which phase follows which, and how remaining seconds are displayed.
//! Reading keys, writing to the terminal and sleeping between ticks are left
//! to the program that drives these functions.

pub mod action;
pub mod clock;
pub mod countdown;
pub mod interval;
pub mod phase;
