//! Bookkeeping and event dispatch for a game-controller monitor.
//!
//! The library decides what each controller event does to the table of open
//! devices and which lines it prints; the program around it talks to the input
//! subsystem and writes those lines out.

pub mod names;
pub mod text;
pub mod registry;
pub mod dispatch;
pub mod laws;
