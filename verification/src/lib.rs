//! Library behind a small dining-hall menu launcher.
//!
//! The library resolves partial date strings against a reference date,
//! decides on which weekdays formal hall runs, and maps a command token
//! plus the current time to the single action the program should take
//! (open one of three menu URLs, print help, or print a notice).

pub mod date;
pub mod error;
pub mod resolve;
pub mod menu;
pub mod laws;
