//! The host side of a remote display: capture jobs, frame hand-off, input
//! translation and sound relay, as far as they can be decided without touching
//! the operating system.

pub mod counter;
pub mod credential;
pub mod input;
pub mod screen;
