//! Reads or requests a change of the keyboard input locale of the window that
//! currently holds focus.
//!
//! The library holds the decisions of one invocation: turning the command line
//! into a command, extracting the locale identifier from a raw keyboard-layout
//! value, rendering it as decimal text, and mapping what the operating system
//! reported into the invocation's outcome. The calls into the window-management
//! interface themselves live outside the library, which receives their results
//! as plain values.

pub mod cli;
pub mod error;
pub mod locale;
pub mod numerals;
