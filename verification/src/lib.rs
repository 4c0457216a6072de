//! An interactive loop that asks for the path of a file and echoes the file
//! line by line, until the user types `exit`.
//!
//! The library holds the decisions of the loop: how a line of input is read
//! as a command, when a path may be echoed, what is written to which channel,
//! and how the loop moves from one state to the next. A driver around it does
//! the reading and the writing, and reports what happened as events.

pub mod command;
pub mod echo_loop;
pub mod laws;
pub mod report;
pub mod target;
pub mod text;
