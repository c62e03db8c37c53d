//! Runs a list of shell-style commands and files each command's captured
//! output as a named entry of one archive.
//!
//! This crate holds the decisions of such a run: how an entry is named, how a
//! command line is assembled and split into a program and its arguments, which
//! commands are dispatched and when the run stops, what is archived for a
//! finished command, and in which states the archive accepts an entry.
//! Starting processes and writing the archive file is left to the caller.

pub mod text;
pub mod naming;
pub mod command;
pub mod job;
pub mod schedule;
pub mod sink;
pub mod preview;
