//! Supervision rules for a bundled backend process.
//!
//! A desktop shell launches one backend executable as a child process and
//! relays what the child writes, and how it ends, into the log. This crate
//! holds the decisions of that supervisor as verified functions on plain
//! values: how bytes become text, which log entry each event of the child
//! yields, which logging sink a build profile asks for, and how the
//! supervisor moves from start-up through draining to the end of the stream.
//! Creating the process, awaiting its events and writing to the log are left
//! to the caller.

pub mod event;
pub mod profile;
pub mod relay;
pub mod supervisor;
pub mod text;
pub mod trace;
