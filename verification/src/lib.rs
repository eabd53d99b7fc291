//! Multiplexes incremental reads from growing log files into one ordered
//! stream of line events.
//!
//! The core of the library is the per-file tailing state: a byte cursor, a
//! partial-line buffer, and the drain pass that turns newly appended bytes
//! into complete lines. Everything here is plain values; opening files,
//! watching for change notifications and delivering events over a channel
//! are left to the surrounding program.

pub mod cursor;
pub mod dispatch;
pub mod lines;
pub mod tailer;
