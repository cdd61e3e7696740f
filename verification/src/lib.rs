//! Configuration resolution and document persistence for a local-first
//! task tracker.
//!
//! The library decides; the host performs. Every function here is a total
//! function on plain values (texts read from files, the home directory, the
//! outcome of a read), and says in its contract which text, path or error
//! comes back. Reading and writing files is left to the caller.

pub mod config;
pub mod document;
pub mod error;
pub mod json;
pub mod paths;
pub mod sync;
pub mod texts;
