//! Supervision of an external clustering worker: single-flight job control,
//! classification of the worker's output lines, and the rules that turn what
//! the worker did into one typed outcome.

pub mod controller;
pub mod demux;
pub mod job;
pub mod outcome;
pub mod platform;
pub mod probe;
pub mod protocol;
