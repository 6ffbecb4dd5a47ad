//! Turning raw coverage profiles into lcov reports: the decisions of the
//! merge-and-export pipeline, kept apart from the processes and the file
//! system that carry them out.

pub mod runner;
pub mod tools;
pub mod discovery;
pub mod pipeline;
