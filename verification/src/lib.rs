//! Verified core of a command-line tool that waits for Buildkite builds to
//! finish and then reports on them.

pub mod text;
pub mod url;
pub mod builds;
pub mod client;
pub mod api;
pub mod waiter;
pub mod cli;
pub mod output;
