//! Engine of a timed mental-arithmetic drill: configuration, the constrained
//! number generator, the session run, the session manager with its result
//! cache and auto-repeat plan, and answer checking.

pub mod config;
pub mod generator;
pub mod run;
pub mod manager;
pub mod repeat;
pub mod answer;
pub mod audio;
pub mod commands;
