//! The experiment runner: its command line, and the requests and file names it
//! builds for the machines of the testbed.
pub mod cli;
pub mod keys;
pub mod plan;
pub mod series;
