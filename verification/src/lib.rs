//! Verified core of a network-function testbed: the wire protocol between the
//! experiment runner and its devices, the bookkeeping on both ends of a
//! connection, experiment configuration, and the commands the runner issues.
pub mod backend;
pub mod config;
pub mod device;
pub mod macswap;
pub mod runner;
pub mod text;
