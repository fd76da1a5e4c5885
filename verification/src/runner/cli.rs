//! The runner's command line.
use vstd::prelude::*;

verus! {

/// The runner's command line: one subcommand.
#[derive(Debug)]
pub struct Cli {
    pub command: Commands,
}

/// What the runner is asked to do.
#[derive(Debug)]
pub enum Commands {
    MakeKeys(MakeKeys),
    Run(Run),
}

/// Generating a key pair and certificate for each machine of the testbed.
#[derive(Debug)]
pub struct MakeKeys {
    pub key_dir: String,
    pub def_file: String,
}

/// Running experiments.
#[derive(Debug)]
pub struct Run {
    pub key_dir: String,
    pub def_file: String,
    pub instances_dir: String,
    pub pktgen_name: String,
    /// Whether the machine under test and the packet generator are wired to
    /// each other directly rather than through a switch.
    pub back_to_back: bool,
    pub experiments: Vec<String>,
}

} // verus!
