//! The device program's command line.
use vstd::prelude::*;

verus! {

/// The device's command line: where its keys lie, its own name, and the name
/// of the runner it accepts.
#[derive(Debug)]
pub struct Cli {
    pub key_dir: String,
    pub my_name: String,
    pub client_name: String,
}

} // verus!
