//! The device side of the testbed: the wire protocol and the state kept on
//! both ends of a connection.
pub mod message;
pub mod dispatch;
pub mod command_block;
pub mod sequencer;
pub mod measure;
pub mod polling;
pub mod frame;

use vstd::prelude::*;

verus! {

/// The port on which devices accept the runner.
pub const PORT: u16 = 9832;

} // verus!
