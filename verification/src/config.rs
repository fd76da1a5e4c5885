//! Experiment configuration: machines, value ranges, and experiment files
//! that inherit settings from prototypes.
pub mod experiment;
pub mod machine;
pub mod number;
pub mod range;
