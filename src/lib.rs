//! Provisioning of a badge device: the local artifacts it consumes, the
//! commands that push them to the device, and the state machine that drives
//! a run and reports its progress.

pub mod artifact;
pub mod led;
pub mod monitor;
pub mod pipeline;
pub mod run;
pub mod step;
pub mod text;
