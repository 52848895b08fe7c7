//! Verified core of a real-time camera background-subtraction pipeline.
//!
//! A capture actor hands frames on demand to a pipeline orchestrator, which
//! owns one of four interchangeable background-subtraction strategies and
//! answers consumer commands with binary foreground masks.  The modules here
//! hold the data model (frames, masks, flow fields), the four strategies, the
//! orchestrator state machine, and a model of the bounded channel protocol
//! that connects the three threads.  Device reads, the Gaussian-mixture
//! model, and dense optical-flow estimation are outside work: the surrounding
//! process performs them and hands their results in as plain values, so that
//! every decision made on those values is verified.

pub mod config;
pub mod errors;
pub mod frame;
pub mod messages;
pub mod mog;
pub mod naive;
pub mod optical_flow;
pub mod orchestrator;
pub mod protocol;
pub mod subtractor;
pub mod test_pattern;
