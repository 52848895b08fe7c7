//! Startup configuration records.  They are plain data: the surrounding
//! process parses its configuration file and hands these in; they are
//! immutable afterwards.

use crate::subtractor::SubtractorType;
use vstd::prelude::*;

verus! {

/// Which camera device to open.
#[derive(Clone, Copy, Debug, PartialEq, Eq, Structural)]
pub struct CameraConfig {
    pub device_index: i32,
}

/// Which background-subtraction strategy to run.
#[derive(Clone, Copy, Debug, PartialEq, Eq, Structural)]
pub struct BgSubConfig {
    pub subtractor_type: SubtractorType,
}

/// Key bindings of the consumer's window.
#[derive(Clone, Debug)]
pub struct KeyConfig {
    pub quit_key: String,
    pub reset_key: String,
    pub toggle_minimap_key: String,
}

/// A named shader pair for the consumer's renderer.
#[derive(Clone, Debug)]
pub struct ShaderConfig {
    pub name: String,
    pub vertex: String,
    pub fragment: String,
}

} // verus!
