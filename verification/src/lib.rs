//! The integration-test plan of a REAPER extension: which test steps run, in
//! which order, and the rules by which each step judges what REAPER reported.

pub mod plan;
pub mod text;
pub mod actions;
pub mod misc;
pub mod misc_types;
pub mod ext_state;
pub mod markers;
pub mod tracks;
pub mod projects;
pub mod dialogs;
