//! Verified core of an offline installer builder for the 3x-ui panel:
//! build settings, per-distribution package knowledge, the generated
//! install script, the resumable bundle manifest, the plan of a build run
//! and the decisions of the interactive flows.

pub mod state;
pub mod text;
pub mod os_detect;
pub mod script;
pub mod keyed;
pub mod manifest;
pub mod resume;
pub mod downloader;
pub mod prompt;
pub mod wizard;
pub mod plan;
