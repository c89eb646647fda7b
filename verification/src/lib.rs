//! Verified core of a macOS disk-image (DMG) packaging pipeline.
//!
//! The library plans the output layout for a compressed disk-image installer,
//! decides whether the prerequisite application bundle must be built first,
//! and drives the whole packaging run as a linear state machine: each step of
//! the machine names one filesystem or external-process action for the host
//! to perform, and consumes the outcome of that action before naming the
//! next one. The host performs the actions (directory staging, the external
//! disk-image compiler, the external signer); every decision in between is
//! verified here.

pub mod laws;
pub mod paths;
pub mod pipeline;
pub mod resources;
pub mod settings;
