//! Typed, resource-safe layer over a native GPU engine's C interface.
//!
//! The crate models the values that cross the engine boundary — result codes,
//! formats, flag sets, descriptors, resource identifiers — with exact numeric
//! parity to the engine's own constants, and verifies the bookkeeping around
//! them: bounded debug-name strings, the embeddable optional wrapper, the
//! mapping of native result codes to typed errors, and the generation-tagged
//! liveness of resource identifiers handed out by a device.

pub mod command_recorder;
pub mod device;
pub mod format;
pub mod instance;
pub mod pipeline;
pub mod swapchain;
pub mod types;
