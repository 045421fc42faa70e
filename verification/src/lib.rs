//! Verified core of a small real-time rendering host.
//!
//! The host owns a window, a GPU surface and a frame loop. Everything that
//! touches the platform or the GPU is done by the embedding program; this
//! crate holds the decisions: the lifecycle state machine, the order of the
//! operations of a frame, resize and shutdown handling, the overlay pass, the
//! projection cache of a scene and the status checks of the shader loader.
//! Each entry point takes plain values and returns the operations to perform.

pub mod clock;
pub mod command;
pub mod config;
pub mod diagnostics;
pub mod event;
pub mod history;
pub mod overlay;
pub mod projection;
pub mod runtime;
pub mod shader;
pub mod text;
