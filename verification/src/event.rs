//! Platform events as the runtime sees them.

use vstd::prelude::*;

verus! {

/// The physical key of a keyboard event, as far as the runtime tells keys apart.
#[derive(Clone, Copy, Debug, PartialEq, Eq, Structural)]
pub enum Key {
    /// The Escape key, which ends the run.
    Escape,
    /// Any other key, identified or not.
    Other,
}

/// A window event, reduced to what the built-in handling reads.
#[derive(Clone, Copy, Debug, PartialEq, Eq, Structural)]
pub enum Event {
    /// The user asked the window to close.
    CloseRequested,
    /// The client area of the window now has this size in pixels.
    Resized { width: u32, height: u32 },
    /// A key changed state.
    KeyboardInput { key: Key },
    /// The platform asks for a new frame; `now` is the monotonic clock in
    /// nanoseconds at the time of the request.
    RedrawRequested { now: u64 },
    /// Any event without built-in handling.
    Other,
}

} // verus!
