//! The events the emulation thread sends to the front end.

use vstd::prelude::*;

verus! {

/// An event from the emulation thread to the front end.
#[derive(Debug, Clone)]
pub enum AppEvent {
    /// A frame is ready: 1024x512 RGBA pixels.
    FrameReady(Vec<u8>),
    /// The emulator stopped.
    EmulatorShutdown,
}

} // verus!
