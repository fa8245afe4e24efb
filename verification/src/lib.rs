//! A bridge from asynchronous resize notifications raised by a browser
//! document to a synchronous, pull-based frame loop: raw dimension reports are
//! scaled to physical pixels, relayed through an unbounded non-blocking
//! channel, and drained one at a time by a per-frame poll.

pub mod bridge;
pub mod channel;
pub mod size;

pub use bridge::{JsResizeEventChannel, ResizeEventChannel, StubResizeEventChannel};
pub use channel::EventChannel;
pub use size::{Size, scale, SCALE_FACTOR};
