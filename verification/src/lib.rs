//! Runtime core of a display server: an event-driven frame-pacing runtime
//! that multiplexes heterogeneous event sources onto one control thread,
//! manages the hardware output's swapchain in lock-step with completion
//! notifications, translates raw input into portable key events, and gates
//! the external render engine to a fixed frame tick.
//!
//! The hardware, protocol and render-engine calls themselves are outside
//! work performed by the embedding process; this crate owns every decision
//! between them: which buffer to hand out, when a frame is due, in what
//! order events are delivered, and when the loop must exit.

pub mod bridge;
pub mod errors;
pub mod input;
pub mod multiplexer;
pub mod pacer;
pub mod registry;
pub mod runtime;
pub mod setup;
pub mod swapchain;
