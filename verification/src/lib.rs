//! Frame capture bridge for a kernel-resident packet filter.
//!
//! The library verifies the logic of a capture pipeline: decoding
//! length-prefixed samples delivered by a ring buffer, a single-slot
//! mailbox that bridges callback delivery to synchronous retrieval,
//! and the lifecycle state machine that acquires and releases the
//! kernel-side resources in dependency order.

pub mod addr;
pub mod capture;
pub mod frame;
pub mod ipv4;
pub mod mailbox;
pub mod monitor;

pub use frame::RINGBUF_FRAME_SIZE;
