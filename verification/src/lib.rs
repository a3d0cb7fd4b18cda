//! Host-side access to USB devices: device and configuration descriptors,
//! endpoint addressing, claimed-interface tracking, and the state machine
//! that bridges the native driver's completion callbacks into a poll-based
//! transfer interface. All decision logic is verified; the native driver
//! calls themselves (and the threads and locks around them) live in the
//! surrounding application, which drives these functions.

pub mod context;
pub mod endpoint;
pub mod error;
pub mod descriptors;
pub mod device_handle;
pub mod picoboot;
pub mod transfer;
