//! Host-side core of a battery indicator for HID++ peripherals: battery
//! report decoding, feature-index resolution, transition plausibility
//! checks and the device session that ties them together.
//!
//! Transport I/O (opening the HID device, writing and reading frames) is
//! done by the caller; the session tells it which frame to exchange next and
//! consumes what came back.
pub mod config;
pub mod hidpp;
pub mod schedule;
pub mod tray;
