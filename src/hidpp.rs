//! The HID++ protocol layer.
pub mod battery;
pub mod device;
pub mod diagnostic;
pub mod feature;
pub mod interface;
pub mod validation;
