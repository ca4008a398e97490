//! A USB-triggered momentary switch: a host sends a duration in a HID output
//! report, and the device holds a relay output high for that long.
//!
//! The verified core is split into the report decoder and validator
//! (`report`), the single-slot latest-value mailbox between the report
//! handler and the relay loop (`channel`), and the relay state machine
//! together with the whole-device model it drives (`device`), and what holds
//! of that model over sequences of events (`laws`).
pub mod channel;
pub mod device;
pub mod laws;
pub mod report;
