//! Core of an arcade-style USB input device: a fixed table of sixteen
//! buttons, the encoding of a sampled button bitmap into HID reports for
//! either of two personas (keyboard or generic controller), the queue that
//! schedules a multi-report keyboard sequence across poll ticks, and the
//! binary serialization of the USB descriptors the device advertises.
//!
//! Everything here is pure computation on plain values; reading the input
//! lines and driving the USB transport live outside this crate.

pub mod inputs;
pub mod schedule;
pub mod usb;
pub mod usb_sys;
