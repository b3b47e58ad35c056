//! Verified core of a BLE lamp controller.
//!
//! The lamp speaks a small proprietary protocol: five-byte command frames
//! carrying a one-byte payload and a checksum. This crate holds the verified
//! logic of the controller: the frame codec, the device locator (advertised
//! name matching and the bounded discovery poll), and the session driver as a
//! state machine from events to actions. The unverified binary performs the
//! radio work and feeds events back to the state machine.

pub mod codec;
pub mod locator;
pub mod session;

pub use codec::chksum;
