//! Recovery protocol for readback-protected nRF52 microcontrollers.
//!
//! The crate models the vendor's control access port: the four hardware
//! registers the recovery sequence touches, the scan that locates the port
//! among those a debug probe exposes, and the state machine that orders the
//! reset, erase and poll operations with a fixed timeout. The debug transport
//! itself is not part of this crate: a driver performs each requested
//! operation and reports its result back to the state machine.

pub mod locator;
pub mod registers;
pub mod sequencer;
