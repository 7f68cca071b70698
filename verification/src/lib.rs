//! Verified core of a Bluetooth-Low-Energy RGB LED controller.
//!
//! Two incompatible firmware families are supported, each with its own
//! command byte layout, write-characteristic selection rule and connection
//! quirks. This crate holds everything that can be decided without touching
//! the radio: the per-profile command encoder, the device-discovery rules
//! with their signal-strength gate, the connection-establishment state
//! machine with its bounded retries, and the session facade that plans each
//! command's writes. An unverified adapter layer drives the radio stack by
//! performing the actions these components decide and reporting the
//! outcomes back.

pub mod address;
pub mod characteristic;
pub mod command;
pub mod connection;
pub mod errors;
pub mod locator;
pub mod palette;
pub mod profile;
pub mod session;
