//! Driver for an 18-channel constant-current LED controller reached over a
//! two-wire serial bus.
//!
//! The driver translates channel-level intents (enable a channel, set a
//! brightness, reset the chip) into the exact register writes the chip
//! expects, always ending a state-changing operation with a write to the
//! update register so the chip applies pending values atomically.

pub mod bus;
pub mod driver;
pub mod error;
pub mod protocol;
pub mod sim;

pub use error::Error;
