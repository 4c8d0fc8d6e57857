//! Verified protocol, decoding and decision logic for Razer HID peripherals:
//! the DeathAdder V3 HyperSpeed over wired USB (`1532:00c4`) and through its
//! 2.4 GHz receiver (`1532:00c5`).
//!
//! - [`protocol`]: the 90-byte feature report, its checksum, requests and responses;
//! - [`battery`]: battery readings;
//! - [`device`]: framing, answer checks, retries and answer decoding of a transaction;
//! - [`error`]: what can go wrong in a transaction;
//! - [`devices`]: the device catalog and the device-independent battery report,
//!   and finding the mouse among the host's HID interfaces;
//! - [`monitor`]: what the desktop monitor shows of each device;
//! - [`cli`]: the arguments of the control tool.

pub mod battery;
pub mod cli;
pub mod device;
pub mod devices;
pub mod error;
pub mod monitor;
pub mod protocol;

pub use battery::{Battery, ChargingState};
pub use error::RazerError;
pub use protocol::{PollingRate, RazerCommand, RazerRequest, RazerResponse, RazerStatus};
