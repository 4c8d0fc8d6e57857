//! Errors of device transactions.

use vstd::prelude::*;

use crate::protocol::{RazerCommand, RazerStatus};

verus! {

/// Why a transaction with the device failed.
#[derive(Debug, Clone)]
pub enum RazerError {
    /// The HID layer failed; the message is the one it gave.
    Hid(String),
    /// No supported control interface was found.
    DeviceNotFound,
    /// A feature report came back shorter than a full report.
    ShortReport { expected: usize, received: usize },
    /// The device answered with a status that is not an answer.
    UnexpectedStatus(RazerStatus),
    /// The device answered another command.
    UnexpectedCommand { expected: RazerCommand, received: RazerCommand },
    /// The device answered another transaction.
    TransactionMismatch { expected: u8, received: u8 },
    /// The answer's checksum byte does not match its contents.
    CrcMismatch { expected: u8, received: u8 },
    /// The device reported a timeout.
    Timeout,
    /// An argument index lies outside the argument block.
    InvalidArgument(usize),
    /// The device reported a polling-rate byte that stands for no rate.
    UnknownPollingRate(u8),
}

} // verus!
