//! Errors that an exchange with the sensor can end in.
use vstd::prelude::*;

verus! {

/// Why an operation on the sensor failed.
#[derive(Debug, Clone, PartialEq, Eq)]
pub enum Error {
    /// The requested work period is longer than 30 minutes.
    TooLongWorkTime,
    /// The reply held no payload.
    EmptyDataFrame,
    /// The reply's checksum does not match its payload.
    BadChecksum,
    /// The port failed to open, write or read (a timeout included).
    ReadError(String),
}

} // verus!
