//! The bus accesses that the driver asks its caller to make.
//!
//! Each kind of access is a type of its own and stands for exactly one
//! transaction on the bus. The caller performs it and hands the outcome back
//! to the driver.

use vstd::prelude::*;

verus! {

/// Number of bytes in a sensor response.
pub const RESPONSE_LEN: usize = 2;

/// One write transaction: send `bytes` to the device at `address`.
#[derive(Clone, Copy, Debug, PartialEq, Eq)]
pub struct Write {
    /// Seven-bit address of the device.
    pub address: u8,
    /// The bytes to send.
    pub bytes: [u8; 1],
}

/// One read transaction: fill `buffer` with bytes from the device at
/// `address`.
#[derive(Clone, Copy, Debug, PartialEq, Eq)]
pub struct Read {
    /// Seven-bit address of the device.
    pub address: u8,
    /// The buffer to fill; its length is the number of bytes to read.
    pub buffer: [u8; RESPONSE_LEN],
}

/// One combined transaction: send `bytes` to the device at `address`, then
/// fill `buffer` with bytes from it, with a repeated start and no stop
/// condition in between.
#[derive(Clone, Copy, Debug, PartialEq, Eq)]
pub struct WriteRead {
    /// Seven-bit address of the device.
    pub address: u8,
    /// The bytes to send.
    pub bytes: [u8; 1],
    /// The buffer to fill; its length is the number of bytes to read.
    pub buffer: [u8; RESPONSE_LEN],
}

} // verus!
