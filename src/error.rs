//! What can go wrong in a transaction with the sensor.
use vstd::prelude::*;

verus! {

/// A failure of the bus itself, as the bus controller reports it.
#[derive(Debug, Clone, Copy, PartialEq, Eq, Structural)]
pub enum BusError {
    /// Misplaced start or stop condition.
    Bus,
    /// Another controller took the bus.
    Arbitration,
    /// The device did not acknowledge.
    Acknowledge,
    /// Data came or went faster than it was handled.
    Overrun,
    /// The bus did not answer in time.
    Timeout,
}

/// The error of a transaction with the sensor.
#[derive(Debug, Clone, Copy, PartialEq, Eq, Structural)]
pub enum Sgp30Error {
    /// A received checksum byte does not match the two bytes before it.
    Crc,
    /// Writing to or reading from the bus failed.
    I2c(BusError),
    /// A payload that the command's shape calls for is absent.
    MissingData,
    /// A command code outside the supported set.
    InvalidCommandCode(u16),
}

} // verus!
