//! Protocol layer of a driver for an air-quality sensor that talks over a
//! two-wire serial bus in short, checksummed command and response frames.
pub mod checksum;
pub mod commands;
pub mod driver;
pub mod error;
pub mod hex;
pub mod params;
pub mod response;
pub mod shapes;
