//! Encode-only framing layer for the Cowboy serial control protocol.
//!
//! A logical command is a fixed 9-byte template; the last two bytes carry a
//! big-endian 16-bit parameter. A wire frame is the template followed by a
//! 2-byte checksum (a reflected CRC-16 variant), 11 bytes in all.

pub mod frame;
pub mod guard;
