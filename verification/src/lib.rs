//! Typed, firmware-independent logic for a handful of UEFI protocols.
//!
//! Firmware is reached through raw function tables, which this library never
//! touches. Every operation is therefore split in two: the library prepares
//! what is handed to firmware and interprets what firmware answered, and the
//! caller performs the call in between.

pub mod guid;
pub mod protocols;
pub mod status;
