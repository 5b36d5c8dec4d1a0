//! Command/response communication engine for a smartcard-class secure
//! device: APDU framing, length-field parsing, status-word replies and
//! button-edge decoding over a fixed 260-byte buffer.

pub mod buttons;
pub mod comm;
pub mod seph;
pub mod status;
