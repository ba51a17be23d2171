//! A verified XMODEM file-transfer engine.
//!
//! The engine moves a byte stream across a half-duplex, timeout-bounded
//! serial link using alternating request/acknowledge packets, two
//! interchangeable error-detection schemes (8-bit checksum and CRC-16),
//! and bounded retry with two-CAN cancellation.

pub mod codec;
pub mod error;
pub mod receiver;
pub mod sender;
pub mod transport;
pub mod ui;
pub mod xmodem;
