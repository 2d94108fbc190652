//! BLE UUID handling.
//!
//! Bluetooth Low Energy identifies services and characteristics by UUID. To
//! save space on the wire, many common UUIDs are transmitted as 16- or 32-bit
//! aliases that expand deterministically to their full 128-bit form through
//! the Bluetooth Base UUID, `00000000-0000-1000-8000-00805F9B34FB`:
//!
//! * a 16-bit alias zero-extends to its 32-bit equivalent
//!   (`0xABCD` becomes `0x0000ABCD`);
//! * a 32-bit alias replaces the first 4 bytes of the Base UUID
//!   (`0x1234ABCD` becomes `1234ABCD-0000-1000-8000-00805F9B34FB`).
//!
//! This crate provides the three representations, the widening conversions,
//! and a big-endian byte codec for all three, together with proofs that the
//! conversions and the codec behave as stated.

pub mod codec;
pub mod uuid;
