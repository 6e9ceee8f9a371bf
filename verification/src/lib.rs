//! Register-level driver for a microcontroller's cyclic-redundancy-check
//! calculation unit.
//!
//! The peripheral is modelled by a deterministic in-memory register block
//! ([`regs::CrcBlock`]) that journals every register write.  The driver
//! ([`crc::Crc`]) owns one block exclusively, and its contracts pin down
//! exactly which registers each operation writes, with which values and
//! widths, in which order, and what the digest operations return.

pub mod crc;
pub mod rcc;
pub mod regs;
