//! Deterministic in-memory model of the CRC peripheral's register block.
//!
//! The real peripheral is a block of memory-mapped registers: a control
//! register (reset bit, polynomial-size field, input/output bit-reversal
//! fields), a polynomial register, an initial-value register, and a 32-bit
//! data register that doubles as the accumulator.  The data register accepts
//! word, halfword and byte writes, and each width triggers a different
//! accumulation cycle in hardware.
//!
//! This model keeps the register values as plain fields and records every
//! register write, in order, in a journal.  The journal is what the driver
//! contracts are stated over: which registers a driver touches, with which
//! values and widths, and in which order, is exactly the behaviour a
//! register-level driver must get right.
//!
//! The accumulator transition ([`acc_step`]) is a deterministic stand-in for
//! the chip's hardware accumulation: it is sensitive to the current value,
//! the written value, the access width, and the order of writes, but it is
//! not the chip's CRC arithmetic, which lives in silicon and is not modelled
//! here.

use vstd::prelude::*;

verus! {

/// Polynomial register value after a peripheral reset pulse.
pub const RESET_POLY: u32 = 0x04C1_1DB7;

/// Initial-value register (and accumulator) value after a peripheral reset pulse.
pub const RESET_INIT: u32 = 0xFFFF_FFFF;

/// One register write, as the peripheral sees it.
///
/// Reads are not journalled: they have no effect on the peripheral, and the
/// driver's contracts only promise which writes happen and what a read
/// returns afterwards.
#[derive(Clone, Copy, Debug, PartialEq, Eq, Structural)]
pub enum RegEvent {
    /// The control register's reset bit was set: the accumulator reloads
    /// from the initial-value register.
    CtrlReset,
    /// The control register's polynomial-size field was written.
    CtrlPolySize(u8),
    /// The control register's output-reversal bit was written.
    CtrlRevOut(bool),
    /// The control register's input-reversal field was written.
    CtrlRevIn(u8),
    /// The polynomial register was written.
    PolyWrite(u32),
    /// The initial-value register was written.
    InitWrite(u32),
    /// A full-word write to the data register.
    DataWord(u32),
    /// A halfword write at the data register's 16-bit port.
    DataHalf(u16),
    /// A byte write at the data register's 8-bit port.
    DataByte(u8),
}

/// Ghost state of one register block: the register values, the block's
/// identity, and the journal of all writes made so far.
pub ghost struct CrcModel {
    pub pol: u32,
    pub init: u32,
    pub acc: u32,
    pub polysize: u8,
    pub rev_in: u8,
    pub rev_out: bool,
    pub unit_id: u64,
    pub log: Seq<RegEvent>,
}

/// One accumulation cycle of the modelled hardware: rotate the accumulator
/// left by five bits, then fold in the written value and the access width.
/// Deterministic, and sensitive to order, value and width; not the chip's
/// CRC arithmetic.
pub open spec fn mix(acc: u32, value: u32, width: u32) -> u32 {
    ((acc << 5) | (acc >> 27)) ^ value ^ width
}

/// Effect of one journalled write on the accumulator.  Only data-register
/// writes accumulate; this function is applied to data-write sequences only,
/// so control and configuration writes are left alone here (their effects on
/// the other registers are stated directly in the block's contracts).
pub open spec fn acc_step(acc: u32, e: RegEvent) -> u32 {
    match e {
        RegEvent::DataWord(v) => mix(acc, v, 32),
        RegEvent::DataHalf(h) => mix(acc, h as u32, 16),
        RegEvent::DataByte(b) => mix(acc, b as u32, 8),
        _ => acc,
    }
}

/// Accumulator value after a sequence of data-register writes, fed in order.
pub open spec fn acc_after(acc: u32, es: Seq<RegEvent>) -> u32
    decreases es.len(),
{
    if es.len() == 0 {
        acc
    } else {
        acc_step(acc_after(acc, es.drop_last()), es.last())
    }
}

/// Appending one write to a feed steps the accumulator once.
pub proof fn lemma_acc_after_push(acc: u32, es: Seq<RegEvent>, e: RegEvent)
    ensures
        acc_after(acc, es.push(e)) == acc_step(acc_after(acc, es), e),
{
    assert(es.push(e).drop_last() =~= es);
    assert(es.push(e).last() == e);
}

/// In-memory register block of one CRC unit.
///
/// Stands for exclusive ownership of the peripheral's memory-mapped
/// registers: a driver takes the block by value, and handing it back is the
/// only way to reach the registers again.  `unit_id` identifies the hardware
/// unit the block stands for and never changes; `log` is the journal of
/// every write made through the block.
pub struct CrcBlock {
    pub pol: u32,
    pub init: u32,
    pub acc: u32,
    pub polysize: u8,
    pub rev_in: u8,
    pub rev_out: bool,
    pub unit_id: u64,
    pub log: Vec<RegEvent>,
}

impl View for CrcBlock {
    type V = CrcModel;

    open spec fn view(&self) -> CrcModel {
        CrcModel {
            pol: self.pol,
            init: self.init,
            acc: self.acc,
            polysize: self.polysize,
            rev_in: self.rev_in,
            rev_out: self.rev_out,
            unit_id: self.unit_id,
            log: self.log@,
        }
    }
}

impl CrcBlock {
    /// A block fresh out of power-on, as a peripheral reset pulse leaves it,
    /// with an empty journal.
    pub fn new(unit_id: u64) -> (rb: CrcBlock)
        ensures
            rb@ == (CrcModel {
                pol: RESET_POLY,
                init: RESET_INIT,
                acc: RESET_INIT,
                polysize: 0,
                rev_in: 0,
                rev_out: false,
                unit_id: unit_id,
                log: Seq::empty(),
            }),
    {
        CrcBlock {
            pol: RESET_POLY,
            init: RESET_INIT,
            acc: RESET_INIT,
            polysize: 0,
            rev_in: 0,
            rev_out: false,
            unit_id,
            log: Vec::new(),
        }
    }

    /// Effect of a peripheral reset pulse from the clock controller: every
    /// register returns to its reset value.  The identity and the journal
    /// are the model's own bookkeeping and survive.
    pub fn apply_reset_pulse(&mut self)
        ensures
            final(self)@ == (CrcModel {
                pol: RESET_POLY,
                init: RESET_INIT,
                acc: RESET_INIT,
                polysize: 0,
                rev_in: 0,
                rev_out: false,
                ..old(self)@
            }),
    {
        self.pol = RESET_POLY;
        self.init = RESET_INIT;
        self.acc = RESET_INIT;
        self.polysize = 0;
        self.rev_in = 0;
        self.rev_out = false;
    }

    /// Write the polynomial register.
    pub fn write_pol(&mut self, value: u32)
        ensures
            final(self)@ == (CrcModel {
                pol: value,
                log: old(self)@.log.push(RegEvent::PolyWrite(value)),
                ..old(self)@
            }),
    {
        self.pol = value;
        self.log.push(RegEvent::PolyWrite(value));
    }

    /// Write the initial-value register.  The accumulator is untouched: the
    /// new seed takes effect on the next reset.
    pub fn write_init(&mut self, value: u32)
        ensures
            final(self)@ == (CrcModel {
                init: value,
                log: old(self)@.log.push(RegEvent::InitWrite(value)),
                ..old(self)@
            }),
    {
        self.init = value;
        self.log.push(RegEvent::InitWrite(value));
    }

    /// Set the control register's reset bit: the accumulator reloads from
    /// the initial-value register.
    pub fn write_cr_reset(&mut self)
        ensures
            final(self)@ == (CrcModel {
                acc: old(self)@.init,
                log: old(self)@.log.push(RegEvent::CtrlReset),
                ..old(self)@
            }),
    {
        self.acc = self.init;
        self.log.push(RegEvent::CtrlReset);
    }

    /// Write the control register's polynomial-size field (two bits).
    pub fn write_cr_polysize(&mut self, bits: u8)
        requires
            bits < 4,
        ensures
            final(self)@ == (CrcModel {
                polysize: bits,
                log: old(self)@.log.push(RegEvent::CtrlPolySize(bits)),
                ..old(self)@
            }),
    {
        self.polysize = bits;
        self.log.push(RegEvent::CtrlPolySize(bits));
    }

    /// Write the control register's input-reversal field (two bits).
    pub fn write_cr_rev_in(&mut self, bits: u8)
        requires
            bits < 4,
        ensures
            final(self)@ == (CrcModel {
                rev_in: bits,
                log: old(self)@.log.push(RegEvent::CtrlRevIn(bits)),
                ..old(self)@
            }),
    {
        self.rev_in = bits;
        self.log.push(RegEvent::CtrlRevIn(bits));
    }

    /// Write the control register's output-reversal bit.
    pub fn write_cr_rev_out(&mut self, on: bool)
        ensures
            final(self)@ == (CrcModel {
                rev_out: on,
                log: old(self)@.log.push(RegEvent::CtrlRevOut(on)),
                ..old(self)@
            }),
    {
        self.rev_out = on;
        self.log.push(RegEvent::CtrlRevOut(on));
    }

    /// Full-word write to the data register: one word-width accumulation
    /// cycle.
    pub fn write_dr_word(&mut self, value: u32)
        ensures
            final(self)@ == (CrcModel {
                acc: acc_step(old(self)@.acc, RegEvent::DataWord(value)),
                log: old(self)@.log.push(RegEvent::DataWord(value)),
                ..old(self)@
            }),
    {
        self.acc = ((self.acc << 5) | (self.acc >> 27)) ^ value ^ 32;
        self.log.push(RegEvent::DataWord(value));
    }

    /// Halfword write at the data register's 16-bit port: one
    /// halfword-width accumulation cycle.
    pub fn write_dr_half(&mut self, value: u16)
        ensures
            final(self)@ == (CrcModel {
                acc: acc_step(old(self)@.acc, RegEvent::DataHalf(value)),
                log: old(self)@.log.push(RegEvent::DataHalf(value)),
                ..old(self)@
            }),
    {
        self.acc = ((self.acc << 5) | (self.acc >> 27)) ^ (value as u32) ^ 16;
        self.log.push(RegEvent::DataHalf(value));
    }

    /// Byte write at the data register's 8-bit port: one byte-width
    /// accumulation cycle.
    pub fn write_dr_byte(&mut self, value: u8)
        ensures
            final(self)@ == (CrcModel {
                acc: acc_step(old(self)@.acc, RegEvent::DataByte(value)),
                log: old(self)@.log.push(RegEvent::DataByte(value)),
                ..old(self)@
            }),
    {
        self.acc = ((self.acc << 5) | (self.acc >> 27)) ^ (value as u32) ^ 8;
        self.log.push(RegEvent::DataByte(value));
    }

    /// Read the data register: the current accumulator value.  Reads have
    /// no effect and are not journalled.
    pub fn read_dr(&self) -> (r: u32)
        ensures
            r == self@.acc,
    {
        self.acc
    }
}

} // verus!
