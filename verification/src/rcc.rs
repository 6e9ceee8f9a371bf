//! In-memory model of the clock controller, as far as the CRC unit needs
//! it: a clock-gate enable bit and a reset bit for the CRC peripheral,
//! with a journal of the writes made to them.

use vstd::prelude::*;

verus! {

/// One write to the clock controller's registers that concerns the CRC
/// unit.
#[derive(Clone, Copy, Debug, PartialEq, Eq, Structural)]
pub enum RccEvent {
    /// The CRC clock-gate enable bit was set.
    CrcClockEnable,
    /// The CRC reset bit was set.
    CrcResetAssert,
    /// The CRC reset bit was cleared.
    CrcResetDeassert,
}

/// Ghost state of the clock controller: the two CRC control bits and the
/// journal of writes to them.
pub ghost struct RccModel {
    pub crc_clock_on: bool,
    pub crc_reset_on: bool,
    pub log: Seq<RccEvent>,
}

/// Clock controller handle.  Holds the CRC unit's clock-gate and reset
/// bits; `log` journals every write in order, so the enable-before-reset
/// sequencing a peripheral needs is observable.
pub struct Rcc {
    pub crc_clock_on: bool,
    pub crc_reset_on: bool,
    pub log: Vec<RccEvent>,
}

impl View for Rcc {
    type V = RccModel;

    open spec fn view(&self) -> RccModel {
        RccModel {
            crc_clock_on: self.crc_clock_on,
            crc_reset_on: self.crc_reset_on,
            log: self.log@,
        }
    }
}

impl Rcc {
    /// A clock controller fresh out of power-on: the CRC clock gated off,
    /// the reset bit clear, nothing written yet.
    pub fn new() -> (rcc: Rcc)
        ensures
            rcc@ == (RccModel { crc_clock_on: false, crc_reset_on: false, log: Seq::empty() }),
    {
        Rcc { crc_clock_on: false, crc_reset_on: false, log: Vec::new() }
    }

    /// Set the CRC clock-gate enable bit.
    pub fn enable_crc_clock(&mut self)
        ensures
            final(self)@ == (RccModel {
                crc_clock_on: true,
                log: old(self)@.log.push(RccEvent::CrcClockEnable),
                ..old(self)@
            }),
    {
        self.crc_clock_on = true;
        self.log.push(RccEvent::CrcClockEnable);
    }

    /// Set the CRC reset bit.
    pub fn assert_crc_reset(&mut self)
        ensures
            final(self)@ == (RccModel {
                crc_reset_on: true,
                log: old(self)@.log.push(RccEvent::CrcResetAssert),
                ..old(self)@
            }),
    {
        self.crc_reset_on = true;
        self.log.push(RccEvent::CrcResetAssert);
    }

    /// Clear the CRC reset bit.
    pub fn deassert_crc_reset(&mut self)
        ensures
            final(self)@ == (RccModel {
                crc_reset_on: false,
                log: old(self)@.log.push(RccEvent::CrcResetDeassert),
                ..old(self)@
            }),
    {
        self.crc_reset_on = false;
        self.log.push(RccEvent::CrcResetDeassert);
    }
}

} // verus!
