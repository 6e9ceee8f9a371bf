use crc_hal::crc::{Crc, CrcExt, Digest, InputReverse, PolySize};
use crc_hal::rcc::{Rcc, RccEvent};
use crc_hal::regs::{CrcBlock, RegEvent, RESET_INIT, RESET_POLY};

fn constrain_fresh(unit_id: u64) -> Crc {
    let rb = CrcBlock::new(unit_id);
    let mut rcc = Rcc::new();
    rb.constrain(&mut rcc)
}

#[test]
fn constrain_enables_clock_then_pulses_reset() {
    let rb = CrcBlock::new(0);
    let mut rcc = Rcc::new();
    let _crc = rb.constrain(&mut rcc);
    // enable first, so the now-clocked peripheral observes the pulse;
    // the pulse is assert-then-deassert, not a held reset
    assert_eq!(
        rcc.log,
        vec![
            RccEvent::CrcClockEnable,
            RccEvent::CrcResetAssert,
            RccEvent::CrcResetDeassert,
        ]
    );
    assert!(rcc.crc_clock_on);
    assert!(!rcc.crc_reset_on);
}

#[test]
fn constrain_leaves_registers_at_reset_defaults() {
    let crc = constrain_fresh(3);
    let rb = crc.release();
    assert_eq!(rb.pol, RESET_POLY);
    assert_eq!(rb.init, RESET_INIT);
    assert_eq!(rb.acc, RESET_INIT);
    assert_eq!(rb.polysize, 0);
    assert_eq!(rb.rev_in, 0);
    assert!(!rb.rev_out);
}

#[test]
fn release_returns_original_block() {
    let crc = constrain_fresh(42);
    let rb = crc.release();
    assert_eq!(rb.unit_id, 42);
    // further driver operations on the consumed instance do not compile:
    // `release` takes the driver by value
}

#[test]
fn release_keeps_final_register_state() {
    let mut crc = constrain_fresh(7);
    crc.seed(0x0101_0101);
    let r = crc.digest(0xD00D_F00Du32);
    let rb = crc.release();
    assert_eq!(rb.unit_id, 7);
    assert_eq!(rb.init, 0x0101_0101);
    assert_eq!(rb.acc, r);
}

#[test]
fn polynomial_resets_before_writing() {
    let mut crc = constrain_fresh(0);
    crc.polynomial(PolySize::CRC16, 0x8005);
    let rb = crc.release();
    // the reset-register write comes first, every time
    assert_eq!(
        rb.log,
        vec![
            RegEvent::CtrlReset,
            RegEvent::PolyWrite(0x8005),
            RegEvent::CtrlPolySize(1),
        ]
    );
    assert_eq!(rb.pol, 0x8005);
    assert_eq!(rb.polysize, 1);
}

#[test]
fn polynomial_resets_every_time() {
    let mut crc = constrain_fresh(0);
    crc.polynomial(PolySize::CRC32, 0x04C1_1DB7);
    crc.digest(5u32);
    crc.polynomial(PolySize::CRC8, 0x07);
    let rb = crc.release();
    assert_eq!(
        rb.log,
        vec![
            RegEvent::CtrlReset,
            RegEvent::PolyWrite(0x04C1_1DB7),
            RegEvent::CtrlPolySize(0),
            RegEvent::DataWord(5),
            RegEvent::CtrlReset,
            RegEvent::PolyWrite(0x07),
            RegEvent::CtrlPolySize(2),
        ]
    );
    // the second reset reloaded the accumulator from the seed register
    assert_eq!(rb.acc, RESET_INIT);
}

#[test]
fn seed_takes_effect_on_next_reset() {
    let mut crc = constrain_fresh(0);
    crc.seed(0x1234_0000);
    // the running accumulator is untouched by a seed write
    assert_eq!(crc.digest(&[][..] as &[u8]), RESET_INIT);
    crc.reset();
    assert_eq!(crc.digest(&[][..] as &[u8]), 0x1234_0000);
    let rb = crc.release();
    assert_eq!(
        rb.log,
        vec![RegEvent::InitWrite(0x1234_0000), RegEvent::CtrlReset]
    );
}

#[test]
fn reset_reloads_from_seed_register() {
    let mut crc = constrain_fresh(0);
    crc.digest(0xDEAD_BEEFu32);
    crc.reset();
    assert_eq!(crc.digest(&[][..] as &[u16]), RESET_INIT);
}

#[test]
fn reverse_output_writes_control_bit() {
    let mut crc = constrain_fresh(0);
    crc.reverse_output(true);
    crc.reverse_output(false);
    let rb = crc.release();
    assert_eq!(
        rb.log,
        vec![RegEvent::CtrlRevOut(true), RegEvent::CtrlRevOut(false)]
    );
    assert!(!rb.rev_out);
}

#[test]
fn reverse_input_writes_mode_field() {
    let mut crc = constrain_fresh(0);
    crc.reverse_input(InputReverse::Word);
    let rb = crc.release();
    assert_eq!(rb.log, vec![RegEvent::CtrlRevIn(3)]);
    assert_eq!(rb.rev_in, 3);
}

#[test]
fn input_reverse_encodings() {
    assert_eq!(InputReverse::NoReversal.bits(), 0b00);
    assert_eq!(InputReverse::Byte.bits(), 0b01);
    assert_eq!(InputReverse::HalfWord.bits(), 0b10);
    assert_eq!(InputReverse::Word.bits(), 0b11);
}

#[test]
fn poly_size_encodings() {
    assert_eq!(PolySize::CRC32.bits(), 0b00);
    assert_eq!(PolySize::CRC16.bits(), 0b01);
    assert_eq!(PolySize::CRC8.bits(), 0b10);
    assert_eq!(PolySize::CRC7.bits(), 0b11);
}

#[test]
fn configuration_writes_no_data_register() {
    let mut crc = constrain_fresh(0);
    crc.seed(1);
    crc.reverse_input(InputReverse::Byte);
    crc.reverse_output(true);
    crc.polynomial(PolySize::CRC7, 0x09);
    crc.reset();
    let rb = crc.release();
    let data_writes = rb
        .log
        .iter()
        .filter(|e| {
            matches!(
                e,
                RegEvent::DataWord(_) | RegEvent::DataHalf(_) | RegEvent::DataByte(_)
            )
        })
        .count();
    assert_eq!(data_writes, 0);
}
