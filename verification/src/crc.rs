//! Driver for the cyclic-redundancy-check calculation unit.
//!
//! The driver owns one [`CrcBlock`] exclusively.  Configuration calls write
//! the block's registers directly — the driver keeps no shadow state — and
//! the digest operations feed the data register at word, halfword or byte
//! width, strictly in input order, returning the accumulator value read
//! after the last write.

use vstd::prelude::*;
use vstd::string::StringSliceAdditionalSpecFns;

use crate::rcc::{Rcc, RccEvent, RccModel};
use crate::regs::{acc_after, acc_step, CrcBlock, CrcModel, RegEvent, RESET_INIT, RESET_POLY};
use crate::regs::lemma_acc_after_push;

verus! {

/// Input bit-reversal applied by hardware to each value fed into the
/// accumulator: none, or per byte, halfword or word.
#[derive(Clone, Copy, Debug, PartialEq, Eq, Structural)]
pub enum InputReverse {
    NoReversal,
    Byte,
    HalfWord,
    Word,
}

impl InputReverse {
    /// Encoding of the mode in the control register's two-bit
    /// input-reversal field.
    pub open spec fn spec_bits(self) -> u8 {
        match self {
            InputReverse::NoReversal => 0,
            InputReverse::Byte => 1,
            InputReverse::HalfWord => 2,
            InputReverse::Word => 3,
        }
    }

    /// Control-register encoding of the mode.
    pub fn bits(self) -> (r: u8)
        ensures
            r == self.spec_bits(),
    {
        match self {
            InputReverse::NoReversal => 0,
            InputReverse::Byte => 1,
            InputReverse::HalfWord => 2,
            InputReverse::Word => 3,
        }
    }
}

/// Width of the configured CRC polynomial: 32, 16, 8 or 7 bits.
#[derive(Clone, Copy, Debug, PartialEq, Eq, Structural)]
pub enum PolySize {
    CRC32,
    CRC16,
    CRC8,
    CRC7,
}

impl PolySize {
    /// Encoding of the width in the control register's two-bit
    /// polynomial-size field.
    pub open spec fn spec_bits(self) -> u8 {
        match self {
            PolySize::CRC32 => 0,
            PolySize::CRC16 => 1,
            PolySize::CRC8 => 2,
            PolySize::CRC7 => 3,
        }
    }

    /// Control-register encoding of the width.
    pub fn bits(self) -> (r: u8)
        ensures
            r == self.spec_bits(),
    {
        match self {
            PolySize::CRC32 => 0,
            PolySize::CRC16 => 1,
            PolySize::CRC8 => 2,
            PolySize::CRC7 => 3,
        }
    }
}

/// The CRC driver: exclusive owner of one register block.
pub struct Crc {
    rb: CrcBlock,
}

impl View for Crc {
    type V = CrcModel;

    closed spec fn view(&self) -> CrcModel {
        self.rb@
    }
}

impl Crc {
    /// Configure the polynomial: reset the accumulator first, then write
    /// the polynomial register and the width field, in that order.
    /// Resetting first is mandatory — without it, digest state computed
    /// under the old polynomial would mix into the new one.
    pub fn polynomial(&mut self, size: PolySize, poly: u32)
        ensures
            final(self)@ == (CrcModel {
                acc: old(self)@.init,
                pol: poly,
                polysize: size.spec_bits(),
                log: old(self)@.log + seq![
                    RegEvent::CtrlReset,
                    RegEvent::PolyWrite(poly),
                    RegEvent::CtrlPolySize(size.spec_bits()),
                ],
                ..old(self)@
            }),
    {
        self.reset();
        self.rb.write_pol(poly);
        self.rb.write_cr_polysize(size.bits());
        proof {
            assert(old(self)@.log.push(RegEvent::CtrlReset)
                .push(RegEvent::PolyWrite(poly))
                .push(RegEvent::CtrlPolySize(size.spec_bits())) =~= old(self)@.log + seq![
                    RegEvent::CtrlReset,
                    RegEvent::PolyWrite(poly),
                    RegEvent::CtrlPolySize(size.spec_bits()),
                ]);
        }
    }

    /// Write the seed (initial-value) register.  Takes effect on the next
    /// reset; the current accumulator content is untouched.
    pub fn seed(&mut self, value: u32)
        ensures
            final(self)@ == (CrcModel {
                init: value,
                log: old(self)@.log.push(RegEvent::InitWrite(value)),
                ..old(self)@
            }),
    {
        self.rb.write_init(value);
    }

    /// Select whether hardware bit-reverses the digest result.
    pub fn reverse_output(&mut self, rev_out: bool)
        ensures
            final(self)@ == (CrcModel {
                rev_out: rev_out,
                log: old(self)@.log.push(RegEvent::CtrlRevOut(rev_out)),
                ..old(self)@
            }),
    {
        self.rb.write_cr_rev_out(rev_out);
    }

    /// Select the input bit-reversal mode.  The chosen granularity must
    /// match the width of the data fed, or the hardware's results are
    /// undefined; that is a caller contract, not checked here.
    pub fn reverse_input(&mut self, rev_in: InputReverse)
        ensures
            final(self)@ == (CrcModel {
                rev_in: rev_in.spec_bits(),
                log: old(self)@.log.push(RegEvent::CtrlRevIn(rev_in.spec_bits())),
                ..old(self)@
            }),
    {
        self.rb.write_cr_rev_in(rev_in.bits());
    }

    /// Reload the accumulator from the seed register.  Call this whenever
    /// a fresh digest over unrelated data begins.
    pub fn reset(&mut self)
        ensures
            final(self)@ == (CrcModel {
                acc: old(self)@.init,
                log: old(self)@.log.push(RegEvent::CtrlReset),
                ..old(self)@
            }),
    {
        self.rb.write_cr_reset();
    }

    /// Relinquish the register block.  The driver is consumed; the block
    /// comes back exactly as the driver last left it.
    pub fn release(self) -> (rb: CrcBlock)
        ensures
            rb@ == self@,
    {
        self.rb
    }
}

/// The clock-enable binding: performs the enable-and-reset sequence a
/// peripheral needs before its registers respond, then wraps the raw block
/// in the typed driver.
pub trait CrcExt {
    fn constrain(self, rcc: &mut Rcc) -> Crc;
}

impl CrcExt for CrcBlock {
    /// Enable the CRC clock gate, then pulse the reset bit (assert, then
    /// de-assert) — enable first, so the now-clocked peripheral observes
    /// the pulse.  The pulse returns every CRC register to its reset
    /// value; the block's identity survives.
    fn constrain(self, rcc: &mut Rcc) -> (crc: Crc)
        ensures
            final(rcc)@ == (RccModel {
                crc_clock_on: true,
                crc_reset_on: false,
                log: old(rcc)@.log + seq![
                    RccEvent::CrcClockEnable,
                    RccEvent::CrcResetAssert,
                    RccEvent::CrcResetDeassert,
                ],
            }),
            crc@ == (CrcModel {
                pol: RESET_POLY,
                init: RESET_INIT,
                acc: RESET_INIT,
                polysize: 0,
                rev_in: 0,
                rev_out: false,
                ..self@
            }),
    {
        rcc.enable_crc_clock();
        rcc.assert_crc_reset();
        rcc.deassert_crc_reset();
        proof {
            assert(old(rcc)@.log.push(RccEvent::CrcClockEnable)
                .push(RccEvent::CrcResetAssert)
                .push(RccEvent::CrcResetDeassert) =~= old(rcc)@.log + seq![
                    RccEvent::CrcClockEnable,
                    RccEvent::CrcResetAssert,
                    RccEvent::CrcResetDeassert,
                ]);
        }
        let mut rb = self;
        rb.apply_reset_pulse();
        Crc { rb }
    }
}

/// Big-endian word assembled from four bytes.
pub open spec fn be_word(b0: u8, b1: u8, b2: u8, b3: u8) -> u32 {
    ((b0 as u32) << 24) | ((b1 as u32) << 16) | ((b2 as u32) << 8) | (b3 as u32)
}

/// Big-endian halfword assembled from two bytes.
pub open spec fn be_half(b0: u8, b1: u8) -> u16 {
    ((b0 as u16) << 8) | (b1 as u16)
}

/// Data-register writes a word-sequence feed performs: one word write per
/// element, in input order.
pub open spec fn word_events(s: Seq<u32>) -> Seq<RegEvent> {
    Seq::new(s.len(), |i: int| RegEvent::DataWord(s[i]))
}

/// Data-register writes a halfword-sequence feed performs: one halfword
/// write per element, in input order.
pub open spec fn half_events(s: Seq<u16>) -> Seq<RegEvent> {
    Seq::new(s.len(), |i: int| RegEvent::DataHalf(s[i]))
}

/// Word writes of the byte feed: one per complete four-byte group, in
/// original order, each group read big-endian.
pub open spec fn byte_word_events(s: Seq<u8>) -> Seq<RegEvent> {
    Seq::new(
        s.len() / 4,
        |k: int| RegEvent::DataWord(be_word(s[4 * k], s[4 * k + 1], s[4 * k + 2], s[4 * k + 3])),
    )
}

/// Trailing writes of the byte feed, covering the bytes left over after
/// the four-byte groups: one big-endian halfword write if at least two
/// bytes remain, then one byte write if one more remains.
pub open spec fn byte_tail_events(s: Seq<u8>) -> Seq<RegEvent> {
    let base = s.len() - (s.len() % 4);
    if s.len() % 4 == 3 {
        seq![
            RegEvent::DataHalf(be_half(s[base], s[base + 1])),
            RegEvent::DataByte(s[base + 2]),
        ]
    } else if s.len() % 4 == 2 {
        seq![RegEvent::DataHalf(be_half(s[base], s[base + 1]))]
    } else if s.len() % 4 == 1 {
        seq![RegEvent::DataByte(s[base])]
    } else {
        Seq::empty()
    }
}

/// All data-register writes the byte feed performs: the greedy partition
/// of the input into four-byte word groups, then at most one halfword,
/// then at most one final byte.
pub open spec fn byte_events(s: Seq<u8>) -> Seq<RegEvent> {
    byte_word_events(s) + byte_tail_events(s)
}

/// One logical digest operation, specialised per input shape: feed the
/// data into the accumulator strictly in input order and return the
/// accumulator value read after the last write.
pub trait Digest<W> {
    fn digest(&mut self, data: W) -> u32;
}

impl Digest<u32> for Crc {
    /// Feed a single word: one word write to the data register, then a
    /// read of the result.
    fn digest(&mut self, data: u32) -> (r: u32)
        ensures
            final(self)@ == (CrcModel {
                acc: acc_step(old(self)@.acc, RegEvent::DataWord(data)),
                log: old(self)@.log.push(RegEvent::DataWord(data)),
                ..old(self)@
            }),
            r == final(self)@.acc,
    {
        self.rb.write_dr_word(data);
        self.rb.read_dr()
    }
}

impl Digest<&[u32]> for Crc {
    /// Feed each word in sequence order via the single-word path; only
    /// the final read-back is returned, never an intermediate one.
    fn digest(&mut self, data: &[u32]) -> (r: u32)
        ensures
            final(self)@ == (CrcModel {
                acc: acc_after(old(self)@.acc, word_events(data@)),
                log: old(self)@.log + word_events(data@),
                ..old(self)@
            }),
            r == final(self)@.acc,
    {
        let ghost pre: CrcModel = self@;
        proof {
            assert(word_events(data@.take(0)) =~= Seq::<RegEvent>::empty());
            assert(pre.log + word_events(data@.take(0)) =~= pre.log);
        }
        let mut i: usize = 0;
        while i < data.len()
            invariant
                i <= data@.len(),
                self@ == (CrcModel {
                    acc: acc_after(pre.acc, word_events(data@.take(i as int))),
                    log: pre.log + word_events(data@.take(i as int)),
                    ..pre
                }),
            decreases data@.len() - i,
        {
            let v = data[i];
            self.digest(v);
            proof {
                let ii = i as int;
                let done = word_events(data@.take(ii));
                let e = RegEvent::DataWord(data@[ii]);
                assert(word_events(data@.take(ii + 1)) =~= done.push(e));
                lemma_acc_after_push(pre.acc, done, e);
                assert((pre.log + done).push(e) =~= pre.log + word_events(data@.take(ii + 1)));
            }
            i = i + 1;
        }
        proof {
            assert(data@.take(data@.len() as int) =~= data@);
        }
        self.rb.read_dr()
    }
}

impl Digest<&[u16]> for Crc {
    /// Feed each halfword in sequence order at the data register's 16-bit
    /// port, so hardware runs a halfword-width cycle per element; the
    /// result is read once, after the full sequence.
    fn digest(&mut self, data: &[u16]) -> (r: u32)
        ensures
            final(self)@ == (CrcModel {
                acc: acc_after(old(self)@.acc, half_events(data@)),
                log: old(self)@.log + half_events(data@),
                ..old(self)@
            }),
            r == final(self)@.acc,
    {
        let ghost pre: CrcModel = self@;
        proof {
            assert(half_events(data@.take(0)) =~= Seq::<RegEvent>::empty());
            assert(pre.log + half_events(data@.take(0)) =~= pre.log);
        }
        let mut i: usize = 0;
        while i < data.len()
            invariant
                i <= data@.len(),
                self@ == (CrcModel {
                    acc: acc_after(pre.acc, half_events(data@.take(i as int))),
                    log: pre.log + half_events(data@.take(i as int)),
                    ..pre
                }),
            decreases data@.len() - i,
        {
            let h = data[i];
            self.rb.write_dr_half(h);
            proof {
                let ii = i as int;
                let done = half_events(data@.take(ii));
                let e = RegEvent::DataHalf(data@[ii]);
                assert(half_events(data@.take(ii + 1)) =~= done.push(e));
                lemma_acc_after_push(pre.acc, done, e);
                assert((pre.log + done).push(e) =~= pre.log + half_events(data@.take(ii + 1)));
            }
            i = i + 1;
        }
        proof {
            assert(data@.take(data@.len() as int) =~= data@);
        }
        self.rb.read_dr()
    }
}

impl Digest<&[u8]> for Crc {
    /// Feed a byte sequence through the greedy width partition: complete
    /// four-byte groups are decoded big-endian and fed as words (one
    /// register cycle per four bytes instead of per byte), a remaining
    /// pair is fed as one big-endian halfword, and a final single byte is
    /// fed on its own.  The result is read once, at the very end.
    fn digest(&mut self, data: &[u8]) -> (r: u32)
        ensures
            final(self)@ == (CrcModel {
                acc: acc_after(old(self)@.acc, byte_events(data@)),
                log: old(self)@.log + byte_events(data@),
                ..old(self)@
            }),
            r == final(self)@.acc,
    {
        let ghost pre: CrcModel = self@;
        let len: usize = data.len();
        let words: usize = len / 4;
        proof {
            vstd::arithmetic::div_mod::lemma_fundamental_div_mod(len as int, 4);
            assert(byte_word_events(data@).take(0) =~= Seq::<RegEvent>::empty());
            assert(pre.log + byte_word_events(data@).take(0) =~= pre.log);
        }
        let mut k: usize = 0;
        while k < words
            invariant
                k <= words,
                words == data@.len() / 4,
                len == data@.len(),
                4 * words <= len,
                self@ == (CrcModel {
                    acc: acc_after(pre.acc, byte_word_events(data@).take(k as int)),
                    log: pre.log + byte_word_events(data@).take(k as int),
                    ..pre
                }),
            decreases words - k,
        {
            let off: usize = 4 * k;
            let b0 = data[off];
            let b1 = data[off + 1];
            let b2 = data[off + 2];
            let b3 = data[off + 3];
            let w: u32 = ((b0 as u32) << 24) | ((b1 as u32) << 16) | ((b2 as u32) << 8)
                | (b3 as u32);
            self.digest(w);
            proof {
                let kk = k as int;
                let done = byte_word_events(data@).take(kk);
                let e = RegEvent::DataWord(be_word(
                    data@[4 * kk],
                    data@[4 * kk + 1],
                    data@[4 * kk + 2],
                    data@[4 * kk + 3],
                ));
                assert(byte_word_events(data@).take(kk + 1) =~= done.push(e));
                lemma_acc_after_push(pre.acc, done, e);
                assert((pre.log + done).push(e) =~= pre.log
                    + byte_word_events(data@).take(kk + 1));
            }
            k = k + 1;
        }
        let ghost fed = byte_word_events(data@);
        proof {
            assert(fed.take(words as int) =~= fed);
        }
        let base: usize = 4 * words;
        let rem: usize = len - base;
        proof {
            vstd::arithmetic::div_mod::lemma_fundamental_div_mod(len as int, 4);
            assert(rem == data@.len() % 4);
        }
        if rem >= 2 {
            let h: u16 = ((data[base] as u16) << 8) | (data[base + 1] as u16);
            self.rb.write_dr_half(h);
            proof {
                let e = RegEvent::DataHalf(be_half(data@[base as int], data@[base as int + 1]));
                lemma_acc_after_push(pre.acc, fed, e);
                assert(self@.log == (pre.log + fed).push(e));
            }
        }
        if rem == 1 || rem == 3 {
            let b = data[len - 1];
            self.rb.write_dr_byte(b);
        }
        proof {
            let s = data@;
            let tail = byte_tail_events(s);
            if rem == 0 {
                assert(fed + tail =~= fed);
            } else if rem == 1 {
                let e = RegEvent::DataByte(s[len - 1]);
                assert(tail =~= seq![e]);
                lemma_acc_after_push(pre.acc, fed, e);
                assert((pre.log + fed).push(e) =~= pre.log + (fed + tail));
                assert(fed.push(e) =~= fed + tail);
            } else if rem == 2 {
                let e = RegEvent::DataHalf(be_half(s[base as int], s[base as int + 1]));
                assert(tail =~= seq![e]);
                assert((pre.log + fed).push(e) =~= pre.log + (fed + tail));
                assert(fed.push(e) =~= fed + tail);
            } else {
                let e1 = RegEvent::DataHalf(be_half(s[base as int], s[base as int + 1]));
                let e2 = RegEvent::DataByte(s[len - 1]);
                assert(tail =~= seq![e1, e2]);
                lemma_acc_after_push(pre.acc, fed.push(e1), e2);
                assert((pre.log + fed).push(e1).push(e2) =~= pre.log + (fed + tail));
                assert(fed.push(e1).push(e2) =~= fed + tail);
            }
        }
        self.rb.read_dr()
    }
}

impl Digest<&str> for Crc {
    /// Feed text as its raw UTF-8 byte encoding, through the byte path.
    fn digest(&mut self, data: &str) -> (r: u32)
        ensures
            final(self)@ == (CrcModel {
                acc: acc_after(old(self)@.acc, byte_events(data.spec_bytes())),
                log: old(self)@.log + byte_events(data.spec_bytes()),
                ..old(self)@
            }),
            r == final(self)@.acc,
    {
        self.digest(data.as_bytes())
    }
}

/// Law: a word-sequence feed writes exactly one value to the data
/// register per element, in original order.  (That the returned digest is
/// the accumulator after the last of these writes — never an intermediate
/// one — is stated by the feed's own contract.)
pub proof fn lemma_word_feed_order(s: Seq<u32>)
    ensures
        word_events(s).len() == s.len(),
        forall|i: int| 0 <= i < s.len() ==> #[trigger] word_events(s)[i] == RegEvent::DataWord(s[i]),
{
}

/// Law: a halfword-sequence feed writes exactly one halfword to the data
/// register per element, in original order.
pub proof fn lemma_half_feed_order(s: Seq<u16>)
    ensures
        half_events(s).len() == s.len(),
        forall|i: int| 0 <= i < s.len() ==> #[trigger] half_events(s)[i] == RegEvent::DataHalf(s[i]),
{
}

/// Law: the byte feed's writes are the greedy partition of the input.
/// The first `len / 4` writes are word writes, one per complete four-byte
/// group in original order, each group read big-endian; what follows
/// depends only on `len % 4`: nothing, a single byte, a big-endian
/// halfword, or a halfword followed by the last byte.
pub proof fn lemma_byte_feed_partition(s: Seq<u8>)
    ensures
        byte_events(s).len() == s.len() / 4 + byte_tail_events(s).len(),
        forall|k: int|
            0 <= k < s.len() / 4 ==> #[trigger] byte_events(s)[k] == RegEvent::DataWord(
                be_word(s[4 * k], s[4 * k + 1], s[4 * k + 2], s[4 * k + 3]),
            ),
        s.len() % 4 == 0 ==> byte_tail_events(s) == Seq::<RegEvent>::empty(),
        s.len() % 4 == 1 ==> byte_tail_events(s) == seq![
            RegEvent::DataByte(s[s.len() - 1]),
        ],
        s.len() % 4 == 2 ==> byte_tail_events(s) == seq![
            RegEvent::DataHalf(be_half(s[s.len() - 2], s[s.len() - 1])),
        ],
        s.len() % 4 == 3 ==> byte_tail_events(s) == seq![
            RegEvent::DataHalf(be_half(s[s.len() - 3], s[s.len() - 2])),
            RegEvent::DataByte(s[s.len() - 1]),
        ],
        forall|j: int|
            s.len() / 4 <= j < byte_events(s).len() ==> #[trigger] byte_events(s)[j]
                == byte_tail_events(s)[j - s.len() / 4],
{
    vstd::arithmetic::div_mod::lemma_fundamental_div_mod(s.len() as int, 4);
}

/// Law: big-endian assembly is lossless — every byte of a word or
/// halfword group can be read back from its lane.  Together with the
/// partition law this says the byte feed consumes each input byte exactly
/// once, in original order.
pub proof fn lemma_be_group_lossless(b0: u8, b1: u8, b2: u8, b3: u8)
    ensures
        (be_word(b0, b1, b2, b3) >> 24) as u8 == b0,
        ((be_word(b0, b1, b2, b3) >> 16) & 0xff) as u8 == b1,
        ((be_word(b0, b1, b2, b3) >> 8) & 0xff) as u8 == b2,
        (be_word(b0, b1, b2, b3) & 0xff) as u8 == b3,
        (be_half(b0, b1) >> 8) as u8 == b0,
        (be_half(b0, b1) & 0xff) as u8 == b1,
{
    assert(((((b0 as u32) << 24) | ((b1 as u32) << 16) | ((b2 as u32) << 8) | (b3 as u32))
        >> 24) as u8 == b0) by (bit_vector);
    assert((((((b0 as u32) << 24) | ((b1 as u32) << 16) | ((b2 as u32) << 8) | (b3 as u32))
        >> 16) & 0xff) as u8 == b1) by (bit_vector);
    assert((((((b0 as u32) << 24) | ((b1 as u32) << 16) | ((b2 as u32) << 8) | (b3 as u32))
        >> 8) & 0xff) as u8 == b2) by (bit_vector);
    assert(((((b0 as u32) << 24) | ((b1 as u32) << 16) | ((b2 as u32) << 8) | (b3 as u32))
        & 0xff) as u8 == b3) by (bit_vector);
    assert(((((b0 as u16) << 8) | (b1 as u16)) >> 8) as u8 == b0) by (bit_vector);
    assert(((((b0 as u16) << 8) | (b1 as u16)) & 0xff) as u8 == b1) by (bit_vector);
}

/// Law: an empty feed performs no data-register writes at any width, and
/// a feed of no writes leaves the accumulator exactly where it was.
pub proof fn lemma_empty_feed(acc: u32)
    ensures
        word_events(Seq::<u32>::empty()) == Seq::<RegEvent>::empty(),
        half_events(Seq::<u16>::empty()) == Seq::<RegEvent>::empty(),
        byte_events(Seq::<u8>::empty()) == Seq::<RegEvent>::empty(),
        acc_after(acc, Seq::<RegEvent>::empty()) == acc,
{
    assert(word_events(Seq::<u32>::empty()) =~= Seq::<RegEvent>::empty());
    assert(half_events(Seq::<u16>::empty()) =~= Seq::<RegEvent>::empty());
    assert(byte_events(Seq::<u8>::empty()) =~= Seq::<RegEvent>::empty());
}

} // verus!
