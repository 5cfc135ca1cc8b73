//! Report rates, mode timeouts and maintenance timers.

use crate::rw::Record;
use crate::wire::{bits, field, le16, le16_bytes, u16_from_le, u16_to_le};
use vstd::prelude::*;

verus! {

/// Report rates, mode timeouts and maintenance timers.
#[derive(Debug, Clone, Copy, PartialEq, Eq, Structural)]
pub struct Timing {
    pub report_rate: ReportRate,
    pub timeouts: Timeouts,
    /// Seconds before a failed auto-tune is tried again. Six bits.
    pub retune_retry_delay: u8,
    /// Seconds between samples of the reference. Six bits.
    pub long_term_average_reference_sampling_interval: u8,
    /// Milliseconds within which a communication window must be served.
    pub i2c_timeout: u16,
}

impl Timing {
    /// The reference timing.
    pub fn new() -> (v: Self)
        ensures
            v == Timing::default_value(),
    {
        Self {
            report_rate: ReportRate::new(10, 50, 20, 80, 160),
            timeouts: Timeouts::new(10, 60, 10, 10),
            retune_retry_delay: 5,
            long_term_average_reference_sampling_interval: 8,
            i2c_timeout: 100,
        }
    }

    /// Every field fits the bits that the registers give it.
    pub open spec fn valid(self) -> bool {
        self.retune_retry_delay < 64
        && self.long_term_average_reference_sampling_interval < 64
    }

    /// The retry delay byte: retune retry delay in bits 0 to 5.
    #[verifier::opaque]
    pub open spec fn retry_word(self) -> int {
        field(self.retune_retry_delay as int, 0, 6)
    }

    /// Each field of the retry word is read back from the place it was put.
    pub proof fn lemma_retry_word_fields(self)
        ensures
            0 <= self.retry_word() < 256,
            bits(self.retry_word(), 0, 6) == self.retune_retry_delay % 64,
    {
        reveal(bits);
        reveal(Timing::retry_word);
    }

    /// The retry delay byte, as a number.
    pub fn to_retry_word(&self) -> (w: u8)
        ensures
            w == self.retry_word(),
    {
        proof {
            reveal(Timing::retry_word);
        }
        self.retune_retry_delay % 64
    }

    /// The sampling interval byte: long term average reference sampling
    /// interval in bits 0 to 5.
    #[verifier::opaque]
    pub open spec fn sampling_word(self) -> int {
        field(self.long_term_average_reference_sampling_interval as int, 0, 6)
    }

    /// Each field of the sampling word is read back from the place it was put.
    pub proof fn lemma_sampling_word_fields(self)
        ensures
            0 <= self.sampling_word() < 256,
            bits(self.sampling_word(), 0, 6) == self.long_term_average_reference_sampling_interval % 64,
    {
        reveal(bits);
        reveal(Timing::sampling_word);
    }

    /// The sampling interval byte, as a number.
    pub fn to_sampling_word(&self) -> (w: u8)
        ensures
            w == self.sampling_word(),
    {
        proof {
            reveal(Timing::sampling_word);
        }
        self.long_term_average_reference_sampling_interval % 64
    }

    /// The register bytes: report rate, timeouts, the retry word, the sampling
    /// word, i2c timeout, each number least significant byte first.
    pub open spec fn encoding(self) -> Seq<u8> {
        self.report_rate.encoding()
            + self.timeouts.encoding()
            + seq![self.retry_word() as u8, self.sampling_word() as u8]
            + le16_bytes(self.i2c_timeout)
    }

    /// The value that twenty-two register bytes stand for.
    pub open spec fn decoding(b: Seq<u8>) -> Self {
        let retry = b[18] as int;
        let sampling = b[19] as int;
        Timing {
            report_rate: ReportRate::decoding(b.subrange(0, 10)),
            timeouts: Timeouts::decoding(b.subrange(10, 18)),
            retune_retry_delay: bits(retry, 0, 6) as u8,
            long_term_average_reference_sampling_interval: bits(sampling, 0, 6) as u8,
            i2c_timeout: le16(b[20], b[21]),
        }
    }

    /// The register bytes of the value.
    pub fn to_bytes(&self) -> (b: [u8; 22])
        ensures
            b@ == self.encoding(),
    {
        let report_rate = self.report_rate.to_bytes();
        let timeouts = self.timeouts.to_bytes();
        let retry = self.to_retry_word();
        let sampling = self.to_sampling_word();
        let i2c_timeout = u16_to_le(self.i2c_timeout);
        let b = [
            report_rate[0], report_rate[1], report_rate[2], report_rate[3], report_rate[4], report_rate[5], report_rate[6], report_rate[7], report_rate[8], report_rate[9],
            timeouts[0], timeouts[1], timeouts[2], timeouts[3], timeouts[4], timeouts[5], timeouts[6], timeouts[7],
            retry, sampling, i2c_timeout[0], i2c_timeout[1],
        ];
        assert(b@ =~= self.encoding());
        b
    }

    /// The value that twenty-two register bytes stand for.
    pub fn from_bytes(b: [u8; 22]) -> (v: Self)
        ensures
            v == Self::decoding(b@),
    {
        proof {
            reveal(bits);
        }
        let report_rate_bytes = [b[0], b[1], b[2], b[3], b[4], b[5], b[6], b[7], b[8], b[9]];
        assert(report_rate_bytes@ =~= b@.subrange(0, 10));
        let timeouts_bytes = [b[10], b[11], b[12], b[13], b[14], b[15], b[16], b[17]];
        assert(timeouts_bytes@ =~= b@.subrange(10, 18));
        let retry = b[18];
        let sampling = b[19];
        Self {
            report_rate: ReportRate::from_bytes(report_rate_bytes),
            timeouts: Timeouts::from_bytes(timeouts_bytes),
            retune_retry_delay: retry % 64,
            long_term_average_reference_sampling_interval: sampling % 64,
            i2c_timeout: u16_from_le(b[20], b[21]),
        }
    }

    /// Decoding undoes encoding, for fields within their bits.
    pub proof fn lemma_roundtrip(self)
        requires
            self.valid(),
        ensures
            self.encoding().len() == 22,
            Self::decoding(self.encoding()) == self,
    {
        self.report_rate.lemma_roundtrip();
        self.timeouts.lemma_roundtrip();
        self.lemma_retry_word_fields();
        self.lemma_sampling_word_fields();
        assert(self.encoding().subrange(0, 10) =~= self.report_rate.encoding());
        assert(self.encoding().subrange(10, 18) =~= self.timeouts.encoding());
    }

    /// The reference timing.
    pub open spec fn default_value() -> Self {
        Timing {
            report_rate: ReportRate::default_value(),
            timeouts: Timeouts::default_value(),
            retune_retry_delay: 5,
            long_term_average_reference_sampling_interval: 8,
            i2c_timeout: 100,
        }
    }
}

impl Record<22> for Timing {
    open spec fn in_range(&self) -> bool {
        self.valid()
    }

    open spec fn bytes(&self) -> Seq<u8> {
        self.encoding()
    }

    open spec fn of_bytes(bytes: Seq<u8>) -> Option<Self> {
        Some(Timing::decoding(bytes))
    }

    fn pack(&self) -> (b: [u8; 22]) {
        self.to_bytes()
    }

    fn unpack(b: [u8; 22]) -> (v: Option<Self>) {
        Some(Timing::from_bytes(b))
    }

    proof fn lemma_of_bytes(&self) {
        self.lemma_roundtrip();
    }
}

impl Default for Timing {
    fn default() -> (v: Self)
        ensures
            v == Timing::default_value(),
    {
        Self::new()
    }
}

/// Cycle time of each power mode, in milliseconds.
#[derive(Debug, Clone, Copy, PartialEq, Eq, Structural)]
pub struct ReportRate {
    pub active: u16,
    pub idle_touch: u16,
    pub idle: u16,
    pub lp1: u16,
    pub lp2: u16,
}

impl ReportRate {
    /// The value with the given fields.
    pub fn new(active: u16, idle_touch: u16, idle: u16, lp1: u16, lp2: u16) -> (v: Self)
        ensures
            v == (ReportRate { active, idle_touch, idle, lp1, lp2 }),
    {
        Self { active, idle_touch, idle, lp1, lp2 }
    }

    /// The register bytes: active, idle touch, idle, lp1, lp2, each number
    /// least significant byte first.
    pub open spec fn encoding(self) -> Seq<u8> {
        le16_bytes(self.active)
            + le16_bytes(self.idle_touch)
            + le16_bytes(self.idle)
            + le16_bytes(self.lp1)
            + le16_bytes(self.lp2)
    }

    /// The value that ten register bytes stand for.
    pub open spec fn decoding(b: Seq<u8>) -> Self {
        ReportRate {
            active: le16(b[0], b[1]),
            idle_touch: le16(b[2], b[3]),
            idle: le16(b[4], b[5]),
            lp1: le16(b[6], b[7]),
            lp2: le16(b[8], b[9]),
        }
    }

    /// The register bytes of the value.
    pub fn to_bytes(&self) -> (b: [u8; 10])
        ensures
            b@ == self.encoding(),
    {
        let active = u16_to_le(self.active);
        let idle_touch = u16_to_le(self.idle_touch);
        let idle = u16_to_le(self.idle);
        let lp1 = u16_to_le(self.lp1);
        let lp2 = u16_to_le(self.lp2);
        let b = [
            active[0], active[1], idle_touch[0], idle_touch[1], idle[0], idle[1], lp1[0], lp1[1],
            lp2[0], lp2[1],
        ];
        assert(b@ =~= self.encoding());
        b
    }

    /// The value that ten register bytes stand for.
    pub fn from_bytes(b: [u8; 10]) -> (v: Self)
        ensures
            v == Self::decoding(b@),
    {
        Self {
            active: u16_from_le(b[0], b[1]),
            idle_touch: u16_from_le(b[2], b[3]),
            idle: u16_from_le(b[4], b[5]),
            lp1: u16_from_le(b[6], b[7]),
            lp2: u16_from_le(b[8], b[9]),
        }
    }

    /// Decoding undoes encoding.
    pub proof fn lemma_roundtrip(self)
        ensures
            self.encoding().len() == 10,
            Self::decoding(self.encoding()) == self,
    {
    }

    /// The reference cycle times.
    pub open spec fn default_value() -> Self {
        ReportRate { active: 10, idle_touch: 50, idle: 20, lp1: 80, lp2: 160 }
    }
}

impl Record<10> for ReportRate {
    open spec fn in_range(&self) -> bool {
        true
    }

    open spec fn bytes(&self) -> Seq<u8> {
        self.encoding()
    }

    open spec fn of_bytes(bytes: Seq<u8>) -> Option<Self> {
        Some(ReportRate::decoding(bytes))
    }

    fn pack(&self) -> (b: [u8; 10]) {
        self.to_bytes()
    }

    fn unpack(b: [u8; 10]) -> (v: Option<Self>) {
        Some(ReportRate::from_bytes(b))
    }

    proof fn lemma_of_bytes(&self) {
        self.lemma_roundtrip();
    }
}

impl Default for ReportRate {
    fn default() -> (v: Self)
        ensures
            v == ReportRate::default_value(),
    {
        Self::new(10, 50, 20, 80, 160)
    }
}

/// Time after which each power mode gives way to the next, in seconds. Zero
/// means never.
#[derive(Debug, Clone, Copy, PartialEq, Eq, Structural)]
pub struct Timeouts {
    pub active: u16,
    pub idle_touch: u16,
    pub idle: u16,
    pub lp1: u16,
}

impl Timeouts {
    /// The value with the given fields.
    pub fn new(active: u16, idle_touch: u16, idle: u16, lp1: u16) -> (v: Self)
        ensures
            v == (Timeouts { active, idle_touch, idle, lp1 }),
    {
        Self { active, idle_touch, idle, lp1 }
    }

    /// The register bytes: active, idle touch, idle, lp1, each number least
    /// significant byte first.
    pub open spec fn encoding(self) -> Seq<u8> {
        le16_bytes(self.active)
            + le16_bytes(self.idle_touch)
            + le16_bytes(self.idle)
            + le16_bytes(self.lp1)
    }

    /// The value that eight register bytes stand for.
    pub open spec fn decoding(b: Seq<u8>) -> Self {
        Timeouts {
            active: le16(b[0], b[1]),
            idle_touch: le16(b[2], b[3]),
            idle: le16(b[4], b[5]),
            lp1: le16(b[6], b[7]),
        }
    }

    /// The register bytes of the value.
    pub fn to_bytes(&self) -> (b: [u8; 8])
        ensures
            b@ == self.encoding(),
    {
        let active = u16_to_le(self.active);
        let idle_touch = u16_to_le(self.idle_touch);
        let idle = u16_to_le(self.idle);
        let lp1 = u16_to_le(self.lp1);
        let b = [
            active[0], active[1], idle_touch[0], idle_touch[1], idle[0], idle[1], lp1[0], lp1[1],
        ];
        assert(b@ =~= self.encoding());
        b
    }

    /// The value that eight register bytes stand for.
    pub fn from_bytes(b: [u8; 8]) -> (v: Self)
        ensures
            v == Self::decoding(b@),
    {
        Self {
            active: u16_from_le(b[0], b[1]),
            idle_touch: u16_from_le(b[2], b[3]),
            idle: u16_from_le(b[4], b[5]),
            lp1: u16_from_le(b[6], b[7]),
        }
    }

    /// Decoding undoes encoding.
    pub proof fn lemma_roundtrip(self)
        ensures
            self.encoding().len() == 8,
            Self::decoding(self.encoding()) == self,
    {
    }

    /// The reference timeouts.
    pub open spec fn default_value() -> Self {
        Timeouts { active: 10, idle_touch: 60, idle: 10, lp1: 10 }
    }
}

impl Record<8> for Timeouts {
    open spec fn in_range(&self) -> bool {
        true
    }

    open spec fn bytes(&self) -> Seq<u8> {
        self.encoding()
    }

    open spec fn of_bytes(bytes: Seq<u8>) -> Option<Self> {
        Some(Timeouts::decoding(bytes))
    }

    fn pack(&self) -> (b: [u8; 8]) {
        self.to_bytes()
    }

    fn unpack(b: [u8; 8]) -> (v: Option<Self>) {
        Some(Timeouts::from_bytes(b))
    }

    proof fn lemma_of_bytes(&self) {
        self.lemma_roundtrip();
    }
}

impl Default for Timeouts {
    fn default() -> (v: Self)
        ensures
            v == Timeouts::default_value(),
    {
        Self::new(10, 60, 10, 10)
    }
}

} // verus!
