//! Auto-tuning settings: compensation, multipliers and dividers, targets.

use crate::rw::Record;
use crate::wire::{bits, field, le16, le16_bytes, u16_from_le, u16_to_le};
use vstd::prelude::*;

verus! {

/// Auto-tuning settings of the trackpad and of the low-power channel.
#[derive(Debug, Clone, Copy, PartialEq, Eq, Structural)]
pub struct AutoTune {
    pub alp_compensation: AlpCompensation,
    pub tune: Tune,
    pub retune_threshold: u16,
    pub alp_tune: Tune,
}

impl AutoTune {
    /// The value with the given fields.
    pub fn new(
        alp_compensation: AlpCompensation,
        tune: Tune,
        retune_threshold: u16,
        alp_tune: Tune,
    ) -> (v: Self)
        ensures
            v == (AutoTune { alp_compensation, tune, retune_threshold, alp_tune }),
    {
        Self { alp_compensation, tune, retune_threshold, alp_tune }
    }

    /// The same settings with the given tuning.
    pub fn with_tuning(self, tune: Tune, retune_threshold: u16) -> (v: Self)
        ensures
            v == (AutoTune { tune, retune_threshold, ..self }),
    {
        AutoTune { tune, retune_threshold, ..self }
    }

    /// The same settings with the given low-power tuning.
    pub fn with_alp_tuning(self, tune: Tune, compensation: AlpCompensation) -> (v: Self)
        ensures
            v == (AutoTune { alp_tune: tune, alp_compensation: compensation, ..self }),
    {
        AutoTune { alp_tune: tune, alp_compensation: compensation, ..self }
    }

    /// Every field fits the bits that the registers give it.
    pub open spec fn valid(self) -> bool {
        self.tune.valid()
        && self.alp_tune.valid()
    }

    /// The register bytes: alp compensation, tune, retune threshold, alp tune,
    /// each number least significant byte first.
    pub open spec fn encoding(self) -> Seq<u8> {
        self.alp_compensation.encoding()
            + self.tune.encoding()
            + le16_bytes(self.retune_threshold)
            + self.alp_tune.encoding()
    }

    /// The value that eighteen register bytes stand for.
    pub open spec fn decoding(b: Seq<u8>) -> Self {
        AutoTune {
            alp_compensation: AlpCompensation::decoding(b.subrange(0, 4)),
            tune: Tune::decoding(b.subrange(4, 10)),
            retune_threshold: le16(b[10], b[11]),
            alp_tune: Tune::decoding(b.subrange(12, 18)),
        }
    }

    /// The register bytes of the value.
    pub fn to_bytes(&self) -> (b: [u8; 18])
        ensures
            b@ == self.encoding(),
    {
        let alp_compensation = self.alp_compensation.to_bytes();
        let tune = self.tune.to_bytes();
        let retune_threshold = u16_to_le(self.retune_threshold);
        let alp_tune = self.alp_tune.to_bytes();
        let b = [
            alp_compensation[0], alp_compensation[1], alp_compensation[2], alp_compensation[3],
            tune[0], tune[1], tune[2], tune[3], tune[4], tune[5],
            retune_threshold[0], retune_threshold[1],
            alp_tune[0], alp_tune[1], alp_tune[2], alp_tune[3], alp_tune[4], alp_tune[5],
        ];
        assert(b@ =~= self.encoding());
        b
    }

    /// The value that eighteen register bytes stand for.
    pub fn from_bytes(b: [u8; 18]) -> (v: Self)
        ensures
            v == Self::decoding(b@),
    {
        let alp_compensation_bytes = [b[0], b[1], b[2], b[3]];
        assert(alp_compensation_bytes@ =~= b@.subrange(0, 4));
        let tune_bytes = [b[4], b[5], b[6], b[7], b[8], b[9]];
        assert(tune_bytes@ =~= b@.subrange(4, 10));
        let alp_tune_bytes = [b[12], b[13], b[14], b[15], b[16], b[17]];
        assert(alp_tune_bytes@ =~= b@.subrange(12, 18));
        Self {
            alp_compensation: AlpCompensation::from_bytes(alp_compensation_bytes),
            tune: Tune::from_bytes(tune_bytes),
            retune_threshold: u16_from_le(b[10], b[11]),
            alp_tune: Tune::from_bytes(alp_tune_bytes),
        }
    }

    /// Decoding undoes encoding, for fields within their bits.
    pub proof fn lemma_roundtrip(self)
        requires
            self.valid(),
        ensures
            self.encoding().len() == 18,
            Self::decoding(self.encoding()) == self,
    {
        self.alp_compensation.lemma_roundtrip();
        self.tune.lemma_roundtrip();
        self.alp_tune.lemma_roundtrip();
        assert(self.encoding().subrange(0, 4) =~= self.alp_compensation.encoding());
        assert(self.encoding().subrange(4, 10) =~= self.tune.encoding());
        assert(self.encoding().subrange(12, 18) =~= self.alp_tune.encoding());
    }

    /// The reference auto-tuning settings.
    pub open spec fn default_value() -> Self {
        AutoTune {
            alp_compensation: AlpCompensation::default_value(),
            tune: Tune::default_value(),
            retune_threshold: 50,
            alp_tune: Tune::alp_default_value(),
        }
    }
}

impl Record<18> for AutoTune {
    open spec fn in_range(&self) -> bool {
        self.valid()
    }

    open spec fn bytes(&self) -> Seq<u8> {
        self.encoding()
    }

    open spec fn of_bytes(bytes: Seq<u8>) -> Option<Self> {
        Some(AutoTune::decoding(bytes))
    }

    fn pack(&self) -> (b: [u8; 18]) {
        self.to_bytes()
    }

    fn unpack(b: [u8; 18]) -> (v: Option<Self>) {
        Some(AutoTune::from_bytes(b))
    }

    proof fn lemma_of_bytes(&self) {
        self.lemma_roundtrip();
    }
}

impl Default for AutoTune {
    fn default() -> (v: Self)
        ensures
            v == AutoTune::default_value(),
    {
        Self::new(
            AlpCompensation::new(441, 466),
            Tune::new(1, 15, 24, 9, 50, 300),
            50,
            Tune::new(1, 15, 24, 4, 20, 200),
        )
    }
}

/// Compensation values that the low-power channel starts from, one for each
/// prox engine.
#[derive(Debug, Clone, Copy, PartialEq, Eq, Structural)]
pub struct AlpCompensation {
    pub engine_a: u16,
    pub engine_b: u16,
}

impl AlpCompensation {
    /// The value with the given fields.
    pub fn new(engine_a: u16, engine_b: u16) -> (v: Self)
        ensures
            v == (AlpCompensation { engine_a, engine_b }),
    {
        Self { engine_a, engine_b }
    }

    /// The register bytes: engine a, engine b, each number least significant
    /// byte first.
    pub open spec fn encoding(self) -> Seq<u8> {
        le16_bytes(self.engine_a) + le16_bytes(self.engine_b)
    }

    /// The value that four register bytes stand for.
    pub open spec fn decoding(b: Seq<u8>) -> Self {
        AlpCompensation { engine_a: le16(b[0], b[1]), engine_b: le16(b[2], b[3]) }
    }

    /// The register bytes of the value.
    pub fn to_bytes(&self) -> (b: [u8; 4])
        ensures
            b@ == self.encoding(),
    {
        let engine_a = u16_to_le(self.engine_a);
        let engine_b = u16_to_le(self.engine_b);
        let b = [engine_a[0], engine_a[1], engine_b[0], engine_b[1]];
        assert(b@ =~= self.encoding());
        b
    }

    /// The value that four register bytes stand for.
    pub fn from_bytes(b: [u8; 4]) -> (v: Self)
        ensures
            v == Self::decoding(b@),
    {
        Self { engine_a: u16_from_le(b[0], b[1]), engine_b: u16_from_le(b[2], b[3]) }
    }

    /// Decoding undoes encoding.
    pub proof fn lemma_roundtrip(self)
        ensures
            self.encoding().len() == 4,
            Self::decoding(self.encoding()) == self,
    {
    }

    /// The reference compensation values.
    pub open spec fn default_value() -> Self {
        AlpCompensation { engine_a: 441, engine_b: 466 }
    }
}

impl Record<4> for AlpCompensation {
    open spec fn in_range(&self) -> bool {
        true
    }

    open spec fn bytes(&self) -> Seq<u8> {
        self.encoding()
    }

    open spec fn of_bytes(bytes: Seq<u8>) -> Option<Self> {
        Some(AlpCompensation::decoding(bytes))
    }

    fn pack(&self) -> (b: [u8; 4]) {
        self.to_bytes()
    }

    fn unpack(b: [u8; 4]) -> (v: Option<Self>) {
        Some(AlpCompensation::from_bytes(b))
    }

    proof fn lemma_of_bytes(&self) {
        self.lemma_roundtrip();
    }
}

impl Default for AlpCompensation {
    fn default() -> (v: Self)
        ensures
            v == AlpCompensation::default_value(),
    {
        Self::new(441, 466)
    }
}

/// Auto-tuning parameters of one sensing engine.
#[derive(Debug, Clone, Copy, PartialEq, Eq, Structural)]
pub struct Tune {
    /// Five bits.
    pub coarse_divider: u8,
    /// Four bits.
    pub coarse_multiplier: u8,
    /// Five bits.
    pub fine_divider: u8,
    pub compensation_divider: u8,
    pub drift_limit: u8,
    pub target: u16,
}

impl Tune {
    /// The value with the given fields.
    pub fn new(
        coarse_divider: u8,
        coarse_multiplier: u8,
        fine_divider: u8,
        compensation_divider: u8,
        drift_limit: u8,
        target: u16,
    ) -> (v: Self)
        ensures
            v == (Tune {
                coarse_divider,
                coarse_multiplier,
                fine_divider,
                compensation_divider,
                drift_limit,
                target,
            }),
    {
        Self {
            coarse_divider,
            coarse_multiplier,
            fine_divider,
            compensation_divider,
            drift_limit,
            target,
        }
    }

    /// The same settings with another target.
    pub fn with_target(self, target: u16) -> (v: Self)
        ensures
            v == (Tune { target, ..self }),
    {
        Tune { target, ..self }
    }

    /// The same settings with another drift limit.
    pub fn with_drift_limit(self, drift_limit: u8) -> (v: Self)
        ensures
            v == (Tune { drift_limit, ..self }),
    {
        Tune { drift_limit, ..self }
    }

    /// The same settings with the given dividier multiplier.
    pub fn with_dividier_multiplier(self, divider: u8, multiplier: u8, fine_divider: u8) -> (v: Self)
        ensures
            v == (Tune {
                coarse_divider: divider,
                coarse_multiplier: multiplier,
                fine_divider,
                ..self
            }),
    {
        Tune { coarse_divider: divider, coarse_multiplier: multiplier, fine_divider, ..self }
    }

    /// The same settings with another compensation divider.
    pub fn with_compensation_divider(self, divider: u8) -> (v: Self)
        ensures
            v == (Tune { compensation_divider: divider, ..self }),
    {
        Tune { compensation_divider: divider, ..self }
    }

    /// Every field fits the bits that the registers give it.
    pub open spec fn valid(self) -> bool {
        self.coarse_divider < 32
        && self.coarse_multiplier < 16
        && self.fine_divider < 32
    }

    /// The multipliers and dividers word: coarse divider in bits 0 to 4, coarse
    /// multiplier in bits 5 to 8, fine divider in bits 9 to 13.
    #[verifier::opaque]
    pub open spec fn scale_word(self) -> int {
        field(self.coarse_divider as int, 0, 5)
            + field(self.coarse_multiplier as int, 5, 4)
            + field(self.fine_divider as int, 9, 5)
    }

    /// Each field of the scale word is read back from the place it was put.
    pub proof fn lemma_scale_word_fields(self)
        ensures
            0 <= self.scale_word() < 65536,
            bits(self.scale_word(), 0, 5) == self.coarse_divider % 32,
            bits(self.scale_word(), 5, 4) == self.coarse_multiplier % 16,
            bits(self.scale_word(), 9, 5) == self.fine_divider % 32,
    {
        reveal(bits);
        reveal(Tune::scale_word);
        let coarse_divider = (self.coarse_divider % 32) as u16;
        let coarse_multiplier = (self.coarse_multiplier % 16) as u16;
        let fine_divider = (self.fine_divider % 32) as u16;
        let w = self.scale_word() as u16;
        assert(w % 32 == coarse_divider
            && (w / 32) % 16 == coarse_multiplier
            && (w / 512) % 32 == fine_divider) by (bit_vector)
            requires
                coarse_divider < 32,
                coarse_multiplier < 16,
                fine_divider < 32,
                w == coarse_divider + coarse_multiplier * 32 + fine_divider * 512,
        ;
    }

    /// The multipliers and dividers word, as a number.
    pub fn to_scale_word(&self) -> (w: u16)
        ensures
            w == self.scale_word(),
    {
        proof {
            reveal(Tune::scale_word);
        }
        (self.coarse_divider % 32) as u16
            + ((self.coarse_multiplier % 16) as u16) * 32
            + ((self.fine_divider % 32) as u16) * 512
    }

    /// The register bytes: the scale word, compensation divider, drift limit,
    /// target, each number least significant byte first.
    pub open spec fn encoding(self) -> Seq<u8> {
        le16_bytes(self.scale_word() as u16)
            + seq![self.compensation_divider, self.drift_limit]
            + le16_bytes(self.target)
    }

    /// The value that six register bytes stand for.
    pub open spec fn decoding(b: Seq<u8>) -> Self {
        let scale = le16(b[0], b[1]) as int;
        Tune {
            coarse_divider: bits(scale, 0, 5) as u8,
            coarse_multiplier: bits(scale, 5, 4) as u8,
            fine_divider: bits(scale, 9, 5) as u8,
            compensation_divider: b[2],
            drift_limit: b[3],
            target: le16(b[4], b[5]),
        }
    }

    /// The register bytes of the value.
    pub fn to_bytes(&self) -> (b: [u8; 6])
        ensures
            b@ == self.encoding(),
    {
        let scale = self.to_scale_word();
        let scale_bytes = u16_to_le(scale);
        let target = u16_to_le(self.target);
        let b = [
            scale_bytes[0], scale_bytes[1], self.compensation_divider, self.drift_limit,
            target[0], target[1],
        ];
        assert(b@ =~= self.encoding());
        b
    }

    /// The value that six register bytes stand for.
    pub fn from_bytes(b: [u8; 6]) -> (v: Self)
        ensures
            v == Self::decoding(b@),
    {
        proof {
            reveal(bits);
        }
        let scale = u16_from_le(b[0], b[1]);
        Self {
            coarse_divider: (scale % 32) as u8,
            coarse_multiplier: ((scale / 32) % 16) as u8,
            fine_divider: ((scale / 512) % 32) as u8,
            compensation_divider: b[2],
            drift_limit: b[3],
            target: u16_from_le(b[4], b[5]),
        }
    }

    /// Decoding undoes encoding, for fields within their bits.
    pub proof fn lemma_roundtrip(self)
        requires
            self.valid(),
        ensures
            self.encoding().len() == 6,
            Self::decoding(self.encoding()) == self,
    {
        self.lemma_scale_word_fields();
    }

    /// The reference tuning of the trackpad.
    pub open spec fn default_value() -> Self {
        Tune {
            coarse_divider: 1,
            coarse_multiplier: 15,
            fine_divider: 24,
            compensation_divider: 9,
            drift_limit: 50,
            target: 300,
        }
    }

    /// The reference tuning of the low-power channel.
    pub open spec fn alp_default_value() -> Self {
        Tune {
            coarse_divider: 1,
            coarse_multiplier: 15,
            fine_divider: 24,
            compensation_divider: 4,
            drift_limit: 20,
            target: 200,
        }
    }
}

impl Record<6> for Tune {
    open spec fn in_range(&self) -> bool {
        self.valid()
    }

    open spec fn bytes(&self) -> Seq<u8> {
        self.encoding()
    }

    open spec fn of_bytes(bytes: Seq<u8>) -> Option<Self> {
        Some(Tune::decoding(bytes))
    }

    fn pack(&self) -> (b: [u8; 6]) {
        self.to_bytes()
    }

    fn unpack(b: [u8; 6]) -> (v: Option<Self>) {
        Some(Tune::from_bytes(b))
    }

    proof fn lemma_of_bytes(&self) {
        self.lemma_roundtrip();
    }
}

impl Default for Tune {
    fn default() -> (v: Self)
        ensures
            v == Tune::default_value(),
    {
        Self::new(1, 15, 24, 9, 50, 300)
    }
}

} // verus!
