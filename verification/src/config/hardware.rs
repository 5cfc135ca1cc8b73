//! Hardware settings of the two sensing engines.

use crate::rw::Record;
use crate::wire::{at, bits, flag, flag_bit, le16, le16_bytes, u16_from_le, u16_to_le};
use vstd::prelude::*;

verus! {

/// Hardware settings of both sensing engines.
#[derive(Debug, Clone, Copy, PartialEq, Eq, Structural)]
pub struct Hardware {
    pub trackpad: TrackpadHardware,
    pub alp: AlpHardware,
}

impl Hardware {
    /// The value with the given fields.
    pub fn new(trackpad: TrackpadHardware, alp: AlpHardware) -> (v: Self)
        ensures
            v == (Hardware { trackpad, alp }),
    {
        Self { trackpad, alp }
    }

    /// The same settings with another trackpad.
    pub fn with_trackpad(self, trackpad: TrackpadHardware) -> (v: Self)
        ensures
            v == (Hardware { trackpad, ..self }),
    {
        Hardware { trackpad, ..self }
    }

    /// The same settings with another low-power.
    pub fn with_alp(self, alp: AlpHardware) -> (v: Self)
        ensures
            v == (Hardware { alp, ..self }),
    {
        Hardware { alp, ..self }
    }

    /// The register bytes: trackpad, alp.
    pub open spec fn encoding(self) -> Seq<u8> {
        self.trackpad.encoding() + self.alp.encoding()
    }

    /// The value that four register bytes stand for, if they stand for one.
    pub open spec fn decoding(b: Seq<u8>) -> Option<Self> {
        match AlpHardware::decoding(b.subrange(2, 4)) {
            Some(alp) => Some(Hardware { trackpad: TrackpadHardware::decoding(b.subrange(0, 2)), alp }),
            None => None,
        }
    }

    /// The register bytes of the value.
    pub fn to_bytes(&self) -> (b: [u8; 4])
        ensures
            b@ == self.encoding(),
    {
        let trackpad = self.trackpad.to_bytes();
        let alp = self.alp.to_bytes();
        let b = [trackpad[0], trackpad[1], alp[0], alp[1]];
        assert(b@ =~= self.encoding());
        b
    }

    /// The value that four register bytes stand for, if they stand for one.
    pub fn from_bytes(b: [u8; 4]) -> (v: Option<Self>)
        ensures
            v == Self::decoding(b@),
    {
        let trackpad_bytes = [b[0], b[1]];
        assert(trackpad_bytes@ =~= b@.subrange(0, 2));
        let alp_bytes = [b[2], b[3]];
        assert(alp_bytes@ =~= b@.subrange(2, 4));
        match AlpHardware::from_bytes(alp_bytes) {
            Some(alp) => Some(Self { trackpad: TrackpadHardware::from_bytes(trackpad_bytes), alp }),
            None => None,
        }
    }

    /// Decoding undoes encoding.
    pub proof fn lemma_roundtrip(self)
        ensures
            self.encoding().len() == 4,
            Self::decoding(self.encoding()) == Some(self),
    {
        self.trackpad.lemma_roundtrip();
        self.alp.lemma_roundtrip();
        assert(self.encoding().subrange(0, 2) =~= self.trackpad.encoding());
        assert(self.encoding().subrange(2, 4) =~= self.alp.encoding());
    }

    /// The reference settings.
    pub open spec fn default_value() -> Self {
        Hardware { trackpad: TrackpadHardware::default_value(), alp: AlpHardware::default_value() }
    }
}

impl Record<4> for Hardware {
    open spec fn in_range(&self) -> bool {
        true
    }

    open spec fn bytes(&self) -> Seq<u8> {
        self.encoding()
    }

    open spec fn of_bytes(bytes: Seq<u8>) -> Option<Self> {
        Hardware::decoding(bytes)
    }

    fn pack(&self) -> (b: [u8; 4]) {
        self.to_bytes()
    }

    fn unpack(b: [u8; 4]) -> (v: Option<Self>) {
        Hardware::from_bytes(b)
    }

    proof fn lemma_of_bytes(&self) {
        self.lemma_roundtrip();
    }
}

impl Default for Hardware {
    fn default() -> (v: Self)
        ensures
            v == Hardware::default_value(),
    {
        Self::new(TrackpadHardware::default(), AlpHardware::default())
    }
}

/// Hardware settings of the trackpad sensing engine.
#[derive(Debug, Clone, Copy, PartialEq, Eq, Structural)]
pub struct TrackpadHardware {
    pub init_delay: InitDelay,
    pub max_count: MaxCount,
    pub opamp_bias: OpampBias,
    pub cs_cap: CSCap,
    pub rf_filter: bool,
    pub cs_discharge: CSDischarge,
    pub nm_in_static: bool,
}

impl TrackpadHardware {
    /// The value with the given fields.
    pub fn new(
        init_delay: InitDelay,
        max_count: MaxCount,
        opamp_bias: OpampBias,
        cs_cap: CSCap,
        rf_filter: bool,
        cs_discharge: CSDischarge,
        nm_in_static: bool,
    ) -> (v: Self)
        ensures
            v == (TrackpadHardware {
                init_delay,
                max_count,
                opamp_bias,
                cs_cap,
                rf_filter,
                cs_discharge,
                nm_in_static,
            }),
    {
        Self {
            init_delay,
            max_count,
            opamp_bias,
            cs_cap,
            rf_filter,
            cs_discharge,
            nm_in_static,
        }
    }

    /// The settings word: init delay in bits 0 to 1, max count in bits 8 to 9,
    /// opamp bias in bits 10 to 11, cs cap in bit 12, rf filter in bit 13, cs
    /// discharge in bit 14, nm in static in bit 15.
    #[verifier::opaque]
    pub open spec fn word(self) -> int {
        at(self.init_delay.to_bits() as int, 0)
            + at(self.max_count.to_bits() as int, 8)
            + at(self.opamp_bias.to_bits() as int, 10)
            + at(self.cs_cap.to_bits() as int, 12)
            + at(flag(self.rf_filter), 13)
            + at(self.cs_discharge.to_bits() as int, 14)
            + at(flag(self.nm_in_static), 15)
    }

    /// Each field of the word is read back from the place it was put.
    pub proof fn lemma_word_fields(self)
        ensures
            0 <= self.word() < 65536,
            bits(self.word(), 0, 2) == self.init_delay.to_bits(),
            bits(self.word(), 8, 2) == self.max_count.to_bits(),
            bits(self.word(), 10, 2) == self.opamp_bias.to_bits(),
            bits(self.word(), 12, 1) == self.cs_cap.to_bits(),
            bits(self.word(), 13, 1) == flag(self.rf_filter),
            bits(self.word(), 14, 1) == self.cs_discharge.to_bits(),
            bits(self.word(), 15, 1) == flag(self.nm_in_static),
    {
        reveal(bits);
        reveal(flag);
        reveal(TrackpadHardware::word);
        self.init_delay.lemma_bits();
        self.max_count.lemma_bits();
        self.opamp_bias.lemma_bits();
        self.cs_cap.lemma_bits();
        self.cs_discharge.lemma_bits();
        let init_delay = self.init_delay.to_bits() as u16;
        let max_count = self.max_count.to_bits() as u16;
        let opamp_bias = self.opamp_bias.to_bits() as u16;
        let cs_cap = self.cs_cap.to_bits() as u16;
        let rf_filter = flag(self.rf_filter) as u16;
        let cs_discharge = self.cs_discharge.to_bits() as u16;
        let nm_in_static = flag(self.nm_in_static) as u16;
        let w = self.word() as u16;
        assert(w % 4 == init_delay
            && (w / 256) % 4 == max_count
            && (w / 1024) % 4 == opamp_bias
            && (w / 4096) % 2 == cs_cap
            && (w / 8192) % 2 == rf_filter
            && (w / 16384) % 2 == cs_discharge
            && (w / 32768) % 2 == nm_in_static) by (bit_vector)
            requires
                init_delay < 4,
                max_count < 4,
                opamp_bias < 4,
                cs_cap < 2,
                rf_filter < 2,
                cs_discharge < 2,
                nm_in_static < 2,
                w == init_delay
                    + max_count * 256
                    + opamp_bias * 1024
                    + cs_cap * 4096
                    + rf_filter * 8192
                    + cs_discharge * 16384
                    + nm_in_static * 32768,
        ;
    }

    /// The settings word, as a number.
    pub fn to_word(&self) -> (w: u16)
        ensures
            w == self.word(),
    {
        proof {
            reveal(TrackpadHardware::word);
        }
        self.init_delay.to_bits() as u16
            + (self.max_count.to_bits() as u16) * 256
            + (self.opamp_bias.to_bits() as u16) * 1024
            + (self.cs_cap.to_bits() as u16) * 4096
            + (flag_bit(self.rf_filter) as u16) * 8192
            + (self.cs_discharge.to_bits() as u16) * 16384
            + (flag_bit(self.nm_in_static) as u16) * 32768
    }

    /// The register bytes: the word, each number least significant byte first.
    pub open spec fn encoding(self) -> Seq<u8> {
        le16_bytes(self.word() as u16)
    }

    /// The value that a register word stands for.
    pub open spec fn of_word(w: int) -> Self {
        TrackpadHardware {
            init_delay: InitDelay::from_bits(bits(w, 0, 2) as u8),
            max_count: MaxCount::from_bits(bits(w, 8, 2) as u8),
            opamp_bias: OpampBias::from_bits(bits(w, 10, 2) as u8),
            cs_cap: CSCap::from_bits(bits(w, 12, 1) as u8),
            rf_filter: bits(w, 13, 1) != 0,
            cs_discharge: CSDischarge::from_bits(bits(w, 14, 1) as u8),
            nm_in_static: bits(w, 15, 1) != 0,
        }
    }

    /// The value that two register bytes stand for.
    pub open spec fn decoding(b: Seq<u8>) -> Self {
        Self::of_word(le16(b[0], b[1]) as int)
    }

    /// The register bytes of the value.
    pub fn to_bytes(&self) -> (b: [u8; 2])
        ensures
            b@ == self.encoding(),
    {
        u16_to_le(self.to_word())
    }

    /// The value that a register word stands for.
    pub fn from_word(w: u16) -> (v: Self)
        ensures
            v == Self::of_word(w as int),
    {
        proof {
            reveal(bits);
        }
        Self {
            init_delay: InitDelay::from_bits((w % 4) as u8),
            max_count: MaxCount::from_bits(((w / 256) % 4) as u8),
            opamp_bias: OpampBias::from_bits(((w / 1024) % 4) as u8),
            cs_cap: CSCap::from_bits(((w / 4096) % 2) as u8),
            rf_filter: (w / 8192) % 2 != 0,
            cs_discharge: CSDischarge::from_bits(((w / 16384) % 2) as u8),
            nm_in_static: (w / 32768) % 2 != 0,
        }
    }

    /// The value that two register bytes stand for.
    pub fn from_bytes(b: [u8; 2]) -> (v: Self)
        ensures
            v == Self::decoding(b@),
    {
        Self::from_word(u16_from_le(b[0], b[1]))
    }

    /// Decoding undoes encoding.
    pub proof fn lemma_roundtrip(self)
        ensures
            self.encoding().len() == 2,
            Self::of_word(self.word()) == self,
            Self::decoding(self.encoding()) == self,
    {
        self.lemma_word_fields();
        reveal(flag);
        self.init_delay.lemma_bits();
        self.max_count.lemma_bits();
        self.opamp_bias.lemma_bits();
        self.cs_cap.lemma_bits();
        self.cs_discharge.lemma_bits();
    }

    /// The reference settings.
    pub open spec fn default_value() -> Self {
        TrackpadHardware {
            init_delay: InitDelay::Cycles64,
            max_count: MaxCount::Count1023,
            opamp_bias: OpampBias::Microamp10,
            cs_cap: CSCap::Picofarad80,
            rf_filter: false,
            cs_discharge: CSDischarge::To0v,
            nm_in_static: true,
        }
    }
}

impl Record<2> for TrackpadHardware {
    open spec fn in_range(&self) -> bool {
        true
    }

    open spec fn bytes(&self) -> Seq<u8> {
        self.encoding()
    }

    open spec fn of_bytes(bytes: Seq<u8>) -> Option<Self> {
        Some(TrackpadHardware::decoding(bytes))
    }

    fn pack(&self) -> (b: [u8; 2]) {
        self.to_bytes()
    }

    fn unpack(b: [u8; 2]) -> (v: Option<Self>) {
        Some(TrackpadHardware::from_bytes(b))
    }

    proof fn lemma_of_bytes(&self) {
        self.lemma_roundtrip();
    }
}

impl Default for TrackpadHardware {
    fn default() -> (v: Self)
        ensures
            v == TrackpadHardware::default_value(),
    {
        Self::new(
            InitDelay::Cycles64,
            MaxCount::Count1023,
            OpampBias::Microamp10,
            CSCap::Picofarad80,
            false,
            CSDischarge::To0v,
            true,
        )
    }
}

/// Hardware settings of the low-power sensing engine.
#[derive(Debug, Clone, Copy, PartialEq, Eq, Structural)]
pub struct AlpHardware {
    pub init_delay: InitDelay,
    pub lp1_auto_prox_cycles: AutoProxCycles,
    pub lp2_auto_prox_cycles: AutoProxCycles,
    pub max_count: MaxCount,
    pub opamp_bias: OpampBias,
    pub cs_cap: CSCap,
    pub rf_filter: bool,
    pub cs_discharge: CSDischarge,
    pub nm_in_static: bool,
}

impl AlpHardware {
    /// The value with the given fields.
    pub fn new(
        init_delay: InitDelay,
        lp1_auto_prox_cycles: AutoProxCycles,
        lp2_auto_prox_cycles: AutoProxCycles,
        max_count: MaxCount,
        opamp_bias: OpampBias,
        cs_cap: CSCap,
        rf_filter: bool,
        cs_discharge: CSDischarge,
        nm_in_static: bool,
    ) -> (v: Self)
        ensures
            v == (AlpHardware {
                init_delay,
                lp1_auto_prox_cycles,
                lp2_auto_prox_cycles,
                max_count,
                opamp_bias,
                cs_cap,
                rf_filter,
                cs_discharge,
                nm_in_static,
            }),
    {
        Self {
            init_delay,
            lp1_auto_prox_cycles,
            lp2_auto_prox_cycles,
            max_count,
            opamp_bias,
            cs_cap,
            rf_filter,
            cs_discharge,
            nm_in_static,
        }
    }

    /// The same settings with another init delay.
    pub fn with_init_delay(self, value: InitDelay) -> (v: Self)
        ensures
            v == (AlpHardware { init_delay: value, ..self }),
    {
        AlpHardware { init_delay: value, ..self }
    }

    /// The same settings with another first low-power mode auto prox cycles.
    pub fn with_lp1_auto_prox_cycles(self, value: AutoProxCycles) -> (v: Self)
        ensures
            v == (AlpHardware { lp1_auto_prox_cycles: value, ..self }),
    {
        AlpHardware { lp1_auto_prox_cycles: value, ..self }
    }

    /// The same settings with another second low-power mode auto prox cycles.
    pub fn with_lp2_auto_prox_cycles(self, value: AutoProxCycles) -> (v: Self)
        ensures
            v == (AlpHardware { lp2_auto_prox_cycles: value, ..self }),
    {
        AlpHardware { lp2_auto_prox_cycles: value, ..self }
    }

    /// The same settings with another max count.
    pub fn with_max_count(self, value: MaxCount) -> (v: Self)
        ensures
            v == (AlpHardware { max_count: value, ..self }),
    {
        AlpHardware { max_count: value, ..self }
    }

    /// The same settings with another opamp bias.
    pub fn with_opamp_bias(self, value: OpampBias) -> (v: Self)
        ensures
            v == (AlpHardware { opamp_bias: value, ..self }),
    {
        AlpHardware { opamp_bias: value, ..self }
    }

    /// The same settings with another cs cap.
    pub fn with_cs_cap(self, value: CSCap) -> (v: Self)
        ensures
            v == (AlpHardware { cs_cap: value, ..self }),
    {
        AlpHardware { cs_cap: value, ..self }
    }

    /// The same settings with the given rf filter.
    pub fn with_rf_filter(self, enabled: bool) -> (v: Self)
        ensures
            v == (AlpHardware { rf_filter: enabled, ..self }),
    {
        AlpHardware { rf_filter: enabled, ..self }
    }

    /// The same settings with another cs discharge.
    pub fn with_cs_discharge(self, value: CSDischarge) -> (v: Self)
        ensures
            v == (AlpHardware { cs_discharge: value, ..self }),
    {
        AlpHardware { cs_discharge: value, ..self }
    }

    /// The same settings with the given nm in static.
    pub fn with_nm_in_static(self, enabled: bool) -> (v: Self)
        ensures
            v == (AlpHardware { nm_in_static: enabled, ..self }),
    {
        AlpHardware { nm_in_static: enabled, ..self }
    }

    /// The settings word: init delay in bits 0 to 1, lp1 auto prox cycles in
    /// bits 2 to 4, lp2 auto prox cycles in bits 5 to 7, max count in bits 8 to
    /// 9, opamp bias in bits 10 to 11, cs cap in bit 12, rf filter in bit 13,
    /// cs discharge in bit 14, nm in static in bit 15.
    #[verifier::opaque]
    pub open spec fn word(self) -> int {
        at(self.init_delay.to_bits() as int, 0)
            + at(self.lp1_auto_prox_cycles.to_bits() as int, 2)
            + at(self.lp2_auto_prox_cycles.to_bits() as int, 5)
            + at(self.max_count.to_bits() as int, 8)
            + at(self.opamp_bias.to_bits() as int, 10)
            + at(self.cs_cap.to_bits() as int, 12)
            + at(flag(self.rf_filter), 13)
            + at(self.cs_discharge.to_bits() as int, 14)
            + at(flag(self.nm_in_static), 15)
    }

    /// Each field of the word is read back from the place it was put.
    pub proof fn lemma_word_fields(self)
        ensures
            0 <= self.word() < 65536,
            bits(self.word(), 0, 2) == self.init_delay.to_bits(),
            bits(self.word(), 2, 3) == self.lp1_auto_prox_cycles.to_bits(),
            bits(self.word(), 5, 3) == self.lp2_auto_prox_cycles.to_bits(),
            bits(self.word(), 8, 2) == self.max_count.to_bits(),
            bits(self.word(), 10, 2) == self.opamp_bias.to_bits(),
            bits(self.word(), 12, 1) == self.cs_cap.to_bits(),
            bits(self.word(), 13, 1) == flag(self.rf_filter),
            bits(self.word(), 14, 1) == self.cs_discharge.to_bits(),
            bits(self.word(), 15, 1) == flag(self.nm_in_static),
    {
        reveal(bits);
        reveal(flag);
        reveal(AlpHardware::word);
        self.init_delay.lemma_bits();
        self.lp1_auto_prox_cycles.lemma_bits();
        self.lp2_auto_prox_cycles.lemma_bits();
        self.max_count.lemma_bits();
        self.opamp_bias.lemma_bits();
        self.cs_cap.lemma_bits();
        self.cs_discharge.lemma_bits();
        let init_delay = self.init_delay.to_bits() as u16;
        let lp1_auto_prox_cycles = self.lp1_auto_prox_cycles.to_bits() as u16;
        let lp2_auto_prox_cycles = self.lp2_auto_prox_cycles.to_bits() as u16;
        let max_count = self.max_count.to_bits() as u16;
        let opamp_bias = self.opamp_bias.to_bits() as u16;
        let cs_cap = self.cs_cap.to_bits() as u16;
        let rf_filter = flag(self.rf_filter) as u16;
        let cs_discharge = self.cs_discharge.to_bits() as u16;
        let nm_in_static = flag(self.nm_in_static) as u16;
        let w = self.word() as u16;
        assert(w % 4 == init_delay
            && (w / 4) % 8 == lp1_auto_prox_cycles
            && (w / 32) % 8 == lp2_auto_prox_cycles
            && (w / 256) % 4 == max_count
            && (w / 1024) % 4 == opamp_bias
            && (w / 4096) % 2 == cs_cap
            && (w / 8192) % 2 == rf_filter
            && (w / 16384) % 2 == cs_discharge
            && (w / 32768) % 2 == nm_in_static) by (bit_vector)
            requires
                init_delay < 4,
                lp1_auto_prox_cycles < 8,
                lp2_auto_prox_cycles < 8,
                max_count < 4,
                opamp_bias < 4,
                cs_cap < 2,
                rf_filter < 2,
                cs_discharge < 2,
                nm_in_static < 2,
                w == init_delay
                    + lp1_auto_prox_cycles * 4
                    + lp2_auto_prox_cycles * 32
                    + max_count * 256
                    + opamp_bias * 1024
                    + cs_cap * 4096
                    + rf_filter * 8192
                    + cs_discharge * 16384
                    + nm_in_static * 32768,
        ;
    }

    /// The settings word, as a number.
    pub fn to_word(&self) -> (w: u16)
        ensures
            w == self.word(),
    {
        proof {
            reveal(AlpHardware::word);
        }
        self.init_delay.to_bits() as u16
            + (self.lp1_auto_prox_cycles.to_bits() as u16) * 4
            + (self.lp2_auto_prox_cycles.to_bits() as u16) * 32
            + (self.max_count.to_bits() as u16) * 256
            + (self.opamp_bias.to_bits() as u16) * 1024
            + (self.cs_cap.to_bits() as u16) * 4096
            + (flag_bit(self.rf_filter) as u16) * 8192
            + (self.cs_discharge.to_bits() as u16) * 16384
            + (flag_bit(self.nm_in_static) as u16) * 32768
    }

    /// The register bytes: the word, each number least significant byte first.
    pub open spec fn encoding(self) -> Seq<u8> {
        le16_bytes(self.word() as u16)
    }

    /// The value that a register word stands for, if it stands for one.
    pub open spec fn of_word(w: int) -> Option<Self> {
        match (
            AutoProxCycles::from_bits(bits(w, 2, 3) as u8),
            AutoProxCycles::from_bits(bits(w, 5, 3) as u8),
        ) {
            (Some(lp1_auto_prox_cycles), Some(lp2_auto_prox_cycles)) => Some(AlpHardware {
                init_delay: InitDelay::from_bits(bits(w, 0, 2) as u8),
                lp1_auto_prox_cycles,
                lp2_auto_prox_cycles,
                max_count: MaxCount::from_bits(bits(w, 8, 2) as u8),
                opamp_bias: OpampBias::from_bits(bits(w, 10, 2) as u8),
                cs_cap: CSCap::from_bits(bits(w, 12, 1) as u8),
                rf_filter: bits(w, 13, 1) != 0,
                cs_discharge: CSDischarge::from_bits(bits(w, 14, 1) as u8),
                nm_in_static: bits(w, 15, 1) != 0,
            }),
            _ => None,
        }
    }

    /// The value that two register bytes stand for, if they stand for one.
    pub open spec fn decoding(b: Seq<u8>) -> Option<Self> {
        Self::of_word(le16(b[0], b[1]) as int)
    }

    /// The register bytes of the value.
    pub fn to_bytes(&self) -> (b: [u8; 2])
        ensures
            b@ == self.encoding(),
    {
        u16_to_le(self.to_word())
    }

    /// The value that a register word stands for, if it stands for one.
    pub fn from_word(w: u16) -> (v: Option<Self>)
        ensures
            v == Self::of_word(w as int),
    {
        proof {
            reveal(bits);
        }
        match (
            AutoProxCycles::from_bits(((w / 4) % 8) as u8),
            AutoProxCycles::from_bits(((w / 32) % 8) as u8),
        ) {
            (Some(lp1_auto_prox_cycles), Some(lp2_auto_prox_cycles)) => Some(Self {
                init_delay: InitDelay::from_bits((w % 4) as u8),
                lp1_auto_prox_cycles,
                lp2_auto_prox_cycles,
                max_count: MaxCount::from_bits(((w / 256) % 4) as u8),
                opamp_bias: OpampBias::from_bits(((w / 1024) % 4) as u8),
                cs_cap: CSCap::from_bits(((w / 4096) % 2) as u8),
                rf_filter: (w / 8192) % 2 != 0,
                cs_discharge: CSDischarge::from_bits(((w / 16384) % 2) as u8),
                nm_in_static: (w / 32768) % 2 != 0,
            }),
            _ => None,
        }
    }

    /// The value that two register bytes stand for, if they stand for one.
    pub fn from_bytes(b: [u8; 2]) -> (v: Option<Self>)
        ensures
            v == Self::decoding(b@),
    {
        Self::from_word(u16_from_le(b[0], b[1]))
    }

    /// Decoding undoes encoding.
    pub proof fn lemma_roundtrip(self)
        ensures
            self.encoding().len() == 2,
            Self::of_word(self.word()) == Some(self),
            Self::decoding(self.encoding()) == Some(self),
    {
        self.lemma_word_fields();
        reveal(flag);
        self.init_delay.lemma_bits();
        self.lp1_auto_prox_cycles.lemma_bits();
        self.lp2_auto_prox_cycles.lemma_bits();
        self.max_count.lemma_bits();
        self.opamp_bias.lemma_bits();
        self.cs_cap.lemma_bits();
        self.cs_discharge.lemma_bits();
    }

    /// The reference settings.
    pub open spec fn default_value() -> Self {
        AlpHardware {
            init_delay: InitDelay::Cycles64,
            lp1_auto_prox_cycles: AutoProxCycles::Cycles8,
            lp2_auto_prox_cycles: AutoProxCycles::Cycles32,
            max_count: MaxCount::Count1023,
            opamp_bias: OpampBias::Microamp10,
            cs_cap: CSCap::Picofarad80,
            rf_filter: false,
            cs_discharge: CSDischarge::To0v,
            nm_in_static: true,
        }
    }
}

impl Record<2> for AlpHardware {
    open spec fn in_range(&self) -> bool {
        true
    }

    open spec fn bytes(&self) -> Seq<u8> {
        self.encoding()
    }

    open spec fn of_bytes(bytes: Seq<u8>) -> Option<Self> {
        AlpHardware::decoding(bytes)
    }

    fn pack(&self) -> (b: [u8; 2]) {
        self.to_bytes()
    }

    fn unpack(b: [u8; 2]) -> (v: Option<Self>) {
        AlpHardware::from_bytes(b)
    }

    proof fn lemma_of_bytes(&self) {
        self.lemma_roundtrip();
    }
}

impl Default for AlpHardware {
    fn default() -> (v: Self)
        ensures
            v == AlpHardware::default_value(),
    {
        Self::new(
            InitDelay::Cycles64,
            AutoProxCycles::Cycles8,
            AutoProxCycles::Cycles32,
            MaxCount::Count1023,
            OpampBias::Microamp10,
            CSCap::Picofarad80,
            false,
            CSDischarge::To0v,
            true,
        )
    }
}

/// Conversions that the engine waits before it samples.
#[derive(Debug, Clone, Copy, PartialEq, Eq, Structural)]
pub enum InitDelay {
    Cycles4,
    Cycles16,
    Cycles32,
    Cycles64,
}

impl InitDelay {
    /// The bits that stand for the value in its register field.
    #[verifier::opaque]
    pub open spec fn spec_to_bits(self) -> u8 {
        match self {
            InitDelay::Cycles4 => 0,
            InitDelay::Cycles16 => 1,
            InitDelay::Cycles32 => 2,
            InitDelay::Cycles64 => 3,
        }
    }

    /// The bits that stand for the value in its register field.
    #[verifier::when_used_as_spec(spec_to_bits)]
    pub fn to_bits(self) -> (b: u8)
        ensures
            b == self.spec_to_bits(),
            b < 4,
    {
        proof {
            reveal(InitDelay::spec_to_bits);
        }
        match self {
            InitDelay::Cycles4 => 0,
            InitDelay::Cycles16 => 1,
            InitDelay::Cycles32 => 2,
            InitDelay::Cycles64 => 3,
        }
    }

    /// The value that the low 2 bits of `bits` stand for.
    #[verifier::opaque]
    pub open spec fn spec_from_bits(bits: u8) -> Self {
        match bits % 4 {
            0 => InitDelay::Cycles4,
            1 => InitDelay::Cycles16,
            2 => InitDelay::Cycles32,
            _ => InitDelay::Cycles64,
        }
    }

    /// The value that the low 2 bits of `bits` stand for.
    #[verifier::when_used_as_spec(spec_from_bits)]
    pub fn from_bits(bits: u8) -> (v: Self)
        ensures
            v == Self::spec_from_bits(bits),
    {
        proof {
            reveal(InitDelay::spec_from_bits);
        }
        match bits % 4 {
            0 => InitDelay::Cycles4,
            1 => InitDelay::Cycles16,
            2 => InitDelay::Cycles32,
            _ => InitDelay::Cycles64,
        }
    }

    /// The bits of a value fit its register field and stand for that value.
    pub proof fn lemma_bits(self)
        ensures
            self.to_bits() < 4,
            Self::from_bits(self.to_bits()) == self,
    {
        reveal(InitDelay::spec_to_bits);
        reveal(InitDelay::spec_from_bits);
    }
}

/// Number of auto-prox cycles in a low-power mode.
#[derive(Debug, Clone, Copy, PartialEq, Eq, Structural)]
pub enum AutoProxCycles {
    Cycles4,
    Cycles8,
    Cycles16,
    Cycles32,
    Disabled,
}

impl AutoProxCycles {
    /// The bits that stand for the value in its register field.
    #[verifier::opaque]
    pub open spec fn spec_to_bits(self) -> u8 {
        match self {
            AutoProxCycles::Cycles4 => 0,
            AutoProxCycles::Cycles8 => 1,
            AutoProxCycles::Cycles16 => 2,
            AutoProxCycles::Cycles32 => 3,
            AutoProxCycles::Disabled => 4,
        }
    }

    /// The bits that stand for the value in its register field.
    #[verifier::when_used_as_spec(spec_to_bits)]
    pub fn to_bits(self) -> (b: u8)
        ensures
            b == self.spec_to_bits(),
            b < 8,
    {
        proof {
            reveal(AutoProxCycles::spec_to_bits);
        }
        match self {
            AutoProxCycles::Cycles4 => 0,
            AutoProxCycles::Cycles8 => 1,
            AutoProxCycles::Cycles16 => 2,
            AutoProxCycles::Cycles32 => 3,
            AutoProxCycles::Disabled => 4,
        }
    }

    /// The value that the low 3 bits of `bits` stand for, if they stand for one.
    #[verifier::opaque]
    pub open spec fn spec_from_bits(bits: u8) -> Option<Self> {
        match bits % 8 {
            0 => Some(AutoProxCycles::Cycles4),
            1 => Some(AutoProxCycles::Cycles8),
            2 => Some(AutoProxCycles::Cycles16),
            3 => Some(AutoProxCycles::Cycles32),
            4 => Some(AutoProxCycles::Disabled),
            _ => None,
        }
    }

    /// The value that the low 3 bits of `bits` stand for, if they stand for one.
    #[verifier::when_used_as_spec(spec_from_bits)]
    pub fn from_bits(bits: u8) -> (v: Option<Self>)
        ensures
            v == Self::spec_from_bits(bits),
    {
        proof {
            reveal(AutoProxCycles::spec_from_bits);
        }
        match bits % 8 {
            0 => Some(AutoProxCycles::Cycles4),
            1 => Some(AutoProxCycles::Cycles8),
            2 => Some(AutoProxCycles::Cycles16),
            3 => Some(AutoProxCycles::Cycles32),
            4 => Some(AutoProxCycles::Disabled),
            _ => None,
        }
    }

    /// The bits of a value fit its register field and stand for that value.
    pub proof fn lemma_bits(self)
        ensures
            self.to_bits() < 8,
            Self::from_bits(self.to_bits()) == Some(self),
    {
        reveal(AutoProxCycles::spec_to_bits);
        reveal(AutoProxCycles::spec_from_bits);
    }
}

/// Count at which a conversion is cut off.
#[derive(Debug, Clone, Copy, PartialEq, Eq, Structural)]
pub enum MaxCount {
    Count1023,
    Count2047,
    Count4095,
    Count16384,
}

impl MaxCount {
    /// The bits that stand for the value in its register field.
    #[verifier::opaque]
    pub open spec fn spec_to_bits(self) -> u8 {
        match self {
            MaxCount::Count1023 => 0,
            MaxCount::Count2047 => 1,
            MaxCount::Count4095 => 2,
            MaxCount::Count16384 => 3,
        }
    }

    /// The bits that stand for the value in its register field.
    #[verifier::when_used_as_spec(spec_to_bits)]
    pub fn to_bits(self) -> (b: u8)
        ensures
            b == self.spec_to_bits(),
            b < 4,
    {
        proof {
            reveal(MaxCount::spec_to_bits);
        }
        match self {
            MaxCount::Count1023 => 0,
            MaxCount::Count2047 => 1,
            MaxCount::Count4095 => 2,
            MaxCount::Count16384 => 3,
        }
    }

    /// The value that the low 2 bits of `bits` stand for.
    #[verifier::opaque]
    pub open spec fn spec_from_bits(bits: u8) -> Self {
        match bits % 4 {
            0 => MaxCount::Count1023,
            1 => MaxCount::Count2047,
            2 => MaxCount::Count4095,
            _ => MaxCount::Count16384,
        }
    }

    /// The value that the low 2 bits of `bits` stand for.
    #[verifier::when_used_as_spec(spec_from_bits)]
    pub fn from_bits(bits: u8) -> (v: Self)
        ensures
            v == Self::spec_from_bits(bits),
    {
        proof {
            reveal(MaxCount::spec_from_bits);
        }
        match bits % 4 {
            0 => MaxCount::Count1023,
            1 => MaxCount::Count2047,
            2 => MaxCount::Count4095,
            _ => MaxCount::Count16384,
        }
    }

    /// The bits of a value fit its register field and stand for that value.
    pub proof fn lemma_bits(self)
        ensures
            self.to_bits() < 4,
            Self::from_bits(self.to_bits()) == self,
    {
        reveal(MaxCount::spec_to_bits);
        reveal(MaxCount::spec_from_bits);
    }
}

/// Bias current of the op-amp.
#[derive(Debug, Clone, Copy, PartialEq, Eq, Structural)]
pub enum OpampBias {
    Microamp2,
    Microamp5,
    Microamp7,
    Microamp10,
}

impl OpampBias {
    /// The bits that stand for the value in its register field.
    #[verifier::opaque]
    pub open spec fn spec_to_bits(self) -> u8 {
        match self {
            OpampBias::Microamp2 => 0,
            OpampBias::Microamp5 => 1,
            OpampBias::Microamp7 => 2,
            OpampBias::Microamp10 => 3,
        }
    }

    /// The bits that stand for the value in its register field.
    #[verifier::when_used_as_spec(spec_to_bits)]
    pub fn to_bits(self) -> (b: u8)
        ensures
            b == self.spec_to_bits(),
            b < 4,
    {
        proof {
            reveal(OpampBias::spec_to_bits);
        }
        match self {
            OpampBias::Microamp2 => 0,
            OpampBias::Microamp5 => 1,
            OpampBias::Microamp7 => 2,
            OpampBias::Microamp10 => 3,
        }
    }

    /// The value that the low 2 bits of `bits` stand for.
    #[verifier::opaque]
    pub open spec fn spec_from_bits(bits: u8) -> Self {
        match bits % 4 {
            0 => OpampBias::Microamp2,
            1 => OpampBias::Microamp5,
            2 => OpampBias::Microamp7,
            _ => OpampBias::Microamp10,
        }
    }

    /// The value that the low 2 bits of `bits` stand for.
    #[verifier::when_used_as_spec(spec_from_bits)]
    pub fn from_bits(bits: u8) -> (v: Self)
        ensures
            v == Self::spec_from_bits(bits),
    {
        proof {
            reveal(OpampBias::spec_from_bits);
        }
        match bits % 4 {
            0 => OpampBias::Microamp2,
            1 => OpampBias::Microamp5,
            2 => OpampBias::Microamp7,
            _ => OpampBias::Microamp10,
        }
    }

    /// The bits of a value fit its register field and stand for that value.
    pub proof fn lemma_bits(self)
        ensures
            self.to_bits() < 4,
            Self::from_bits(self.to_bits()) == self,
    {
        reveal(OpampBias::spec_to_bits);
        reveal(OpampBias::spec_from_bits);
    }
}

/// Size of the charge-sharing capacitor.
#[derive(Debug, Clone, Copy, PartialEq, Eq, Structural)]
pub enum CSCap {
    Picofarad40,
    Picofarad80,
}

impl CSCap {
    /// The bits that stand for the value in its register field.
    #[verifier::opaque]
    pub open spec fn spec_to_bits(self) -> u8 {
        match self {
            CSCap::Picofarad40 => 0,
            CSCap::Picofarad80 => 1,
        }
    }

    /// The bits that stand for the value in its register field.
    #[verifier::when_used_as_spec(spec_to_bits)]
    pub fn to_bits(self) -> (b: u8)
        ensures
            b == self.spec_to_bits(),
            b < 2,
    {
        proof {
            reveal(CSCap::spec_to_bits);
        }
        match self {
            CSCap::Picofarad40 => 0,
            CSCap::Picofarad80 => 1,
        }
    }

    /// The value that the low bit of `bits` stands for.
    #[verifier::opaque]
    pub open spec fn spec_from_bits(bits: u8) -> Self {
        match bits % 2 {
            0 => CSCap::Picofarad40,
            _ => CSCap::Picofarad80,
        }
    }

    /// The value that the low bit of `bits` stands for.
    #[verifier::when_used_as_spec(spec_from_bits)]
    pub fn from_bits(bits: u8) -> (v: Self)
        ensures
            v == Self::spec_from_bits(bits),
    {
        proof {
            reveal(CSCap::spec_from_bits);
        }
        match bits % 2 {
            0 => CSCap::Picofarad40,
            _ => CSCap::Picofarad80,
        }
    }

    /// The bits of a value fit its register field and stand for that value.
    pub proof fn lemma_bits(self)
        ensures
            self.to_bits() < 2,
            Self::from_bits(self.to_bits()) == self,
    {
        reveal(CSCap::spec_to_bits);
        reveal(CSCap::spec_from_bits);
    }
}

/// Voltage that the charge-sharing capacitor is discharged to.
#[derive(Debug, Clone, Copy, PartialEq, Eq, Structural)]
pub enum CSDischarge {
    To0v,
    To0_5v,
}

impl CSDischarge {
    /// The bits that stand for the value in its register field.
    #[verifier::opaque]
    pub open spec fn spec_to_bits(self) -> u8 {
        match self {
            CSDischarge::To0v => 0,
            CSDischarge::To0_5v => 1,
        }
    }

    /// The bits that stand for the value in its register field.
    #[verifier::when_used_as_spec(spec_to_bits)]
    pub fn to_bits(self) -> (b: u8)
        ensures
            b == self.spec_to_bits(),
            b < 2,
    {
        proof {
            reveal(CSDischarge::spec_to_bits);
        }
        match self {
            CSDischarge::To0v => 0,
            CSDischarge::To0_5v => 1,
        }
    }

    /// The value that the low bit of `bits` stands for.
    #[verifier::opaque]
    pub open spec fn spec_from_bits(bits: u8) -> Self {
        match bits % 2 {
            0 => CSDischarge::To0v,
            _ => CSDischarge::To0_5v,
        }
    }

    /// The value that the low bit of `bits` stands for.
    #[verifier::when_used_as_spec(spec_from_bits)]
    pub fn from_bits(bits: u8) -> (v: Self)
        ensures
            v == Self::spec_from_bits(bits),
    {
        proof {
            reveal(CSDischarge::spec_from_bits);
        }
        match bits % 2 {
            0 => CSDischarge::To0v,
            _ => CSDischarge::To0_5v,
        }
    }

    /// The bits of a value fit its register field and stand for that value.
    pub proof fn lemma_bits(self)
        ensures
            self.to_bits() < 2,
            Self::from_bits(self.to_bits()) == self,
    {
        reveal(CSDischarge::spec_to_bits);
        reveal(CSDischarge::spec_from_bits);
    }
}

} // verus!
