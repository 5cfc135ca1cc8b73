//! The system control register, and the requests made through it.

use crate::rw::Record;
use crate::wire::{array_result, at, bits, flag, flag_bit, le16, le16_bytes, u16_from_le, u16_to_le};
use crate::{Error, Iqs7211e};
use vstd::prelude::*;

verus! {

impl Iqs7211e {
    /// The bytes to write back to the system control register, given the
    /// bytes read from it and the change to make. Bytes that stand for no
    /// control word are an error.
    pub open spec fn sys_control_update<E>(
        raw: Seq<u8>,
        change: spec_fn(SysControl) -> SysControl,
    ) -> Result<Seq<u8>, Error<E>> {
        match SysControl::decoding(raw) {
            Some(control) => Ok(change(control).encoding()),
            None => Err(Error::BufferOverflow),
        }
    }

    /// The system control register with the reset acknowledged, which
    /// clears the reset flag of the status.
    pub fn ack_reset<E>(raw: [u8; 2]) -> (r: Result<[u8; 2], Error<E>>)
        ensures
            array_result(r) == Self::sys_control_update::<E>(
                raw@,
                |c: SysControl| SysControl { ack_reset: true, ..c },
            ),
    {
        match SysControl::from_bytes(raw) {
            Some(control) => Ok(SysControl { ack_reset: true, ..control }.to_bytes()),
            None => Err(Error::BufferOverflow),
        }
    }

    /// The system control register with a new auto-tuning of the trackpad
    /// asked for.
    pub fn trigger_autotune<E>(raw: [u8; 2]) -> (r: Result<[u8; 2], Error<E>>)
        ensures
            array_result(r) == Self::sys_control_update::<E>(
                raw@,
                |c: SysControl| SysControl { trackpad_retune: true, ..c },
            ),
    {
        match SysControl::from_bytes(raw) {
            Some(control) => Ok(SysControl { trackpad_retune: true, ..control }.to_bytes()),
            None => Err(Error::BufferOverflow),
        }
    }

    /// The system control register with a new auto-tuning of the low-power
    /// channel asked for.
    pub fn trigger_autotune_for_alp<E>(raw: [u8; 2]) -> (r: Result<[u8; 2], Error<E>>)
        ensures
            array_result(r) == Self::sys_control_update::<E>(
                raw@,
                |c: SysControl| SysControl { alp_retune: true, ..c },
            ),
    {
        match SysControl::from_bytes(raw) {
            Some(control) => Ok(SysControl { alp_retune: true, ..control }.to_bytes()),
            None => Err(Error::BufferOverflow),
        }
    }

    /// The system control register with a software reset asked for.
    pub fn software_reset<E>(raw: [u8; 2]) -> (r: Result<[u8; 2], Error<E>>)
        ensures
            array_result(r) == Self::sys_control_update::<E>(
                raw@,
                |c: SysControl| SysControl { sw_reset: true, ..c },
            ),
    {
        match SysControl::from_bytes(raw) {
            Some(control) => Ok(SysControl { sw_reset: true, ..control }.to_bytes()),
            None => Err(Error::BufferOverflow),
        }
    }

    /// The system control register with another charge mode.
    pub fn set_charge_mode<E>(raw: [u8; 2], mode: ChargeMode) -> (r: Result<[u8; 2], Error<E>>)
        ensures
            array_result(r) == Self::sys_control_update::<E>(
                raw@,
                |c: SysControl| SysControl { charge_mode: mode, ..c },
            ),
    {
        match SysControl::from_bytes(raw) {
            Some(control) => Ok(SysControl { charge_mode: mode, ..control }.to_bytes()),
            None => Err(Error::BufferOverflow),
        }
    }
}

/// The system control register.
#[derive(Debug, Clone, Copy, PartialEq, Eq, Structural)]
pub struct SysControl {
    pub charge_mode: ChargeMode,
    pub trackpad_reseed: bool,
    pub alp_reseed: bool,
    pub trackpad_retune: bool,
    pub alp_retune: bool,
    pub ack_reset: bool,
    pub sw_reset: bool,
    pub suspend: bool,
    pub tx_test: bool,
}

impl SysControl {
    /// The control word: charge mode in bits 0 to 2, trackpad reseed in bit 3,
    /// alp reseed in bit 4, trackpad retune in bit 5, alp retune in bit 6, ack
    /// reset in bit 7, sw reset in bit 9, suspend in bit 11, tx test in bit 15.
    #[verifier::opaque]
    pub open spec fn word(self) -> int {
        at(self.charge_mode.to_bits() as int, 0)
            + at(flag(self.trackpad_reseed), 3)
            + at(flag(self.alp_reseed), 4)
            + at(flag(self.trackpad_retune), 5)
            + at(flag(self.alp_retune), 6)
            + at(flag(self.ack_reset), 7)
            + at(flag(self.sw_reset), 9)
            + at(flag(self.suspend), 11)
            + at(flag(self.tx_test), 15)
    }

    /// Each field of the word is read back from the place it was put.
    pub proof fn lemma_word_fields(self)
        ensures
            0 <= self.word() < 65536,
            bits(self.word(), 0, 3) == self.charge_mode.to_bits(),
            bits(self.word(), 3, 1) == flag(self.trackpad_reseed),
            bits(self.word(), 4, 1) == flag(self.alp_reseed),
            bits(self.word(), 5, 1) == flag(self.trackpad_retune),
            bits(self.word(), 6, 1) == flag(self.alp_retune),
            bits(self.word(), 7, 1) == flag(self.ack_reset),
            bits(self.word(), 9, 1) == flag(self.sw_reset),
            bits(self.word(), 11, 1) == flag(self.suspend),
            bits(self.word(), 15, 1) == flag(self.tx_test),
    {
        reveal(bits);
        reveal(flag);
        reveal(SysControl::word);
        self.charge_mode.lemma_bits();
        let charge_mode = self.charge_mode.to_bits() as u16;
        let trackpad_reseed = flag(self.trackpad_reseed) as u16;
        let alp_reseed = flag(self.alp_reseed) as u16;
        let trackpad_retune = flag(self.trackpad_retune) as u16;
        let alp_retune = flag(self.alp_retune) as u16;
        let ack_reset = flag(self.ack_reset) as u16;
        let sw_reset = flag(self.sw_reset) as u16;
        let suspend = flag(self.suspend) as u16;
        let tx_test = flag(self.tx_test) as u16;
        let w = self.word() as u16;
        assert(w % 8 == charge_mode
            && (w / 8) % 2 == trackpad_reseed
            && (w / 16) % 2 == alp_reseed
            && (w / 32) % 2 == trackpad_retune
            && (w / 64) % 2 == alp_retune
            && (w / 128) % 2 == ack_reset
            && (w / 512) % 2 == sw_reset
            && (w / 2048) % 2 == suspend
            && (w / 32768) % 2 == tx_test) by (bit_vector)
            requires
                charge_mode < 8,
                trackpad_reseed < 2,
                alp_reseed < 2,
                trackpad_retune < 2,
                alp_retune < 2,
                ack_reset < 2,
                sw_reset < 2,
                suspend < 2,
                tx_test < 2,
                w == charge_mode
                    + trackpad_reseed * 8
                    + alp_reseed * 16
                    + trackpad_retune * 32
                    + alp_retune * 64
                    + ack_reset * 128
                    + sw_reset * 512
                    + suspend * 2048
                    + tx_test * 32768,
        ;
    }

    /// The control word, as a number.
    pub fn to_word(&self) -> (w: u16)
        ensures
            w == self.word(),
    {
        proof {
            reveal(SysControl::word);
        }
        self.charge_mode.to_bits() as u16
            + (flag_bit(self.trackpad_reseed) as u16) * 8
            + (flag_bit(self.alp_reseed) as u16) * 16
            + (flag_bit(self.trackpad_retune) as u16) * 32
            + (flag_bit(self.alp_retune) as u16) * 64
            + (flag_bit(self.ack_reset) as u16) * 128
            + (flag_bit(self.sw_reset) as u16) * 512
            + (flag_bit(self.suspend) as u16) * 2048
            + (flag_bit(self.tx_test) as u16) * 32768
    }

    /// The register bytes: the word, each number least significant byte first.
    pub open spec fn encoding(self) -> Seq<u8> {
        le16_bytes(self.word() as u16)
    }

    /// The value that a register word stands for, if it stands for one.
    pub open spec fn of_word(w: int) -> Option<Self> {
        match ChargeMode::from_bits(bits(w, 0, 3) as u8) {
            Some(charge_mode) => Some(SysControl {
                charge_mode,
                trackpad_reseed: bits(w, 3, 1) != 0,
                alp_reseed: bits(w, 4, 1) != 0,
                trackpad_retune: bits(w, 5, 1) != 0,
                alp_retune: bits(w, 6, 1) != 0,
                ack_reset: bits(w, 7, 1) != 0,
                sw_reset: bits(w, 9, 1) != 0,
                suspend: bits(w, 11, 1) != 0,
                tx_test: bits(w, 15, 1) != 0,
            }),
            None => None,
        }
    }

    /// The value that two register bytes stand for, if they stand for one.
    pub open spec fn decoding(b: Seq<u8>) -> Option<Self> {
        Self::of_word(le16(b[0], b[1]) as int)
    }

    /// The register bytes of the value.
    pub fn to_bytes(&self) -> (b: [u8; 2])
        ensures
            b@ == self.encoding(),
    {
        u16_to_le(self.to_word())
    }

    /// The value that a register word stands for, if it stands for one.
    pub fn from_word(w: u16) -> (v: Option<Self>)
        ensures
            v == Self::of_word(w as int),
    {
        proof {
            reveal(bits);
        }
        match ChargeMode::from_bits((w % 8) as u8) {
            Some(charge_mode) => Some(Self {
                charge_mode,
                trackpad_reseed: (w / 8) % 2 != 0,
                alp_reseed: (w / 16) % 2 != 0,
                trackpad_retune: (w / 32) % 2 != 0,
                alp_retune: (w / 64) % 2 != 0,
                ack_reset: (w / 128) % 2 != 0,
                sw_reset: (w / 512) % 2 != 0,
                suspend: (w / 2048) % 2 != 0,
                tx_test: (w / 32768) % 2 != 0,
            }),
            None => None,
        }
    }

    /// The value that two register bytes stand for, if they stand for one.
    pub fn from_bytes(b: [u8; 2]) -> (v: Option<Self>)
        ensures
            v == Self::decoding(b@),
    {
        Self::from_word(u16_from_le(b[0], b[1]))
    }

    /// Decoding undoes encoding.
    pub proof fn lemma_roundtrip(self)
        ensures
            self.encoding().len() == 2,
            Self::of_word(self.word()) == Some(self),
            Self::decoding(self.encoding()) == Some(self),
    {
        self.lemma_word_fields();
        reveal(flag);
        self.charge_mode.lemma_bits();
    }

    /// The reference control word: the first low-power mode, no request pending.
    pub open spec fn default_value() -> Self {
        SysControl {
            charge_mode: ChargeMode::LowPower1,
            trackpad_reseed: false,
            alp_reseed: false,
            trackpad_retune: false,
            alp_retune: false,
            ack_reset: false,
            sw_reset: false,
            suspend: false,
            tx_test: false,
        }
    }
}

impl Record<2> for SysControl {
    open spec fn in_range(&self) -> bool {
        true
    }

    open spec fn bytes(&self) -> Seq<u8> {
        self.encoding()
    }

    open spec fn of_bytes(bytes: Seq<u8>) -> Option<Self> {
        SysControl::decoding(bytes)
    }

    fn pack(&self) -> (b: [u8; 2]) {
        self.to_bytes()
    }

    fn unpack(b: [u8; 2]) -> (v: Option<Self>) {
        SysControl::from_bytes(b)
    }

    proof fn lemma_of_bytes(&self) {
        self.lemma_roundtrip();
    }
}

impl Default for SysControl {
    fn default() -> (v: Self)
        ensures
            v == SysControl::default_value(),
    {
        Self {
            charge_mode: ChargeMode::LowPower1,
            trackpad_reseed: false,
            alp_reseed: false,
            trackpad_retune: false,
            alp_retune: false,
            ack_reset: false,
            sw_reset: false,
            suspend: false,
            tx_test: false,
        }
    }
}

/// Power mode of the sensing engine.
#[derive(Debug, Clone, Copy, PartialEq, Eq, Structural)]
pub enum ChargeMode {
    Active,
    IdleTouch,
    Idle,
    LowPower1,
    LowPower2,
}

impl ChargeMode {
    /// The bits that stand for the value in its register field.
    #[verifier::opaque]
    pub open spec fn spec_to_bits(self) -> u8 {
        match self {
            ChargeMode::Active => 0,
            ChargeMode::IdleTouch => 1,
            ChargeMode::Idle => 2,
            ChargeMode::LowPower1 => 3,
            ChargeMode::LowPower2 => 4,
        }
    }

    /// The bits that stand for the value in its register field.
    #[verifier::when_used_as_spec(spec_to_bits)]
    pub fn to_bits(self) -> (b: u8)
        ensures
            b == self.spec_to_bits(),
            b < 8,
    {
        proof {
            reveal(ChargeMode::spec_to_bits);
        }
        match self {
            ChargeMode::Active => 0,
            ChargeMode::IdleTouch => 1,
            ChargeMode::Idle => 2,
            ChargeMode::LowPower1 => 3,
            ChargeMode::LowPower2 => 4,
        }
    }

    /// The value that the low 3 bits of `bits` stand for, if they stand for one.
    #[verifier::opaque]
    pub open spec fn spec_from_bits(bits: u8) -> Option<Self> {
        match bits % 8 {
            0 => Some(ChargeMode::Active),
            1 => Some(ChargeMode::IdleTouch),
            2 => Some(ChargeMode::Idle),
            3 => Some(ChargeMode::LowPower1),
            4 => Some(ChargeMode::LowPower2),
            _ => None,
        }
    }

    /// The value that the low 3 bits of `bits` stand for, if they stand for one.
    #[verifier::when_used_as_spec(spec_from_bits)]
    pub fn from_bits(bits: u8) -> (v: Option<Self>)
        ensures
            v == Self::spec_from_bits(bits),
    {
        proof {
            reveal(ChargeMode::spec_from_bits);
        }
        match bits % 8 {
            0 => Some(ChargeMode::Active),
            1 => Some(ChargeMode::IdleTouch),
            2 => Some(ChargeMode::Idle),
            3 => Some(ChargeMode::LowPower1),
            4 => Some(ChargeMode::LowPower2),
            _ => None,
        }
    }

    /// The bits of a value fit its register field and stand for that value.
    pub proof fn lemma_bits(self)
        ensures
            self.to_bits() < 8,
            Self::from_bits(self.to_bits()) == Some(self),
    {
        reveal(ChargeMode::spec_to_bits);
        reveal(ChargeMode::spec_from_bits);
    }
}

} // verus!
