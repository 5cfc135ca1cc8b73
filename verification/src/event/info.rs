//! The status flags of the device.

use crate::control::system_control::ChargeMode;
use crate::rw::Record;
use crate::wire::{at, bits, field, flag, flag_bit, le16, le16_bytes, u16_from_le, u16_to_le};
use crate::{Error, Iqs7211e};
use vstd::prelude::*;

verus! {

impl Iqs7211e {
    /// The status that the bytes of the status register stand for. Bytes
    /// that stand for no status are an error.
    pub fn info<E>(raw: [u8; 2]) -> (status: Result<Info, Error<E>>)
        ensures
            status == match Info::decoding(raw@) {
                Some(info) => Ok::<Info, Error<E>>(info),
                None => Err(Error::BufferOverflow),
            },
    {
        match Info::from_bytes(raw) {
            Some(info) => Ok(info),
            None => Err(Error::BufferOverflow),
        }
    }
}

/// Status flags of the device.
#[derive(Debug, Clone, Copy, PartialEq, Eq, Structural)]
pub struct Info {
    pub charge_mode: ChargeMode,
    pub auto_tuning_error: bool,
    pub re_auto_tuning_occurred: bool,
    pub alp_auto_tuning_error: bool,
    pub alp_re_auto_tuning_occurred: bool,
    pub show_reset: bool,
    /// Two bits.
    pub num_fingers: u8,
    pub trackpad_movement: bool,
    pub too_many_fingers: bool,
    pub alp_output: bool,
}

impl Info {
    /// Every field fits the bits that the registers give it.
    pub open spec fn valid(self) -> bool {
        self.num_fingers < 4
    }

    /// The status word: charge mode in bits 0 to 2, auto tuning error in bit 3,
    /// re auto tuning occurred in bit 4, alp auto tuning error in bit 5, alp re
    /// auto tuning occurred in bit 6, show reset in bit 7, num fingers in bits
    /// 8 to 9, trackpad movement in bit 10, too many fingers in bit 12, alp
    /// output in bit 14.
    #[verifier::opaque]
    pub open spec fn word(self) -> int {
        at(self.charge_mode.to_bits() as int, 0)
            + at(flag(self.auto_tuning_error), 3)
            + at(flag(self.re_auto_tuning_occurred), 4)
            + at(flag(self.alp_auto_tuning_error), 5)
            + at(flag(self.alp_re_auto_tuning_occurred), 6)
            + at(flag(self.show_reset), 7)
            + field(self.num_fingers as int, 8, 2)
            + at(flag(self.trackpad_movement), 10)
            + at(flag(self.too_many_fingers), 12)
            + at(flag(self.alp_output), 14)
    }

    /// Each field of the word is read back from the place it was put.
    pub proof fn lemma_word_fields(self)
        ensures
            0 <= self.word() < 65536,
            bits(self.word(), 0, 3) == self.charge_mode.to_bits(),
            bits(self.word(), 3, 1) == flag(self.auto_tuning_error),
            bits(self.word(), 4, 1) == flag(self.re_auto_tuning_occurred),
            bits(self.word(), 5, 1) == flag(self.alp_auto_tuning_error),
            bits(self.word(), 6, 1) == flag(self.alp_re_auto_tuning_occurred),
            bits(self.word(), 7, 1) == flag(self.show_reset),
            bits(self.word(), 8, 2) == self.num_fingers % 4,
            bits(self.word(), 10, 1) == flag(self.trackpad_movement),
            bits(self.word(), 12, 1) == flag(self.too_many_fingers),
            bits(self.word(), 14, 1) == flag(self.alp_output),
    {
        reveal(bits);
        reveal(flag);
        reveal(Info::word);
        self.charge_mode.lemma_bits();
        let charge_mode = self.charge_mode.to_bits() as u16;
        let auto_tuning_error = flag(self.auto_tuning_error) as u16;
        let re_auto_tuning_occurred = flag(self.re_auto_tuning_occurred) as u16;
        let alp_auto_tuning_error = flag(self.alp_auto_tuning_error) as u16;
        let alp_re_auto_tuning_occurred = flag(self.alp_re_auto_tuning_occurred) as u16;
        let show_reset = flag(self.show_reset) as u16;
        let num_fingers = (self.num_fingers % 4) as u16;
        let trackpad_movement = flag(self.trackpad_movement) as u16;
        let too_many_fingers = flag(self.too_many_fingers) as u16;
        let alp_output = flag(self.alp_output) as u16;
        let w = self.word() as u16;
        assert(w % 8 == charge_mode
            && (w / 8) % 2 == auto_tuning_error
            && (w / 16) % 2 == re_auto_tuning_occurred
            && (w / 32) % 2 == alp_auto_tuning_error
            && (w / 64) % 2 == alp_re_auto_tuning_occurred
            && (w / 128) % 2 == show_reset
            && (w / 256) % 4 == num_fingers
            && (w / 1024) % 2 == trackpad_movement
            && (w / 4096) % 2 == too_many_fingers
            && (w / 16384) % 2 == alp_output) by (bit_vector)
            requires
                charge_mode < 8,
                auto_tuning_error < 2,
                re_auto_tuning_occurred < 2,
                alp_auto_tuning_error < 2,
                alp_re_auto_tuning_occurred < 2,
                show_reset < 2,
                num_fingers < 4,
                trackpad_movement < 2,
                too_many_fingers < 2,
                alp_output < 2,
                w == charge_mode
                    + auto_tuning_error * 8
                    + re_auto_tuning_occurred * 16
                    + alp_auto_tuning_error * 32
                    + alp_re_auto_tuning_occurred * 64
                    + show_reset * 128
                    + num_fingers * 256
                    + trackpad_movement * 1024
                    + too_many_fingers * 4096
                    + alp_output * 16384,
        ;
    }

    /// The status word, as a number.
    pub fn to_word(&self) -> (w: u16)
        ensures
            w == self.word(),
    {
        proof {
            reveal(Info::word);
        }
        self.charge_mode.to_bits() as u16
            + (flag_bit(self.auto_tuning_error) as u16) * 8
            + (flag_bit(self.re_auto_tuning_occurred) as u16) * 16
            + (flag_bit(self.alp_auto_tuning_error) as u16) * 32
            + (flag_bit(self.alp_re_auto_tuning_occurred) as u16) * 64
            + (flag_bit(self.show_reset) as u16) * 128
            + ((self.num_fingers % 4) as u16) * 256
            + (flag_bit(self.trackpad_movement) as u16) * 1024
            + (flag_bit(self.too_many_fingers) as u16) * 4096
            + (flag_bit(self.alp_output) as u16) * 16384
    }

    /// The register bytes: the word, each number least significant byte first.
    pub open spec fn encoding(self) -> Seq<u8> {
        le16_bytes(self.word() as u16)
    }

    /// The value that a register word stands for, if it stands for one.
    pub open spec fn of_word(w: int) -> Option<Self> {
        match ChargeMode::from_bits(bits(w, 0, 3) as u8) {
            Some(charge_mode) => Some(Info {
                charge_mode,
                auto_tuning_error: bits(w, 3, 1) != 0,
                re_auto_tuning_occurred: bits(w, 4, 1) != 0,
                alp_auto_tuning_error: bits(w, 5, 1) != 0,
                alp_re_auto_tuning_occurred: bits(w, 6, 1) != 0,
                show_reset: bits(w, 7, 1) != 0,
                num_fingers: bits(w, 8, 2) as u8,
                trackpad_movement: bits(w, 10, 1) != 0,
                too_many_fingers: bits(w, 12, 1) != 0,
                alp_output: bits(w, 14, 1) != 0,
            }),
            None => None,
        }
    }

    /// The value that two register bytes stand for, if they stand for one.
    pub open spec fn decoding(b: Seq<u8>) -> Option<Self> {
        Self::of_word(le16(b[0], b[1]) as int)
    }

    /// The register bytes of the value.
    pub fn to_bytes(&self) -> (b: [u8; 2])
        ensures
            b@ == self.encoding(),
    {
        u16_to_le(self.to_word())
    }

    /// The value that a register word stands for, if it stands for one.
    pub fn from_word(w: u16) -> (v: Option<Self>)
        ensures
            v == Self::of_word(w as int),
    {
        proof {
            reveal(bits);
        }
        match ChargeMode::from_bits((w % 8) as u8) {
            Some(charge_mode) => Some(Self {
                charge_mode,
                auto_tuning_error: (w / 8) % 2 != 0,
                re_auto_tuning_occurred: (w / 16) % 2 != 0,
                alp_auto_tuning_error: (w / 32) % 2 != 0,
                alp_re_auto_tuning_occurred: (w / 64) % 2 != 0,
                show_reset: (w / 128) % 2 != 0,
                num_fingers: ((w / 256) % 4) as u8,
                trackpad_movement: (w / 1024) % 2 != 0,
                too_many_fingers: (w / 4096) % 2 != 0,
                alp_output: (w / 16384) % 2 != 0,
            }),
            None => None,
        }
    }

    /// The value that two register bytes stand for, if they stand for one.
    pub fn from_bytes(b: [u8; 2]) -> (v: Option<Self>)
        ensures
            v == Self::decoding(b@),
    {
        Self::from_word(u16_from_le(b[0], b[1]))
    }

    /// Decoding undoes encoding, for fields within their bits.
    pub proof fn lemma_roundtrip(self)
        requires
            self.valid(),
        ensures
            self.encoding().len() == 2,
            Self::of_word(self.word()) == Some(self),
            Self::decoding(self.encoding()) == Some(self),
    {
        self.lemma_word_fields();
        reveal(flag);
        self.charge_mode.lemma_bits();
    }
}

impl Record<2> for Info {
    open spec fn in_range(&self) -> bool {
        self.valid()
    }

    open spec fn bytes(&self) -> Seq<u8> {
        self.encoding()
    }

    open spec fn of_bytes(bytes: Seq<u8>) -> Option<Self> {
        Info::decoding(bytes)
    }

    fn pack(&self) -> (b: [u8; 2]) {
        self.to_bytes()
    }

    fn unpack(b: [u8; 2]) -> (v: Option<Self>) {
        Info::from_bytes(b)
    }

    proof fn lemma_of_bytes(&self) {
        self.lemma_roundtrip();
    }
}

} // verus!
