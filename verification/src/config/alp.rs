//! Setup of the alternate low-power channel.

use crate::rw::Record;
use crate::wire::{at, bits, field, flag, flag_bit, le16, le16_bytes, u16_from_le, u16_to_le};
use vstd::prelude::*;

verus! {

/// Setup of the alternate low-power channel.
#[derive(Debug, Clone, Copy, PartialEq, Eq, Structural)]
pub struct Alp {
    /// Rx enable bits, bit 0 for pad 0.
    pub rx: u8,
    pub sensing_mode: AlpSensingMode,
    pub count_filter: bool,
    /// Tx enable bits, bit 0 for pad 0. Thirteen bits.
    pub tx: u16,
}

impl Alp {
    /// The value with the given fields.
    pub fn new(sensing_mode: AlpSensingMode, count_filter: bool, rx: u8, tx: u16) -> (v: Self)
        ensures
            v == (Alp { rx, sensing_mode, count_filter, tx }),
    {
        Self { rx, sensing_mode, count_filter, tx }
    }

    /// The same settings with another mode.
    pub fn with_mode(self, mode: AlpSensingMode) -> (v: Self)
        ensures
            v == (Alp { sensing_mode: mode, ..self }),
    {
        Alp { sensing_mode: mode, ..self }
    }

    /// The same settings with the given count filter.
    pub fn with_count_filter(self, enabled: bool) -> (v: Self)
        ensures
            v == (Alp { count_filter: enabled, ..self }),
    {
        Alp { count_filter: enabled, ..self }
    }

    /// Every field fits the bits that the registers give it.
    pub open spec fn valid(self) -> bool {
        self.tx < 8192
    }

    /// The setup bits: sensing mode in bit 0, count filter in bit 1.
    #[verifier::opaque]
    pub open spec fn setup_word(self) -> int {
        at(self.sensing_mode.to_bits() as int, 0)
            + at(flag(self.count_filter), 1)
    }

    /// Each field of the setup word is read back from the place it was put.
    pub proof fn lemma_setup_word_fields(self)
        ensures
            0 <= self.setup_word() < 256,
            bits(self.setup_word(), 0, 1) == self.sensing_mode.to_bits(),
            bits(self.setup_word(), 1, 1) == flag(self.count_filter),
    {
        reveal(bits);
        reveal(flag);
        reveal(Alp::setup_word);
        self.sensing_mode.lemma_bits();
        let sensing_mode = self.sensing_mode.to_bits() as u16;
        let count_filter = flag(self.count_filter) as u16;
        let w = self.setup_word() as u16;
        assert(w % 2 == sensing_mode
            && (w / 2) % 2 == count_filter) by (bit_vector)
            requires
                sensing_mode < 2,
                count_filter < 2,
                w == sensing_mode + count_filter * 2,
        ;
    }

    /// The setup bits, as a number.
    pub fn to_setup_word(&self) -> (w: u8)
        ensures
            w == self.setup_word(),
    {
        proof {
            reveal(Alp::setup_word);
        }
        self.sensing_mode.to_bits()
            + flag_bit(self.count_filter) * 2
    }

    /// The Tx enable word: tx in bits 0 to 12.
    #[verifier::opaque]
    pub open spec fn tx_word(self) -> int {
        field(self.tx as int, 0, 13)
    }

    /// Each field of the tx word is read back from the place it was put.
    pub proof fn lemma_tx_word_fields(self)
        ensures
            0 <= self.tx_word() < 65536,
            bits(self.tx_word(), 0, 13) == self.tx % 8192,
    {
        reveal(bits);
        reveal(Alp::tx_word);
    }

    /// The Tx enable word, as a number.
    pub fn to_tx_word(&self) -> (w: u16)
        ensures
            w == self.tx_word(),
    {
        proof {
            reveal(Alp::tx_word);
        }
        self.tx % 8192
    }

    /// The register bytes: rx, the setup word, the tx word, each number least
    /// significant byte first.
    pub open spec fn encoding(self) -> Seq<u8> {
        seq![self.rx, self.setup_word() as u8] + le16_bytes(self.tx_word() as u16)
    }

    /// The value that four register bytes stand for.
    pub open spec fn decoding(b: Seq<u8>) -> Self {
        let setup = b[1] as int;
        let tx = le16(b[2], b[3]) as int;
        Alp {
            rx: b[0],
            sensing_mode: AlpSensingMode::from_bits(bits(setup, 0, 1) as u8),
            count_filter: bits(setup, 1, 1) != 0,
            tx: bits(tx, 0, 13) as u16,
        }
    }

    /// The register bytes of the value.
    pub fn to_bytes(&self) -> (b: [u8; 4])
        ensures
            b@ == self.encoding(),
    {
        let setup = self.to_setup_word();
        let tx = self.to_tx_word();
        let tx_bytes = u16_to_le(tx);
        let b = [self.rx, setup, tx_bytes[0], tx_bytes[1]];
        assert(b@ =~= self.encoding());
        b
    }

    /// The value that four register bytes stand for.
    pub fn from_bytes(b: [u8; 4]) -> (v: Self)
        ensures
            v == Self::decoding(b@),
    {
        proof {
            reveal(bits);
        }
        let setup = b[1];
        let tx = u16_from_le(b[2], b[3]);
        Self {
            rx: b[0],
            sensing_mode: AlpSensingMode::from_bits(setup % 2),
            count_filter: (setup / 2) % 2 != 0,
            tx: tx % 8192,
        }
    }

    /// Decoding undoes encoding, for fields within their bits.
    pub proof fn lemma_roundtrip(self)
        requires
            self.valid(),
        ensures
            self.encoding().len() == 4,
            Self::decoding(self.encoding()) == self,
    {
        self.lemma_setup_word_fields();
        reveal(flag);
        self.sensing_mode.lemma_bits();
        self.lemma_tx_word_fields();
    }

    /// The reference setup: projected capacitance, count filter on, no electrode.
    pub open spec fn default_value() -> Self {
        Alp { rx: 0, sensing_mode: AlpSensingMode::ProjectedCapacitance, count_filter: true, tx: 0 }
    }
}

impl Record<4> for Alp {
    open spec fn in_range(&self) -> bool {
        self.valid()
    }

    open spec fn bytes(&self) -> Seq<u8> {
        self.encoding()
    }

    open spec fn of_bytes(bytes: Seq<u8>) -> Option<Self> {
        Some(Alp::decoding(bytes))
    }

    fn pack(&self) -> (b: [u8; 4]) {
        self.to_bytes()
    }

    fn unpack(b: [u8; 4]) -> (v: Option<Self>) {
        Some(Alp::from_bytes(b))
    }

    proof fn lemma_of_bytes(&self) {
        self.lemma_roundtrip();
    }
}

impl Default for Alp {
    fn default() -> (v: Self)
        ensures
            v == Alp::default_value(),
    {
        Self::new(AlpSensingMode::ProjectedCapacitance, true, 0, 0)
    }
}

/// How the low-power channel senses.
#[derive(Debug, Clone, Copy, PartialEq, Eq, Structural)]
pub enum AlpSensingMode {
    SelfCapacitance,
    ProjectedCapacitance,
}

impl AlpSensingMode {
    /// The bits that stand for the value in its register field.
    #[verifier::opaque]
    pub open spec fn spec_to_bits(self) -> u8 {
        match self {
            AlpSensingMode::SelfCapacitance => 0,
            AlpSensingMode::ProjectedCapacitance => 1,
        }
    }

    /// The bits that stand for the value in its register field.
    #[verifier::when_used_as_spec(spec_to_bits)]
    pub fn to_bits(self) -> (b: u8)
        ensures
            b == self.spec_to_bits(),
            b < 2,
    {
        proof {
            reveal(AlpSensingMode::spec_to_bits);
        }
        match self {
            AlpSensingMode::SelfCapacitance => 0,
            AlpSensingMode::ProjectedCapacitance => 1,
        }
    }

    /// The value that the low bit of `bits` stands for.
    #[verifier::opaque]
    pub open spec fn spec_from_bits(bits: u8) -> Self {
        match bits % 2 {
            0 => AlpSensingMode::SelfCapacitance,
            _ => AlpSensingMode::ProjectedCapacitance,
        }
    }

    /// The value that the low bit of `bits` stands for.
    #[verifier::when_used_as_spec(spec_from_bits)]
    pub fn from_bits(bits: u8) -> (v: Self)
        ensures
            v == Self::spec_from_bits(bits),
    {
        proof {
            reveal(AlpSensingMode::spec_from_bits);
        }
        match bits % 2 {
            0 => AlpSensingMode::SelfCapacitance,
            _ => AlpSensingMode::ProjectedCapacitance,
        }
    }

    /// The bits of a value fit its register field and stand for that value.
    pub proof fn lemma_bits(self)
        ensures
            self.to_bits() < 2,
            Self::from_bits(self.to_bits()) == self,
    {
        reveal(AlpSensingMode::spec_to_bits);
        reveal(AlpSensingMode::spec_from_bits);
    }
}

} // verus!
