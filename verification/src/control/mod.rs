//! Control registers and the identification block.

pub mod config_settings;
pub mod system_control;

use crate::Iqs7211e;
use crate::rw::Record;
use crate::wire::{le16, le16_bytes, le32, le32_bytes, u16_from_le, u16_to_le, u32_from_le, u32_to_le};
use vstd::prelude::*;

verus! {

impl Iqs7211e {
    /// The product number and firmware revision that the bytes of the
    /// identification block stand for.
    pub fn app_version(raw: [u8; 10]) -> (version: Version)
        ensures
            version == Version::decoding(raw@),
    {
        Version::from_bytes(raw)
    }
}

/// Product number and firmware revision, as the identification block holds
/// them.
#[derive(Debug, Clone, Copy, PartialEq, Eq, Structural)]
pub struct Version {
    pub number: u16,
    pub major: u8,
    pub minor: u8,
    pub commit: u32,
}

impl Version {
    /// The register bytes: number, major, one unused byte, minor, one unused
    /// byte, commit, each number least significant byte first.
    pub open spec fn encoding(self) -> Seq<u8> {
        le16_bytes(self.number)
            + seq![self.major, 0u8, self.minor, 0u8]
            + le32_bytes(self.commit)
    }

    /// The value that ten register bytes stand for.
    pub open spec fn decoding(b: Seq<u8>) -> Self {
        Version {
            number: le16(b[0], b[1]),
            major: b[2],
            minor: b[4],
            commit: le32(b[6], b[7], b[8], b[9]),
        }
    }

    /// The register bytes of the value.
    pub fn to_bytes(&self) -> (b: [u8; 10])
        ensures
            b@ == self.encoding(),
    {
        let number = u16_to_le(self.number);
        let commit = u32_to_le(self.commit);
        let b = [
            number[0], number[1], self.major, 0, self.minor, 0,
            commit[0], commit[1], commit[2], commit[3],
        ];
        assert(b@ =~= self.encoding());
        b
    }

    /// The value that ten register bytes stand for.
    pub fn from_bytes(b: [u8; 10]) -> (v: Self)
        ensures
            v == Self::decoding(b@),
    {
        Self {
            number: u16_from_le(b[0], b[1]),
            major: b[2],
            minor: b[4],
            commit: u32_from_le(b[6], b[7], b[8], b[9]),
        }
    }

    /// Decoding undoes encoding.
    pub proof fn lemma_roundtrip(self)
        ensures
            self.encoding().len() == 10,
            Self::decoding(self.encoding()) == self,
    {
    }
}

impl Record<10> for Version {
    open spec fn in_range(&self) -> bool {
        true
    }

    open spec fn bytes(&self) -> Seq<u8> {
        self.encoding()
    }

    open spec fn of_bytes(bytes: Seq<u8>) -> Option<Self> {
        Some(Version::decoding(bytes))
    }

    fn pack(&self) -> (b: [u8; 10]) {
        self.to_bytes()
    }

    fn unpack(b: [u8; 10]) -> (v: Option<Self>) {
        Some(Version::from_bytes(b))
    }

    proof fn lemma_of_bytes(&self) {
        self.lemma_roundtrip();
    }
}

} // verus!
