//! Events: what one communication window of the device amounts to.

pub mod gesture;
pub mod info;
pub mod touchpoint;

use crate::event::gesture::Gesture;
use crate::event::info::Info;
use crate::event::touchpoint::{Touchpoint, Touchpoints};
use crate::rw::Record;
use crate::wire::{le16, le16_bytes, u16_from_le, u16_to_le};
use crate::Error;
use vstd::prelude::*;

verus! {

/// A position on the trackpad.
#[derive(Debug, Clone, Copy, PartialEq, Eq, Structural)]
pub struct Point {
    pub x: u16,
    pub y: u16,
}

impl Point {
    /// The value with the given fields.
    pub fn new(x: u16, y: u16) -> (v: Self)
        ensures
            v == (Point { x, y }),
    {
        Self { x, y }
    }

    /// The register bytes: x, y, each number least significant byte first.
    pub open spec fn encoding(self) -> Seq<u8> {
        le16_bytes(self.x) + le16_bytes(self.y)
    }

    /// The value that four register bytes stand for.
    pub open spec fn decoding(b: Seq<u8>) -> Self {
        Point { x: le16(b[0], b[1]), y: le16(b[2], b[3]) }
    }

    /// The register bytes of the value.
    pub fn to_bytes(&self) -> (b: [u8; 4])
        ensures
            b@ == self.encoding(),
    {
        let x = u16_to_le(self.x);
        let y = u16_to_le(self.y);
        let b = [x[0], x[1], y[0], y[1]];
        assert(b@ =~= self.encoding());
        b
    }

    /// The value that four register bytes stand for.
    pub fn from_bytes(b: [u8; 4]) -> (v: Self)
        ensures
            v == Self::decoding(b@),
    {
        Self { x: u16_from_le(b[0], b[1]), y: u16_from_le(b[2], b[3]) }
    }

    /// Decoding undoes encoding.
    pub proof fn lemma_roundtrip(self)
        ensures
            self.encoding().len() == 4,
            Self::decoding(self.encoding()) == self,
    {
    }
}

impl Record<4> for Point {
    open spec fn in_range(&self) -> bool {
        true
    }

    open spec fn bytes(&self) -> Seq<u8> {
        self.encoding()
    }

    open spec fn of_bytes(bytes: Seq<u8>) -> Option<Self> {
        Some(Point::decoding(bytes))
    }

    fn pack(&self) -> (b: [u8; 4]) {
        self.to_bytes()
    }

    fn unpack(b: [u8; 4]) -> (v: Option<Self>) {
        Some(Point::from_bytes(b))
    }

    proof fn lemma_of_bytes(&self) {
        self.lemma_roundtrip();
    }
}

/// What the device reports when it signals an update.
#[derive(Debug, Clone, Copy, PartialEq, Eq, Structural)]
pub enum Event {
    Gesture(Gesture, Info),
    Touch(Touchpoint, Info),
    MultiTouch(Touchpoint, Touchpoint, Info),
}

impl Event {
    /// The event that one snapshot of the device amounts to: a gesture if
    /// there is one, else the contacts if the primary slot holds one, else
    /// nothing.
    pub open spec fn of_snapshot(
        gesture: Option<Gesture>,
        info: Info,
        touchpoints: Touchpoints,
    ) -> Option<Event> {
        match gesture {
            Some(g) => Some(Event::Gesture(g, info)),
            None => if !touchpoints.primary.is_empty() && !touchpoints.secondary.is_empty() {
                Some(Event::MultiTouch(touchpoints.primary, touchpoints.secondary, info))
            } else if !touchpoints.primary.is_empty() {
                Some(Event::Touch(touchpoints.primary, info))
            } else {
                None
            },
        }
    }

    /// The event that one snapshot of the device amounts to.
    pub fn from_snapshot(gesture: Option<Gesture>, info: Info, touchpoints: Touchpoints) -> (event:
        Option<Event>)
        ensures
            event == Event::of_snapshot(gesture, info, touchpoints),
    {
        match gesture {
            Some(g) => Some(Event::Gesture(g, info)),
            None => {
                if !touchpoints.primary.is_empty() && !touchpoints.secondary.is_empty() {
                    Some(Event::MultiTouch(touchpoints.primary, touchpoints.secondary, info))
                } else if !touchpoints.primary.is_empty() {
                    Some(Event::Touch(touchpoints.primary, info))
                } else {
                    None
                }
            },
        }
    }

    /// The outcome of one communication window, from the bytes of the
    /// gesture, status and finger registers read in it. A gesture block
    /// that names no gesture counts as no gesture, and is no error. Status
    /// bytes that stand for no status are an error.
    pub open spec fn of_registers<E>(
        gesture: Seq<u8>,
        info: Seq<u8>,
        touchpoints: Seq<u8>,
    ) -> Result<Option<Event>, Error<E>> {
        match Info::decoding(info) {
            Some(info) => Ok(
                Event::of_snapshot(
                    Gesture::decoding(gesture),
                    info,
                    Touchpoints::decoding(touchpoints),
                ),
            ),
            None => Err(Error::BufferOverflow),
        }
    }
}

/// The outcome of one communication window, from the bytes read in it: the
/// event, `None` where the window brought nothing to report and the next
/// one is to be awaited, or the error that ends the wait. All three blocks
/// have been read: a read that failed ends the wait before this point,
/// with the transport's error.
pub fn next_event<E>(gesture: [u8; 6], info: [u8; 2], touchpoints: [u8; 16]) -> (outcome: Result<
    Option<Event>,
    Error<E>,
>)
    ensures
        outcome == Event::of_registers::<E>(gesture@, info@, touchpoints@),
{
    match Info::from_bytes(info) {
        Some(info) => Ok(
            Event::from_snapshot(
                Gesture::from_bytes(gesture),
                info,
                Touchpoints::from_bytes(touchpoints),
            ),
        ),
        None => Err(Error::BufferOverflow),
    }
}

} // verus!
