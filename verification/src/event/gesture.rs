//! Gestures with the position or movement that goes with them.

use crate::event::Point;
use crate::report;
use crate::wire::{i16_from_le, le16, signed16, u16_from_le};
use crate::{Error, Iqs7211e};
use vstd::prelude::*;

verus! {

impl Iqs7211e {
    /// The gesture that the bytes of the gesture block stand for, if they
    /// stand for one. A gesture register that is zero, holds several flags
    /// or holds a bit that is no flag means no gesture; it is never an
    /// error.
    pub fn gesture<E>(raw: [u8; 6]) -> (g: Result<Option<Gesture>, Error<E>>)
        ensures
            g == Ok::<Option<Gesture>, Error<E>>(Gesture::decoding(raw@)),
    {
        Ok(Gesture::from_bytes(raw))
    }
}

/// A gesture that the device recognised, with where it happened.
#[derive(Debug, Clone, Copy, PartialEq, Eq, Structural)]
pub enum Gesture {
    Tap(TapCount, Point),
    PressHold(Point),
    Palm,
    Swipe(SwipeDirection, Vector),
    SwipeHold(SwipeDirection, Vector),
}

impl Gesture {
    pub fn is_swipe(&self) -> (s: bool)
        ensures
            s == (self is Swipe || self is SwipeHold),
    {
        matches!(self, Gesture::Swipe(_, _) | Gesture::SwipeHold(_, _))
    }

    pub fn is_tap(&self) -> (t: bool)
        ensures
            t == (self is Tap),
    {
        matches!(self, Gesture::Tap(_, _))
    }

    /// The gesture that a flag of the gesture register stands for, with the
    /// position or the movement that the coordinate registers hold.
    pub open spec fn with_payload(flag: report::Gesture, point: Point, vector: Vector) -> Gesture {
        match flag {
            report::Gesture::SingleTap => Gesture::Tap(TapCount::One, point),
            report::Gesture::DoubleTap => Gesture::Tap(TapCount::Two, point),
            report::Gesture::TripleTap => Gesture::Tap(TapCount::Three, point),
            report::Gesture::PressHold => Gesture::PressHold(point),
            report::Gesture::Palm => Gesture::Palm,
            report::Gesture::SwipeXPositive => Gesture::Swipe(SwipeDirection::XPositive, vector),
            report::Gesture::SwipeXNegative => Gesture::Swipe(SwipeDirection::XNegative, vector),
            report::Gesture::SwipeYPositive => Gesture::Swipe(SwipeDirection::YPositive, vector),
            report::Gesture::SwipeYNegative => Gesture::Swipe(SwipeDirection::YNegative, vector),
            report::Gesture::SwipeHoldXPositive => Gesture::SwipeHold(
                SwipeDirection::XPositive,
                vector,
            ),
            report::Gesture::SwipeHoldXNegative => Gesture::SwipeHold(
                SwipeDirection::XNegative,
                vector,
            ),
            report::Gesture::SwipeHoldYPositive => Gesture::SwipeHold(
                SwipeDirection::YPositive,
                vector,
            ),
            report::Gesture::SwipeHoldYNegative => Gesture::SwipeHold(
                SwipeDirection::YNegative,
                vector,
            ),
        }
    }

    /// The gesture that the six bytes of the gesture block stand for: two
    /// coordinates and the gesture register, each least significant byte
    /// first. Where the register holds no single known flag there is none.
    pub open spec fn decoding(b: Seq<u8>) -> Option<Gesture> {
        match report::Gesture::from_code(le16(b[4], b[5])) {
            Some(flag) => Some(
                Gesture::with_payload(
                    flag,
                    Point::decoding(b.subrange(0, 4)),
                    Vector::decoding(b.subrange(0, 4)),
                ),
            ),
            None => None,
        }
    }

    pub fn from_bytes(data: [u8; 6]) -> (g: Option<Gesture>)
        ensures
            g == Gesture::decoding(data@),
    {
        let payload = [data[0], data[1], data[2], data[3]];
        assert(payload@ =~= data@.subrange(0, 4));
        let point = Point::from_bytes(payload);
        let vector = Vector::from_bytes(payload);
        match report::Gesture::from_code(u16_from_le(data[4], data[5])) {
            Some(flag) => Some(
                match flag {
                    report::Gesture::SingleTap => Gesture::Tap(TapCount::One, point),
                    report::Gesture::DoubleTap => Gesture::Tap(TapCount::Two, point),
                    report::Gesture::TripleTap => Gesture::Tap(TapCount::Three, point),
                    report::Gesture::PressHold => Gesture::PressHold(point),
                    report::Gesture::Palm => Gesture::Palm,
                    report::Gesture::SwipeXPositive => Gesture::Swipe(
                        SwipeDirection::XPositive,
                        vector,
                    ),
                    report::Gesture::SwipeXNegative => Gesture::Swipe(
                        SwipeDirection::XNegative,
                        vector,
                    ),
                    report::Gesture::SwipeYPositive => Gesture::Swipe(
                        SwipeDirection::YPositive,
                        vector,
                    ),
                    report::Gesture::SwipeYNegative => Gesture::Swipe(
                        SwipeDirection::YNegative,
                        vector,
                    ),
                    report::Gesture::SwipeHoldXPositive => Gesture::SwipeHold(
                        SwipeDirection::XPositive,
                        vector,
                    ),
                    report::Gesture::SwipeHoldXNegative => Gesture::SwipeHold(
                        SwipeDirection::XNegative,
                        vector,
                    ),
                    report::Gesture::SwipeHoldYPositive => Gesture::SwipeHold(
                        SwipeDirection::YPositive,
                        vector,
                    ),
                    report::Gesture::SwipeHoldYNegative => Gesture::SwipeHold(
                        SwipeDirection::YNegative,
                        vector,
                    ),
                },
            ),
            None => None,
        }
    }
}

/// A movement on the trackpad.
#[derive(Debug, Clone, Copy, PartialEq, Eq, Structural)]
pub struct Vector {
    pub dx: i16,
    pub dy: i16,
}

impl Vector {
    pub fn new(dx: i16, dy: i16) -> (v: Self)
        ensures
            v == (Vector { dx, dy }),
    {
        Self { dx, dy }
    }

    /// The movement that four register bytes stand for: two signed numbers,
    /// each least significant byte first.
    pub open spec fn decoding(b: Seq<u8>) -> Vector {
        Vector { dx: signed16(le16(b[0], b[1])) as i16, dy: signed16(le16(b[2], b[3])) as i16 }
    }

    pub fn from_bytes(b: [u8; 4]) -> (v: Self)
        ensures
            v == Vector::decoding(b@),
    {
        Self::new(i16_from_le(b[0], b[1]), i16_from_le(b[2], b[3]))
    }
}

/// Number of taps in a tap gesture.
#[derive(Debug, Clone, Copy, PartialEq, Eq, Structural)]
pub enum TapCount {
    One,
    Two,
    Three,
}

impl TapCount {
    /// The number of taps.
    pub fn count(self) -> (n: u8)
        ensures
            n == match self {
                TapCount::One => 1u8,
                TapCount::Two => 2u8,
                TapCount::Three => 3u8,
            },
    {
        match self {
            TapCount::One => 1,
            TapCount::Two => 2,
            TapCount::Three => 3,
        }
    }
}

/// Direction of a swipe, by axis and sign.
#[derive(Debug, Clone, Copy, PartialEq, Eq, Structural)]
pub enum SwipeDirection {
    XPositive,
    XNegative,
    YPositive,
    YNegative,
}

impl SwipeDirection {
    pub fn is_horizontal(&self) -> (h: bool)
        ensures
            h == (self is XPositive || self is XNegative),
    {
        matches!(self, SwipeDirection::XPositive | SwipeDirection::XNegative)
    }

    pub fn is_vertical(&self) -> (v: bool)
        ensures
            v == (self is YPositive || self is YNegative),
    {
        matches!(self, SwipeDirection::YPositive | SwipeDirection::YNegative)
    }
}

} // verus!
