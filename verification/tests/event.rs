use iqs7211e::control::system_control::ChargeMode;
use iqs7211e::event::gesture::{Gesture, SwipeDirection, TapCount, Vector};
use iqs7211e::event::info::Info;
use iqs7211e::event::touchpoint::{Touchpoint, Touchpoints};
use iqs7211e::event::{next_event, Event, Point};
use iqs7211e::{Error, Iqs7211e};

fn info() -> Info {
    Info {
        charge_mode: ChargeMode::IdleTouch,
        auto_tuning_error: true,
        re_auto_tuning_occurred: false,
        alp_auto_tuning_error: true,
        alp_re_auto_tuning_occurred: true,
        show_reset: true,
        num_fingers: 2,
        trackpad_movement: false,
        too_many_fingers: true,
        alp_output: false,
    }
}

fn touch(x: u16, y: u16) -> Touchpoint {
    Touchpoint { point: Point::new(x, y), strength: 7, area: 9 }
}

fn empty() -> Touchpoint {
    Touchpoint { point: Point::new(0xFFFF, 0xFFFF), strength: 0, area: 0 }
}

#[test]
fn info_has_its_bits() {
    // Idle touch (1), errors in bits 3 and 5, low-power tuning done (6),
    // reset (7), two fingers (2 << 8), too many fingers (12).
    assert_eq!(info().to_word(), 0x12E9);
    assert_eq!(Info::from_bytes([0xE9, 0x12]), Some(info()));
    // Bits 11, 13 and 15 are reserved.
    assert_eq!(Info::from_bytes([0xE9, 0x12 | 0xA8]), Some(info()));
    assert_eq!(Info::from_bytes([0x06, 0x00]), None);
    // The finger count has two bits.
    assert_eq!(Info { num_fingers: 7, ..info() }.to_word(), 0x13E9);
    let status: Result<Info, Error<()>> = Iqs7211e::info([0xE9, 0x12]);
    assert_eq!(status.unwrap(), info());
    let status: Result<Info, Error<()>> = Iqs7211e::info([0x05, 0x00]);
    assert!(matches!(status, Err(Error::BufferOverflow)));
}

#[test]
fn touchpoints_have_their_bytes() {
    let t = Touchpoint { point: Point::new(0x0102, 0x0304), strength: 0x0506, area: 0x0708 };
    assert_eq!(t.to_bytes(), [0x02, 0x01, 0x04, 0x03, 0x06, 0x05, 0x08, 0x07]);
    assert_eq!(Touchpoint::from_bytes(t.to_bytes()), t);
    assert!(!t.is_empty());
    assert!(empty().is_empty());
    assert!(!touch(0xFFFF, 1).is_empty());
    assert!(!touch(1, 0xFFFF).is_empty());
    let both = Touchpoints { primary: t, secondary: empty() };
    let bytes = both.to_bytes();
    assert_eq!(&bytes[0..8], &t.to_bytes());
    assert_eq!(&bytes[8..16], &[0xFF, 0xFF, 0xFF, 0xFF, 0, 0, 0, 0]);
    assert_eq!(Iqs7211e::touchpoints(bytes).primary, t);
    assert_eq!(Iqs7211e::touchpoints(bytes).secondary, empty());
    assert_eq!(Point::from_bytes([0x02, 0x01, 0x04, 0x03]), Point::new(0x0102, 0x0304));
    assert_eq!(Point::new(1, 2).to_bytes(), [1, 0, 2, 0]);
}

#[test]
fn gesture_block_is_decoded() {
    // Position (10, 20), single tap.
    assert_eq!(
        Gesture::from_bytes([0x0A, 0x00, 0x14, 0x00, 0x01, 0x00]),
        Some(Gesture::Tap(TapCount::One, Point::new(10, 20)))
    );
    assert_eq!(
        Gesture::from_bytes([0x0A, 0x00, 0x14, 0x00, 0x02, 0x00]),
        Some(Gesture::Tap(TapCount::Two, Point::new(10, 20)))
    );
    assert_eq!(
        Gesture::from_bytes([0x0A, 0x00, 0x14, 0x00, 0x04, 0x00]),
        Some(Gesture::Tap(TapCount::Three, Point::new(10, 20)))
    );
    assert_eq!(
        Gesture::from_bytes([0x01, 0x02, 0x03, 0x04, 0x08, 0x00]),
        Some(Gesture::PressHold(Point::new(0x0201, 0x0403)))
    );
    assert_eq!(Gesture::from_bytes([1, 2, 3, 4, 0x10, 0x00]), Some(Gesture::Palm));
    // Movement (-10, 5), swipes and swipe-and-holds.
    let moved = Vector::new(-10, 5);
    let cases = [
        (0x01u8, Gesture::Swipe(SwipeDirection::XPositive, moved)),
        (0x02, Gesture::Swipe(SwipeDirection::XNegative, moved)),
        (0x04, Gesture::Swipe(SwipeDirection::YPositive, moved)),
        (0x08, Gesture::Swipe(SwipeDirection::YNegative, moved)),
        (0x10, Gesture::SwipeHold(SwipeDirection::XPositive, moved)),
        (0x20, Gesture::SwipeHold(SwipeDirection::XNegative, moved)),
        (0x40, Gesture::SwipeHold(SwipeDirection::YPositive, moved)),
        (0x80, Gesture::SwipeHold(SwipeDirection::YNegative, moved)),
    ];
    for (high, gesture) in cases {
        assert_eq!(Gesture::from_bytes([0xF6, 0xFF, 0x05, 0x00, 0x00, high]), Some(gesture));
    }
    // No flag, two flags, or a bit that is no flag: no gesture.
    assert_eq!(Gesture::from_bytes([1, 2, 3, 4, 0x00, 0x00]), None);
    assert_eq!(Gesture::from_bytes([1, 2, 3, 4, 0x03, 0x00]), None);
    assert_eq!(Gesture::from_bytes([1, 2, 3, 4, 0x20, 0x00]), None);
    assert_eq!(Gesture::from_bytes([1, 2, 3, 4, 0x01, 0x01]), None);
    let g: Result<Option<Gesture>, Error<()>> = Iqs7211e::gesture([1, 2, 3, 4, 0x10, 0x00]);
    assert_eq!(g.unwrap(), Some(Gesture::Palm));
    // No flag, several flags or an unknown bit: no gesture, and no error.
    for code in [[0x00u8, 0x00], [0x03, 0x00], [0x20, 0x00], [0x00, 0x03], [0xFF, 0xFF]] {
        let g: Result<Option<Gesture>, Error<()>> =
            Iqs7211e::gesture([1, 2, 3, 4, code[0], code[1]]);
        assert!(matches!(g, Ok(None)), "{:?}", code);
    }
}

#[test]
fn gesture_kinds() {
    let p = Point::new(1, 2);
    let v = Vector::new(3, -4);
    assert!(Gesture::Tap(TapCount::Two, p).is_tap());
    assert!(!Gesture::Tap(TapCount::Two, p).is_swipe());
    assert!(Gesture::Swipe(SwipeDirection::YNegative, v).is_swipe());
    assert!(Gesture::SwipeHold(SwipeDirection::XPositive, v).is_swipe());
    assert!(!Gesture::PressHold(p).is_tap());
    assert!(!Gesture::Palm.is_swipe());
    assert!(SwipeDirection::XPositive.is_horizontal());
    assert!(SwipeDirection::XNegative.is_horizontal());
    assert!(!SwipeDirection::XNegative.is_vertical());
    assert!(SwipeDirection::YPositive.is_vertical());
    assert!(SwipeDirection::YNegative.is_vertical());
    assert!(!SwipeDirection::YNegative.is_horizontal());
    assert_eq!(TapCount::One.count(), 1);
    assert_eq!(TapCount::Two.count(), 2);
    assert_eq!(TapCount::Three.count(), 3);
    assert_eq!(Vector::from_bytes([0xFF, 0xFF, 0x00, 0x80]), Vector::new(-1, i16::MIN));
}

#[test]
fn a_gesture_comes_before_the_contacts() {
    let g = Gesture::Palm;
    let both = Touchpoints { primary: touch(1, 2), secondary: touch(3, 4) };
    assert_eq!(Event::from_snapshot(Some(g), info(), both), Some(Event::Gesture(g, info())));
    assert_eq!(
        Event::from_snapshot(None, info(), both),
        Some(Event::MultiTouch(touch(1, 2), touch(3, 4), info()))
    );
    let one = Touchpoints { primary: touch(1, 2), secondary: empty() };
    assert_eq!(Event::from_snapshot(None, info(), one), Some(Event::Touch(touch(1, 2), info())));
    // A contact in the secondary slot alone is no event.
    let second = Touchpoints { primary: empty(), secondary: touch(3, 4) };
    assert_eq!(Event::from_snapshot(None, info(), second), None);
    let none = Touchpoints { primary: empty(), secondary: empty() };
    assert_eq!(Event::from_snapshot(None, info(), none), None);
}

#[test]
fn one_window_gives_an_event_or_none() {
    let one = Touchpoints { primary: touch(1, 2), secondary: empty() };
    let tap = [0x0A, 0x00, 0x14, 0x00, 0x01, 0x00];
    let nothing = [0u8; 6];

    let r: Result<Option<Event>, Error<()>> = next_event(tap, info().to_bytes(), one.to_bytes());
    assert_eq!(
        r.unwrap(),
        Some(Event::Gesture(Gesture::Tap(TapCount::One, Point::new(10, 20)), info()))
    );
    // No gesture, or a gesture register that names none: the contacts.
    for gesture in [nothing, [0x0A, 0x00, 0x14, 0x00, 0x03, 0x00]] {
        let r: Result<Option<Event>, Error<()>> =
            next_event(gesture, info().to_bytes(), one.to_bytes());
        assert_eq!(r.unwrap(), Some(Event::Touch(touch(1, 2), info())));
    }
    // Nothing at all: wait for the next window.
    let none = Touchpoints { primary: empty(), secondary: empty() };
    let r: Result<Option<Event>, Error<()>> =
        next_event(nothing, info().to_bytes(), none.to_bytes());
    assert_eq!(r.unwrap(), None);
    // Status that cannot be decoded ends the wait, even with a gesture.
    let r: Result<Option<Event>, Error<()>> = next_event(tap, [0x05, 0], one.to_bytes());
    assert!(matches!(r, Err(Error::BufferOverflow)));
}
