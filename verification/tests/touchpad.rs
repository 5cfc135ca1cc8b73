use iqs7211e::config::Config;
use iqs7211e::control::system_control::ChargeMode;
use iqs7211e::report::{Finger, Gesture, InfoFlags, Report};
use iqs7211e::touchpad::{
    build_contacts, classify_transition, movement_direction, Changes, ContactSlot, Frame, State,
    SwipeDirection, Touch, TouchPhase, Touchpad,
};
use iqs7211e::Iqs7211e;

fn quiet_flags() -> InfoFlags {
    InfoFlags {
        charge_mode: ChargeMode::Active,
        auto_tuning_error: false,
        re_auto_tuning_occurred: false,
        low_power_auto_tuning_error: false,
        low_power_re_auto_tuning_occurred: false,
        show_reset: false,
        num_fingers: 0,
        trackpad_movement: false,
        too_many_fingers: false,
        low_power_output: false,
    }
}

#[test]
fn classify_start() {
    let prev = Finger::absent();
    let current = Finger::new(10, 20, 30, 40);
    let contact = classify_transition(ContactSlot::Primary, prev, current).expect("start contact");
    assert_eq!(contact.phase, TouchPhase::Start);
    assert!(contact.is_primary());
    assert!(contact.phase.is_start());
    assert_eq!(contact.point.x, 10);
}

#[test]
fn classify_move_requires_change() {
    let finger = Finger::new(10, 20, 30, 40);
    assert!(classify_transition(ContactSlot::Primary, finger, finger).is_none());

    let moved = Finger::new(11, 20, 30, 40);
    let contact = classify_transition(ContactSlot::Primary, finger, moved).expect("move contact");
    assert_eq!(contact.phase, TouchPhase::Move);
    assert!(contact.phase.is_move());
    assert_eq!(contact.point.x, 11);
}

#[test]
fn classify_end_uses_previous_snapshot() {
    let prev = Finger::new(10, 20, 30, 40);
    let current = Finger::absent();
    let contact = classify_transition(ContactSlot::Secondary, prev, current).expect("end contact");
    assert_eq!(contact.phase, TouchPhase::End);
    assert!(contact.is_secondary());
    assert!(contact.phase.is_end());
    assert_eq!(contact.point.x, 10);
}

#[test]
fn contact_events_iteration() {
    let primary = Touch::new(ContactSlot::Primary, TouchPhase::Start, Finger::new(1, 2, 3, 4));
    let events = Changes::new(Some(primary), None);
    let mut iter = events.iter().into_iter();
    assert!(matches!(iter.next(), Some(c) if matches!(c.slot, ContactSlot::Primary)));
    assert!(iter.next().is_none());
}

#[test]
fn touch_state_operations() {
    let first = Finger::new(10, 20, 100, 50);
    let second = Finger::new(30, 40, 200, 100);

    let state = State::new(Some(first), Some(second));

    assert_eq!(state.count(), 2);
    assert!(state.is_multi_touch());
    assert!(!state.is_empty());

    let centroid = state.centroid().expect("centroid");
    assert_eq!(centroid.x, 20); // (10 + 30) / 2
    assert_eq!(centroid.y, 30); // (20 + 40) / 2
    assert_eq!(centroid.strength, 150); // (100 + 200) / 2
}

#[test]
fn contact_events_phase_filtering() {
    let start_contact =
        Touch::new(ContactSlot::Primary, TouchPhase::Start, Finger::new(10, 10, 100, 50));
    let end_contact =
        Touch::new(ContactSlot::Secondary, TouchPhase::End, Finger::new(20, 20, 150, 75));

    let events = Changes::new(Some(start_contact), Some(end_contact));

    assert!(events.has_starts());
    assert!(events.has_ends());
    assert!(!events.has_moves());

    let starts_count = events.contacts_with_phase(TouchPhase::Start).into_iter().count();
    assert_eq!(starts_count, 1);

    let start_found = events.contacts_with_phase(TouchPhase::Start).into_iter().next().unwrap();
    assert!(start_found.is_primary());
}

#[test]
fn gesture_classification() {
    let info_flags = InfoFlags {
        charge_mode: ChargeMode::Active,
        auto_tuning_error: false,
        re_auto_tuning_occurred: false,
        low_power_auto_tuning_error: false,
        low_power_re_auto_tuning_occurred: false,
        show_reset: false,
        num_fingers: 0,
        trackpad_movement: false,
        too_many_fingers: false,
        low_power_output: false,
    };

    let swipe_report = Frame::new(
        info_flags,
        Some(Gesture::SwipeXPositive),
        Changes::new(None, None),
        State::new(None, None),
    );

    assert!(swipe_report.is_swipe_gesture());
    assert!(!swipe_report.is_tap_gesture());
    assert_eq!(swipe_report.swipe_direction(), Some(SwipeDirection::Right));

    let tap_report = Frame::new(
        info_flags,
        Some(Gesture::DoubleTap),
        Changes::new(None, None),
        State::new(None, None),
    );

    assert!(tap_report.is_tap_gesture());
    assert!(!tap_report.is_swipe_gesture());
}

#[test]
fn swipe_direction_properties() {
    assert!(SwipeDirection::Left.is_horizontal());
    assert!(SwipeDirection::Right.is_horizontal());
    assert!(SwipeDirection::Up.is_vertical());
    assert!(SwipeDirection::Down.is_vertical());

    assert_eq!(SwipeDirection::Left.opposite(), SwipeDirection::Right);
    assert_eq!(SwipeDirection::Up.opposite(), SwipeDirection::Down);
}

#[test]
fn contact_slot_properties() {
    assert!(ContactSlot::Primary.is_primary());
    assert!(!ContactSlot::Primary.is_secondary());
    assert!(ContactSlot::Secondary.is_secondary());
    assert!(!ContactSlot::Secondary.is_primary());
}

#[test]
fn session_detection() {
    let info_flags = InfoFlags {
        charge_mode: ChargeMode::Active,
        auto_tuning_error: false,
        re_auto_tuning_occurred: false,
        low_power_auto_tuning_error: false,
        low_power_re_auto_tuning_occurred: false,
        show_reset: false,
        num_fingers: 0,
        trackpad_movement: false,
        too_many_fingers: false,
        low_power_output: false,
    };

    // Session start: the first contact begins.
    let start_contact =
        Touch::new(ContactSlot::Primary, TouchPhase::Start, Finger::new(10, 10, 100, 50));
    let start_report = Frame::new(
        info_flags,
        None,
        Changes::new(Some(start_contact), None),
        State::new(Some(Finger::new(10, 10, 100, 50)), None),
    );

    assert!(start_report.is_session_start());
    assert!(!start_report.is_session_end());

    // Session end: the last contact ends.
    let end_contact =
        Touch::new(ContactSlot::Primary, TouchPhase::End, Finger::new(10, 10, 100, 50));
    let end_report = Frame::new(
        info_flags,
        None,
        Changes::new(Some(end_contact), None),
        State::new(None, None),
    );

    assert!(!end_report.is_session_start());
    assert!(end_report.is_session_end());
}

#[test]
fn first_contact_is_a_start_in_the_primary_slot() {
    let previous = (Finger::absent(), Finger::absent());
    let finger = Finger::new(10, 20, 30, 40);
    let report = Report::new(None, quiet_flags(), (finger, Finger::absent()));
    let (changes, state) = build_contacts(previous, report);
    assert_eq!(
        changes,
        Changes::new(Some(Touch::new(ContactSlot::Primary, TouchPhase::Start, finger)), None)
    );
    assert_eq!(changes.primary(), Some(Touch::new(ContactSlot::Primary, TouchPhase::Start, finger)));
    assert_eq!(changes.secondary(), None);
    assert_eq!(state, State::new(Some(finger), None));
    assert_eq!(changes.count(), 1);
    assert!(!changes.is_empty());
}

#[test]
fn unchanged_contact_gives_no_event() {
    let a = Finger::new(10, 20, 30, 40);
    let b = Finger::new(300, 400, 5, 6);
    for slot in [ContactSlot::Primary, ContactSlot::Secondary] {
        assert_eq!(classify_transition(slot, a, a), None);
        assert_eq!(classify_transition(slot, b, b), None);
        assert_eq!(classify_transition(slot, Finger::absent(), Finger::absent()), None);
    }
    let report = Report::new(None, quiet_flags(), (a, b));
    let (changes, state) = build_contacts((a, b), report);
    assert!(changes.is_empty());
    assert_eq!(changes.count(), 0);
    assert_eq!(state.count(), 2);
}

#[test]
fn a_change_of_strength_or_area_is_a_move() {
    let a = Finger::new(10, 20, 30, 40);
    let stronger = Finger::new(10, 20, 31, 40);
    let wider = Finger::new(10, 20, 30, 41);
    assert_eq!(
        classify_transition(ContactSlot::Secondary, a, stronger),
        Some(Touch::new(ContactSlot::Secondary, TouchPhase::Move, stronger))
    );
    assert_eq!(
        classify_transition(ContactSlot::Primary, a, wider),
        Some(Touch::new(ContactSlot::Primary, TouchPhase::Move, wider))
    );
}

#[test]
fn state_accessors() {
    let p = Finger::new(1, 2, 3, 4);
    let s = Finger::new(5, 6, 7, 8);
    let state = State::new(None, Some(s));
    assert_eq!(state.primary(), None);
    assert_eq!(state.secondary(), Some(s));
    assert_eq!(state.get(ContactSlot::Primary), None);
    assert_eq!(state.get(ContactSlot::Secondary), Some(s));
    assert_eq!(state.iter(), vec![s]);
    assert_eq!(state.count(), 1);
    assert_eq!(state.centroid(), Some(s));
    assert_eq!(State::new(Some(p), None).centroid(), Some(p));
    assert_eq!(State::new(None, None).centroid(), None);
    assert_eq!(State::new(Some(p), Some(s)).iter(), vec![p, s]);
    // The mean is rounded down, and does not overflow.
    let far = Finger::new(0xFFFE, 0xFFFF, 0xFFFF, 1);
    let c = State::new(Some(far), Some(Finger::new(0xFFFF, 0xFFFF, 0, 2))).centroid().unwrap();
    assert_eq!(c, Finger::new(0xFFFE, 0xFFFF, 0x7FFF, 1));
}

#[test]
fn changes_accessors() {
    let mv = Touch::new(ContactSlot::Secondary, TouchPhase::Move, Finger::new(1, 2, 3, 4));
    let changes = Changes::new(None, Some(mv));
    assert_eq!(changes.get(ContactSlot::Primary), None);
    assert_eq!(changes.get(ContactSlot::Secondary), Some(mv));
    assert!(changes.has_moves());
    assert!(!changes.has_starts());
    assert!(!changes.has_ends());
    assert_eq!(changes.contacts_with_phase(TouchPhase::Move), vec![mv]);
    assert!(changes.contacts_with_phase(TouchPhase::End).is_empty());
    assert_eq!(changes.iter(), vec![mv]);
}

#[test]
fn phase_slot_and_direction_names() {
    assert_eq!(TouchPhase::Start.as_str(), "start");
    assert_eq!(TouchPhase::Move.as_str(), "move");
    assert_eq!(TouchPhase::End.as_str(), "end");
    assert_eq!(ContactSlot::Primary.as_str(), "primary");
    assert_eq!(ContactSlot::Secondary.as_str(), "secondary");
    assert_eq!(SwipeDirection::Right.as_str(), "right");
    assert_eq!(SwipeDirection::Left.as_str(), "left");
    assert_eq!(SwipeDirection::Up.as_str(), "up");
    assert_eq!(SwipeDirection::Down.as_str(), "down");
    assert_eq!(SwipeDirection::Right.opposite(), SwipeDirection::Left);
    assert_eq!(SwipeDirection::Down.opposite(), SwipeDirection::Up);
    assert!(!SwipeDirection::Up.is_horizontal());
    assert!(!SwipeDirection::Left.is_vertical());
}

#[test]
fn movement_follows_the_larger_distance() {
    let from = Finger::new(100, 100, 1, 1);
    assert_eq!(movement_direction(from, Finger::new(150, 120, 1, 1)), SwipeDirection::Right);
    assert_eq!(movement_direction(from, Finger::new(50, 120, 1, 1)), SwipeDirection::Left);
    assert_eq!(movement_direction(from, Finger::new(110, 150, 1, 1)), SwipeDirection::Up);
    assert_eq!(movement_direction(from, Finger::new(110, 50, 1, 1)), SwipeDirection::Down);
    // Equal distances count as a movement along Y.
    assert_eq!(movement_direction(from, Finger::new(120, 120, 1, 1)), SwipeDirection::Up);
    // No movement at all points down.
    assert_eq!(movement_direction(from, from), SwipeDirection::Down);
}

#[test]
fn frame_accessors_and_gestures() {
    let finger = Finger::new(10, 10, 100, 50);
    let start = Touch::new(ContactSlot::Primary, TouchPhase::Start, finger);
    let frame = Frame::new(
        quiet_flags(),
        Some(Gesture::SwipeHoldYNegative),
        Changes::new(Some(start), None),
        State::new(Some(finger), Some(finger)),
    );
    assert_eq!(frame.info(), quiet_flags());
    assert_eq!(frame.gesture(), Some(Gesture::SwipeHoldYNegative));
    assert_eq!(frame.contacts(), Changes::new(Some(start), None));
    assert_eq!(frame.snapshot(), State::new(Some(finger), Some(finger)));
    assert!(frame.has_activity());
    assert!(frame.is_multi_touch());
    assert!(frame.is_swipe_hold_gesture());
    assert!(!frame.is_swipe_gesture());
    assert!(!frame.is_tap_gesture());
    assert_eq!(frame.swipe_direction(), Some(SwipeDirection::Down));
    // A start with two contacts on the pad begins no session.
    assert!(!frame.is_session_start());

    let idle =
        Frame::new(quiet_flags(), None, Changes::new(None, None), State::new(None, None));
    assert!(!idle.has_activity());
    assert_eq!(idle.swipe_direction(), None);
    let palm = Frame::new(
        quiet_flags(),
        Some(Gesture::Palm),
        Changes::new(None, None),
        State::new(None, None),
    );
    assert!(palm.has_activity());
    assert_eq!(palm.swipe_direction(), None);
    assert!(!palm.is_tap_gesture());
}

#[test]
fn touchpad_keeps_the_last_readings() {
    let mut touchpad = Touchpad::new(Iqs7211e::new(Config::default()));
    let finger = Finger::new(10, 20, 30, 40);
    let moved = Finger::new(12, 20, 30, 40);

    let first =
        touchpad.next_frame(Report::new(None, quiet_flags(), (finger, Finger::absent())));
    assert_eq!(
        first.contacts().primary(),
        Some(Touch::new(ContactSlot::Primary, TouchPhase::Start, finger))
    );
    assert!(first.is_session_start());

    let second = touchpad.next_frame(Report::new(
        Some(Gesture::SingleTap),
        quiet_flags(),
        (moved, Finger::absent()),
    ));
    assert_eq!(
        second.contacts().primary(),
        Some(Touch::new(ContactSlot::Primary, TouchPhase::Move, moved))
    );
    assert!(second.is_tap_gesture());

    let third = touchpad
        .stream()
        .next(Report::new(None, quiet_flags(), (Finger::absent(), Finger::absent())))
        .unwrap();
    assert_eq!(
        third.contacts().primary(),
        Some(Touch::new(ContactSlot::Primary, TouchPhase::End, moved))
    );
    assert!(third.is_session_end());
    assert_eq!(touchpad.previous, (Finger::absent(), Finger::absent()));

    assert!(!touchpad.controller_ref().is_initialized());
    touchpad.controller().complete_initialize::<()>(&Ok(true));
    assert!(touchpad.into_inner().is_initialized());
}
