//! Contact changes between consecutive reports.

use crate::report::{Finger, Gesture, InfoFlags, Report};
use crate::Iqs7211e;
use vstd::prelude::*;

verus! {

/// How a contact changed since the report before.
#[derive(Debug, Clone, Copy, PartialEq, Eq, Structural)]
pub enum TouchPhase {
    /// A contact appeared.
    Start,
    /// A contact moved, or changed its strength or area.
    Move,
    /// A contact was lifted.
    End,
}

impl TouchPhase {
    pub fn is_start(self) -> (b: bool)
        ensures
            b == (self is Start),
    {
        matches!(self, TouchPhase::Start)
    }

    pub fn is_move(self) -> (b: bool)
        ensures
            b == (self is Move),
    {
        matches!(self, TouchPhase::Move)
    }

    pub fn is_end(self) -> (b: bool)
        ensures
            b == (self is End),
    {
        matches!(self, TouchPhase::End)
    }

    /// The name of the phase.
    pub fn as_str(self) -> (s: &'static str)
        ensures
            s@ == match self {
                TouchPhase::Start => "start"@,
                TouchPhase::Move => "move"@,
                TouchPhase::End => "end"@,
            },
    {
        match self {
            TouchPhase::Start => "start",
            TouchPhase::Move => "move",
            TouchPhase::End => "end",
        }
    }
}

/// One of the two contact slots of the device. The device assigns contacts
/// to slots as it sees fit: a slot is a channel, not a finger.
#[derive(Debug, Clone, Copy, PartialEq, Eq, Structural)]
pub enum ContactSlot {
    Primary,
    Secondary,
}

impl ContactSlot {
    pub fn is_primary(self) -> (b: bool)
        ensures
            b == (self is Primary),
    {
        matches!(self, ContactSlot::Primary)
    }

    pub fn is_secondary(self) -> (b: bool)
        ensures
            b == (self is Secondary),
    {
        matches!(self, ContactSlot::Secondary)
    }

    /// The name of the slot.
    pub fn as_str(self) -> (s: &'static str)
        ensures
            s@ == match self {
                ContactSlot::Primary => "primary"@,
                ContactSlot::Secondary => "secondary"@,
            },
    {
        match self {
            ContactSlot::Primary => "primary",
            ContactSlot::Secondary => "secondary",
        }
    }
}

/// One change of one contact slot.
#[derive(Debug, Clone, Copy, PartialEq, Eq, Structural)]
pub struct Touch {
    pub slot: ContactSlot,
    pub phase: TouchPhase,
    pub point: Finger,
}

impl Touch {
    pub fn new(slot: ContactSlot, phase: TouchPhase, point: Finger) -> (t: Self)
        ensures
            t == (Touch { slot, phase, point }),
    {
        Self { slot, phase, point }
    }

    pub fn is_primary(&self) -> (b: bool)
        ensures
            b == (self.slot is Primary),
    {
        matches!(self.slot, ContactSlot::Primary)
    }

    pub fn is_secondary(&self) -> (b: bool)
        ensures
            b == (self.slot is Secondary),
    {
        matches!(self.slot, ContactSlot::Secondary)
    }
}

/// The mean of two readings, rounded down.
pub open spec fn mean(a: u16, b: u16) -> u16 {
    ((a + b) / 2) as u16
}

/// The contacts that are on the pad.
#[derive(Debug, Clone, Copy, PartialEq, Eq, Structural)]
pub struct State {
    pub primary: Option<Finger>,
    pub secondary: Option<Finger>,
}

impl View for State {
    type V = Seq<Finger>;

    /// The contacts, the primary slot first.
    open spec fn view(&self) -> Seq<Finger> {
        (match self.primary {
            Some(f) => seq![f],
            None => Seq::empty(),
        }) + (match self.secondary {
            Some(f) => seq![f],
            None => Seq::empty(),
        })
    }
}

impl State {
    pub fn new(primary: Option<Finger>, secondary: Option<Finger>) -> (s: Self)
        ensures
            s == (State { primary, secondary }),
    {
        Self { primary, secondary }
    }

    /// The contacts of a reading of both slots.
    pub open spec fn of_fingers(fingers: (Finger, Finger)) -> State {
        State {
            primary: if fingers.0.is_present() {
                Some(fingers.0)
            } else {
                None
            },
            secondary: if fingers.1.is_present() {
                Some(fingers.1)
            } else {
                None
            },
        }
    }

    pub fn primary(&self) -> (f: Option<Finger>)
        ensures
            f == self.primary,
    {
        self.primary
    }

    pub fn secondary(&self) -> (f: Option<Finger>)
        ensures
            f == self.secondary,
    {
        self.secondary
    }

    /// The contact in `slot`, if there is one.
    pub fn get(&self, slot: ContactSlot) -> (f: Option<Finger>)
        ensures
            f == match slot {
                ContactSlot::Primary => self.primary,
                ContactSlot::Secondary => self.secondary,
            },
    {
        match slot {
            ContactSlot::Primary => self.primary,
            ContactSlot::Secondary => self.secondary,
        }
    }

    /// The contacts, the primary slot first.
    pub fn iter(&self) -> (contacts: Vec<Finger>)
        ensures
            contacts@ == self@,
    {
        let mut contacts: Vec<Finger> = Vec::new();
        if let Some(f) = self.primary {
            contacts.push(f);
        }
        if let Some(f) = self.secondary {
            contacts.push(f);
        }
        assert(contacts@ =~= self@);
        contacts
    }

    /// Number of contacts.
    pub fn count(&self) -> (n: usize)
        ensures
            n == self@.len(),
    {
        let mut n: usize = 0;
        if self.primary.is_some() {
            n += 1;
        }
        if self.secondary.is_some() {
            n += 1;
        }
        n
    }

    pub fn is_empty(&self) -> (b: bool)
        ensures
            b == (self.primary is None && self.secondary is None),
            b == (self@.len() == 0),
    {
        self.primary.is_none() && self.secondary.is_none()
    }

    pub fn is_multi_touch(&self) -> (b: bool)
        ensures
            b == (self.primary is Some && self.secondary is Some),
            b == (self@.len() == 2),
    {
        self.primary.is_some() && self.secondary.is_some()
    }

    /// The middle of the contacts: the one contact, or the mean of the two
    /// in position, strength and area.
    pub open spec fn spec_centroid(&self) -> Option<Finger> {
        match (self.primary, self.secondary) {
            (None, None) => None,
            (Some(point), None) => Some(point),
            (None, Some(point)) => Some(point),
            (Some(first), Some(second)) => Some(
                Finger {
                    x: mean(first.x, second.x),
                    y: mean(first.y, second.y),
                    strength: mean(first.strength, second.strength),
                    area: mean(first.area, second.area),
                },
            ),
        }
    }

    /// The middle of the contacts, if there is any contact.
    #[verifier::when_used_as_spec(spec_centroid)]
    pub fn centroid(&self) -> (c: Option<Finger>)
        ensures
            c == self.spec_centroid(),
    {
        match (self.primary, self.secondary) {
            (None, None) => None,
            (Some(point), None) => Some(point),
            (None, Some(point)) => Some(point),
            (Some(first), Some(second)) => Some(
                Finger::new(
                    ((first.x as u32 + second.x as u32) / 2) as u16,
                    ((first.y as u32 + second.y as u32) / 2) as u16,
                    ((first.strength as u32 + second.strength as u32) / 2) as u16,
                    ((first.area as u32 + second.area as u32) / 2) as u16,
                ),
            ),
        }
    }
}

/// The changes of one report: at most one for each slot.
#[derive(Debug, Clone, Copy, PartialEq, Eq, Structural)]
pub struct Changes {
    pub primary: Option<Touch>,
    pub secondary: Option<Touch>,
}

impl View for Changes {
    type V = Seq<Touch>;

    /// The changes, the primary slot first.
    open spec fn view(&self) -> Seq<Touch> {
        (match self.primary {
            Some(t) => seq![t],
            None => Seq::empty(),
        }) + (match self.secondary {
            Some(t) => seq![t],
            None => Seq::empty(),
        })
    }
}

impl Changes {
    pub fn new(primary: Option<Touch>, secondary: Option<Touch>) -> (c: Self)
        ensures
            c == (Changes { primary, secondary }),
    {
        Self { primary, secondary }
    }

    pub fn primary(&self) -> (t: Option<Touch>)
        ensures
            t == self.primary,
    {
        self.primary
    }

    pub fn secondary(&self) -> (t: Option<Touch>)
        ensures
            t == self.secondary,
    {
        self.secondary
    }

    /// The change of `slot`, if there is one.
    pub fn get(&self, slot: ContactSlot) -> (t: Option<Touch>)
        ensures
            t == match slot {
                ContactSlot::Primary => self.primary,
                ContactSlot::Secondary => self.secondary,
            },
    {
        match slot {
            ContactSlot::Primary => self.primary,
            ContactSlot::Secondary => self.secondary,
        }
    }

    /// The changes, the primary slot first.
    pub fn iter(&self) -> (changes: Vec<Touch>)
        ensures
            changes@ == self@,
    {
        let mut changes: Vec<Touch> = Vec::new();
        if let Some(t) = self.primary {
            changes.push(t);
        }
        if let Some(t) = self.secondary {
            changes.push(t);
        }
        assert(changes@ =~= self@);
        changes
    }

    pub fn is_empty(&self) -> (b: bool)
        ensures
            b == (self.primary is None && self.secondary is None),
            b == (self@.len() == 0),
    {
        self.primary.is_none() && self.secondary.is_none()
    }

    /// Number of changes.
    pub fn count(&self) -> (n: usize)
        ensures
            n == self@.len(),
    {
        let mut count: usize = 0;
        if self.primary.is_some() {
            count += 1;
        }
        if self.secondary.is_some() {
            count += 1;
        }
        count
    }

    /// Whether a slot changed in the given phase.
    pub open spec fn has_phase(&self, phase: TouchPhase) -> bool {
        (self.primary matches Some(t) && t.phase == phase) || (self.secondary matches Some(t)
            && t.phase == phase)
    }

    /// The change of one slot, if it is in the given phase.
    pub open spec fn in_phase(change: Option<Touch>, phase: TouchPhase) -> Seq<Touch> {
        match change {
            Some(t) => if t.phase == phase {
                seq![t]
            } else {
                Seq::empty()
            },
            None => Seq::empty(),
        }
    }

    /// The changes in the given phase, the primary slot first.
    pub open spec fn with_phase(&self, phase: TouchPhase) -> Seq<Touch> {
        Self::in_phase(self.primary, phase) + Self::in_phase(self.secondary, phase)
    }

    fn slot_has(change: Option<Touch>, phase: TouchPhase) -> (b: bool)
        ensures
            b == (change matches Some(t) && t.phase == phase),
    {
        match change {
            Some(t) => t.phase == phase,
            None => false,
        }
    }

    /// Whether a contact appeared.
    pub fn has_starts(&self) -> (b: bool)
        ensures
            b == self.has_phase(TouchPhase::Start),
    {
        Self::slot_has(self.primary, TouchPhase::Start) || Self::slot_has(
            self.secondary,
            TouchPhase::Start,
        )
    }

    /// Whether a contact was lifted.
    pub fn has_ends(&self) -> (b: bool)
        ensures
            b == self.has_phase(TouchPhase::End),
    {
        Self::slot_has(self.primary, TouchPhase::End) || Self::slot_has(
            self.secondary,
            TouchPhase::End,
        )
    }

    /// Whether a contact moved.
    pub fn has_moves(&self) -> (b: bool)
        ensures
            b == self.has_phase(TouchPhase::Move),
    {
        Self::slot_has(self.primary, TouchPhase::Move) || Self::slot_has(
            self.secondary,
            TouchPhase::Move,
        )
    }

    /// The changes in the given phase, the primary slot first.
    pub fn contacts_with_phase(&self, phase: TouchPhase) -> (changes: Vec<Touch>)
        ensures
            changes@ == self.with_phase(phase),
    {
        let mut changes: Vec<Touch> = Vec::new();
        if let Some(t) = self.primary {
            if t.phase == phase {
                changes.push(t);
            }
        }
        if let Some(t) = self.secondary {
            if t.phase == phase {
                changes.push(t);
            }
        }
        assert(changes@ =~= self.with_phase(phase));
        changes
    }
}

/// The change of one slot between two readings: none while the slot stays
/// empty or holds the same reading; a start with the new reading when a
/// contact appears; an end with the last reading when it is lifted; a move
/// with the new reading when the reading differs.
pub open spec fn transition(slot: ContactSlot, previous: Finger, current: Finger) -> Option<Touch> {
    if previous.is_present() {
        if current.is_present() {
            if previous != current {
                Some(Touch { slot, phase: TouchPhase::Move, point: current })
            } else {
                None
            }
        } else {
            Some(Touch { slot, phase: TouchPhase::End, point: previous })
        }
    } else {
        if current.is_present() {
            Some(Touch { slot, phase: TouchPhase::Start, point: current })
        } else {
            None
        }
    }
}

/// A slot whose reading did not change has no event, whether it holds a
/// contact or not.
pub proof fn lemma_unchanged_slot_is_silent(slot: ContactSlot, reading: Finger)
    ensures
        transition(slot, reading, reading) is None,
{
}

/// An event names its own slot, and the reading it carries is that of a
/// contact: the new reading for a start or a move, the last one for an end.
pub proof fn lemma_event_carries_a_contact(slot: ContactSlot, previous: Finger, current: Finger)
    ensures
        transition(slot, previous, current) matches Some(t) ==> {
            &&& t.slot == slot
            &&& t.point.is_present()
            &&& t.point == if t.phase is End {
                previous
            } else {
                current
            }
            &&& t.phase is Start <==> !previous.is_present()
        },
{
}

/// The change of one slot between two readings.
pub fn classify_transition(slot: ContactSlot, previous: Finger, current: Finger) -> (change: Option<
    Touch,
>)
    ensures
        change == transition(slot, previous, current),
        previous == current ==> change is None,
        change matches Some(t) ==> t.slot == slot && t.point.is_present(),
{
    match (previous.is_present(), current.is_present()) {
        (false, false) => None,
        (false, true) => Some(Touch::new(slot, TouchPhase::Start, current)),
        (true, false) => Some(Touch::new(slot, TouchPhase::End, previous)),
        (true, true) => {
            if previous != current {
                Some(Touch::new(slot, TouchPhase::Move, current))
            } else {
                None
            }
        },
    }
}

/// The changes of both slots between the readings before and those of
/// `report`, and the contacts that are on the pad now.
pub fn build_contacts(previous: (Finger, Finger), report: Report) -> (built: (Changes, State))
    ensures
        built.0 == (Changes {
            primary: transition(ContactSlot::Primary, previous.0, report.fingers.0),
            secondary: transition(ContactSlot::Secondary, previous.1, report.fingers.1),
        }),
        built.1 == State::of_fingers(report.fingers),
{
    let new_fingers = report.fingers;
    let primary_contact = classify_transition(ContactSlot::Primary, previous.0, new_fingers.0);
    let secondary_contact = classify_transition(ContactSlot::Secondary, previous.1, new_fingers.1);
    let state = State::new(
        if new_fingers.0.is_present() {
            Some(new_fingers.0)
        } else {
            None
        },
        if new_fingers.1.is_present() {
            Some(new_fingers.1)
        } else {
            None
        },
    );
    (Changes::new(primary_contact, secondary_contact), state)
}

/// What one report amounts to: status, gesture, changes and contacts.
#[derive(Debug, Clone, Copy, PartialEq, Eq, Structural)]
pub struct Frame {
    pub info: InfoFlags,
    pub gesture: Option<Gesture>,
    pub events: Changes,
    pub state: State,
}

impl Frame {
    pub fn new(info: InfoFlags, gesture: Option<Gesture>, events: Changes, state: State) -> (f:
        Self)
        ensures
            f == (Frame { info, gesture, events, state }),
    {
        Self { info, gesture, events, state }
    }

    /// The frame of `report`, given the readings of the report before.
    pub open spec fn of_report(previous: (Finger, Finger), report: Report) -> Frame {
        Frame {
            info: report.info,
            gesture: report.gesture,
            events: Changes {
                primary: transition(ContactSlot::Primary, previous.0, report.fingers.0),
                secondary: transition(ContactSlot::Secondary, previous.1, report.fingers.1),
            },
            state: State::of_fingers(report.fingers),
        }
    }

    pub fn info(&self) -> (i: InfoFlags)
        ensures
            i == self.info,
    {
        self.info
    }

    pub fn gesture(&self) -> (g: Option<Gesture>)
        ensures
            g == self.gesture,
    {
        self.gesture
    }

    pub fn contacts(&self) -> (c: Changes)
        ensures
            c == self.events,
    {
        self.events
    }

    pub fn snapshot(&self) -> (s: State)
        ensures
            s == self.state,
    {
        self.state
    }

    /// Whether the frame holds a gesture or a change.
    pub fn has_activity(&self) -> (b: bool)
        ensures
            b == (self.gesture is Some || self.events@.len() > 0),
    {
        self.gesture.is_some() || !self.events.is_empty()
    }

    /// Whether a first contact appeared: a contact started, and it is the
    /// only one on the pad.
    pub fn is_session_start(&self) -> (b: bool)
        ensures
            b == (self.events.has_phase(TouchPhase::Start) && self.state@.len() == 1),
    {
        self.events.has_starts() && self.state.count() == 1
    }

    /// Whether the last contact was lifted: a contact ended, and none is
    /// left on the pad.
    pub fn is_session_end(&self) -> (b: bool)
        ensures
            b == (self.events.has_phase(TouchPhase::End) && self.state@.len() == 0),
    {
        self.events.has_ends() && self.state.is_empty()
    }

    pub fn is_multi_touch(&self) -> (b: bool)
        ensures
            b == (self.state@.len() == 2),
    {
        self.state.is_multi_touch()
    }

    /// Whether the gesture is a single, double or triple tap.
    pub fn is_tap_gesture(&self) -> (b: bool)
        ensures
            b == (self.gesture matches Some(g) && (g is SingleTap || g is DoubleTap || g
                is TripleTap)),
    {
        match self.gesture {
            Some(Gesture::SingleTap) | Some(Gesture::DoubleTap) | Some(Gesture::TripleTap) => true,
            _ => false,
        }
    }

    /// Whether the gesture is a swipe.
    pub fn is_swipe_gesture(&self) -> (b: bool)
        ensures
            b == (self.gesture matches Some(g) && (g is SwipeXPositive || g is SwipeXNegative || g
                is SwipeYPositive || g is SwipeYNegative)),
    {
        match self.gesture {
            Some(Gesture::SwipeXPositive)
            | Some(Gesture::SwipeXNegative)
            | Some(Gesture::SwipeYPositive)
            | Some(Gesture::SwipeYNegative) => true,
            _ => false,
        }
    }

    /// Whether the gesture is a swipe and hold.
    pub fn is_swipe_hold_gesture(&self) -> (b: bool)
        ensures
            b == (self.gesture matches Some(g) && (g is SwipeHoldXPositive || g
                is SwipeHoldXNegative || g is SwipeHoldYPositive || g is SwipeHoldYNegative)),
    {
        match self.gesture {
            Some(Gesture::SwipeHoldXPositive)
            | Some(Gesture::SwipeHoldXNegative)
            | Some(Gesture::SwipeHoldYPositive)
            | Some(Gesture::SwipeHoldYNegative) => true,
            _ => false,
        }
    }

    /// The direction of a swipe or of a swipe and hold.
    pub open spec fn spec_swipe_direction(&self) -> Option<SwipeDirection> {
        match self.gesture {
            Some(Gesture::SwipeXPositive) | Some(Gesture::SwipeHoldXPositive) => Some(
                SwipeDirection::Right,
            ),
            Some(Gesture::SwipeXNegative) | Some(Gesture::SwipeHoldXNegative) => Some(
                SwipeDirection::Left,
            ),
            Some(Gesture::SwipeYPositive) | Some(Gesture::SwipeHoldYPositive) => Some(
                SwipeDirection::Up,
            ),
            Some(Gesture::SwipeYNegative) | Some(Gesture::SwipeHoldYNegative) => Some(
                SwipeDirection::Down,
            ),
            _ => None,
        }
    }

    /// The direction of a swipe or of a swipe and hold; none for any other
    /// gesture.
    #[verifier::when_used_as_spec(spec_swipe_direction)]
    pub fn swipe_direction(&self) -> (d: Option<SwipeDirection>)
        ensures
            d == self.spec_swipe_direction(),
    {
        match self.gesture {
            Some(Gesture::SwipeXPositive) | Some(Gesture::SwipeHoldXPositive) => Some(
                SwipeDirection::Right,
            ),
            Some(Gesture::SwipeXNegative) | Some(Gesture::SwipeHoldXNegative) => Some(
                SwipeDirection::Left,
            ),
            Some(Gesture::SwipeYPositive) | Some(Gesture::SwipeHoldYPositive) => Some(
                SwipeDirection::Up,
            ),
            Some(Gesture::SwipeYNegative) | Some(Gesture::SwipeHoldYNegative) => Some(
                SwipeDirection::Down,
            ),
            _ => None,
        }
    }
}

/// Direction of a movement on the pad.
#[derive(Debug, Clone, Copy, PartialEq, Eq, Structural)]
pub enum SwipeDirection {
    /// Toward positive X.
    Right,
    /// Toward negative X.
    Left,
    /// Toward positive Y.
    Up,
    /// Toward negative Y.
    Down,
}

impl SwipeDirection {
    pub fn is_horizontal(self) -> (b: bool)
        ensures
            b == (self is Left || self is Right),
    {
        matches!(self, SwipeDirection::Left | SwipeDirection::Right)
    }

    pub fn is_vertical(self) -> (b: bool)
        ensures
            b == (self is Up || self is Down),
    {
        matches!(self, SwipeDirection::Up | SwipeDirection::Down)
    }

    /// The direction that points the other way.
    pub open spec fn spec_opposite(self) -> SwipeDirection {
        match self {
            SwipeDirection::Right => SwipeDirection::Left,
            SwipeDirection::Left => SwipeDirection::Right,
            SwipeDirection::Up => SwipeDirection::Down,
            SwipeDirection::Down => SwipeDirection::Up,
        }
    }

    /// The direction that points the other way.
    #[verifier::when_used_as_spec(spec_opposite)]
    pub fn opposite(self) -> (d: Self)
        ensures
            d == self.spec_opposite(),
            d != self,
            d.spec_opposite() == self,
    {
        match self {
            SwipeDirection::Right => SwipeDirection::Left,
            SwipeDirection::Left => SwipeDirection::Right,
            SwipeDirection::Up => SwipeDirection::Down,
            SwipeDirection::Down => SwipeDirection::Up,
        }
    }

    /// The name of the direction.
    pub fn as_str(self) -> (s: &'static str)
        ensures
            s@ == match self {
                SwipeDirection::Right => "right"@,
                SwipeDirection::Left => "left"@,
                SwipeDirection::Up => "up"@,
                SwipeDirection::Down => "down"@,
            },
    {
        match self {
            SwipeDirection::Right => "right",
            SwipeDirection::Left => "left",
            SwipeDirection::Up => "up",
            SwipeDirection::Down => "down",
        }
    }
}

/// The distance between two coordinates.
pub open spec fn distance(a: u16, b: u16) -> int {
    if a > b {
        a - b
    } else {
        b - a
    }
}

/// The main direction of the movement from one position to another: along
/// X where the distance in X is the larger one, else along Y; toward the
/// positive side where the coordinate grew, else toward the negative side.
pub open spec fn spec_movement_direction(from: Finger, to: Finger) -> SwipeDirection {
    if distance(to.x, from.x) > distance(to.y, from.y) {
        if to.x > from.x {
            SwipeDirection::Right
        } else {
            SwipeDirection::Left
        }
    } else {
        if to.y > from.y {
            SwipeDirection::Up
        } else {
            SwipeDirection::Down
        }
    }
}

/// The main direction of the movement from one position to another.
#[verifier::when_used_as_spec(spec_movement_direction)]
pub fn movement_direction(from: Finger, to: Finger) -> (d: SwipeDirection)
    ensures
        d == spec_movement_direction(from, to),
{
    let dx = if to.x > from.x {
        to.x - from.x
    } else {
        from.x - to.x
    };
    let dy = if to.y > from.y {
        to.y - from.y
    } else {
        from.y - to.y
    };

    if dx > dy {
        if to.x > from.x {
            SwipeDirection::Right
        } else {
            SwipeDirection::Left
        }
    } else {
        if to.y > from.y {
            SwipeDirection::Up
        } else {
            SwipeDirection::Down
        }
    }
}

/// The touch interface on top of the controller: it keeps the readings of
/// the last report and turns each new report into a frame.
#[derive(Debug)]
pub struct Touchpad {
    pub controller: Iqs7211e,
    pub previous: (Finger, Finger),
}

impl Touchpad {
    /// The interface on top of `controller`, with no contact seen yet.
    pub fn new(controller: Iqs7211e) -> (t: Self)
        ensures
            t.controller == controller,
            t.previous == (Finger::absent(), Finger::absent()),
    {
        Self { controller, previous: (Finger::absent(), Finger::absent()) }
    }

    /// The controller below the interface.
    pub fn into_inner(self) -> (c: Iqs7211e)
        ensures
            c == self.controller,
    {
        self.controller
    }

    /// The controller below the interface, to be changed in place.
    pub fn controller(&mut self) -> (c: &mut Iqs7211e)
        ensures
            *c == old(self).controller,
            final(self).controller == *final(c),
            final(self).previous == old(self).previous,
    {
        &mut self.controller
    }

    /// The controller below the interface.
    pub fn controller_ref(&self) -> (c: &Iqs7211e)
        ensures
            *c == self.controller,
    {
        &self.controller
    }

    /// The frame of the next report. The readings of the report replace
    /// those kept from the report before.
    pub fn next_frame(&mut self, report: Report) -> (frame: Frame)
        ensures
            frame == Frame::of_report(old(self).previous, report),
            final(self).previous == report.fingers,
            final(self).controller == old(self).controller,
    {
        let (contacts, snapshot) = build_contacts(self.previous, report);
        self.previous = report.fingers;
        Frame::new(report.info, report.gesture, contacts, snapshot)
    }

    /// The frames of this interface, one for each report handed in.
    pub fn stream(&mut self) -> (s: Stream<'_>)
        ensures
            *s.touchpad == *old(self),
            *final(self) == *final(s.touchpad),
    {
        Stream { touchpad: self }
    }
}

/// The frames of a touch interface, one for each report handed in.
pub struct Stream<'a> {
    pub touchpad: &'a mut Touchpad,
}

impl<'a> Stream<'a> {
    /// The frame of the next report. The stream never ends.
    pub fn next(&mut self, report: Report) -> (frame: Option<Frame>)
        ensures
            frame == Some(Frame::of_report(old(self).touchpad.previous, report)),
            final(self).touchpad.previous == report.fingers,
            final(self).touchpad.controller == old(self).touchpad.controller,
    {
        Some(self.touchpad.next_frame(report))
    }
}

} // verus!
