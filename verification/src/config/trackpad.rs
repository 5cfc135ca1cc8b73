//! Geometry and filtering of the trackpad.

use crate::rw::Record;
use crate::wire::{at, bits, field, flag, flag_bit, le16, le16_bytes, u16_from_le, u16_to_le};
use vstd::prelude::*;

verus! {

/// Geometry and filtering of the trackpad.
#[derive(Debug, Clone, Copy, PartialEq, Eq, Structural)]
pub struct Trackpad {
    /// Orientation. The registers hold the two flips only.
    pub axes: Axes,
    pub filters: Filters,
    /// Number of Rx electrodes.
    pub total_rx: u8,
    /// Number of Tx electrodes.
    pub total_tx: u8,
    pub max_simultaneous_touches: MaxTouches,
    pub resolution: Resolution,
    pub dynamic_filter: DynamicFilterConfig,
    pub static_filter_beta: u8,
    pub stationary_touch_threshold: u8,
    pub multitouch_finger_split_factor: u8,
    pub axes_inset: AxesInset,
}

impl Trackpad {
    /// The reference trackpad settings, for a pad without electrodes.
    pub fn new() -> (v: Self)
        ensures
            v == Trackpad::default_value(),
    {
        Self {
            axes: Axes::new(false, false, false),
            filters: Filters::dynamic(),
            total_rx: 0,
            total_tx: 0,
            max_simultaneous_touches: MaxTouches::Two,
            resolution: Resolution::new(1000, 1000),
            dynamic_filter: DynamicFilterConfig::new(6, 124, 7),
            static_filter_beta: 128,
            stationary_touch_threshold: 20,
            multitouch_finger_split_factor: 3,
            axes_inset: AxesInset::new(20, 20),
        }
    }

    /// The same settings with another orientation, resolution and border.
    pub fn with_axes(self, axes: Axes, resolution: Resolution, inset: AxesInset) -> (v: Self)
        ensures
            v == (Trackpad { axes, resolution, axes_inset: inset, ..self }),
    {
        Trackpad { axes, resolution, axes_inset: inset, ..self }
    }

    /// The same settings with no filter on the coordinates.
    pub fn without_filters(self) -> (v: Self)
        ensures
            v == (Trackpad {
                filters: Filters { irr: IrrFilter::Disable, moving_average: false },
                ..self
            }),
    {
        Trackpad { filters: Filters { irr: IrrFilter::Disable, moving_average: false }, ..self }
    }

    /// The same settings with the dynamic filter, set up as given, and the
    /// moving average.
    pub fn with_dynamic_filter(self, config: DynamicFilterConfig) -> (v: Self)
        ensures
            v == (Trackpad {
                filters: Filters { irr: IrrFilter::Dynamic, moving_average: true },
                dynamic_filter: config,
                ..self
            }),
    {
        Trackpad {
            filters: Filters { irr: IrrFilter::Dynamic, moving_average: true },
            dynamic_filter: config,
            ..self
        }
    }

    /// The same settings with the fixed filter of the given strength, with or
    /// without the moving average.
    pub fn with_static_filter(self, mav: bool, beta: u8) -> (v: Self)
        ensures
            v == (Trackpad {
                filters: Filters { irr: IrrFilter::Fixed, moving_average: mav },
                static_filter_beta: beta,
                ..self
            }),
    {
        Trackpad {
            filters: Filters { irr: IrrFilter::Fixed, moving_average: mav },
            static_filter_beta: beta,
            ..self
        }
    }

    /// The same settings with one contact reported at most.
    pub fn single_touch(self) -> (v: Self)
        ensures
            v == (Trackpad { max_simultaneous_touches: MaxTouches::One, ..self }),
    {
        Trackpad { max_simultaneous_touches: MaxTouches::One, ..self }
    }

    /// The same settings with two contacts reported at most, told apart by the
    /// given split factor.
    pub fn multi_touch(self, finger_split_factor: u8) -> (v: Self)
        ensures
            v == (Trackpad {
                max_simultaneous_touches: MaxTouches::Two,
                multitouch_finger_split_factor: finger_split_factor,
                ..self
            }),
    {
        Trackpad {
            max_simultaneous_touches: MaxTouches::Two,
            multitouch_finger_split_factor: finger_split_factor,
            ..self
        }
    }

    /// Every field fits the bits that the registers give it.
    pub open spec fn valid(self) -> bool {
        !self.axes.swap_axes
    }

    /// The settings byte: axes in bits 0 to 1, filters in bits 2 to 4.
    #[verifier::opaque]
    pub open spec fn settings_word(self) -> int {
        field(self.axes.word(), 0, 2)
            + at(self.filters.word(), 2)
    }

    /// Each field of the settings word is read back from the place it was put.
    pub proof fn lemma_settings_word_fields(self)
        ensures
            0 <= self.settings_word() < 256,
            bits(self.settings_word(), 0, 2) == self.axes.word() % 4,
            bits(self.settings_word(), 2, 3) == self.filters.word(),
    {
        reveal(bits);
        reveal(Trackpad::settings_word);
        self.axes.lemma_roundtrip();
        self.filters.lemma_roundtrip();
        let axes = (self.axes.word() % 4) as u16;
        let filters = self.filters.word() as u16;
        let w = self.settings_word() as u16;
        assert(w % 4 == axes
            && (w / 4) % 8 == filters) by (bit_vector)
            requires
                axes < 4,
                filters < 8,
                w == axes + filters * 4,
        ;
    }

    /// The settings byte, as a number.
    pub fn to_settings_word(&self) -> (w: u8)
        ensures
            w == self.settings_word(),
    {
        proof {
            reveal(Trackpad::settings_word);
        }
        (self.axes.to_word() % 4)
            + self.filters.to_word() * 4
    }

    /// The contacts byte: max simultaneous touches in bits 0 to 1.
    #[verifier::opaque]
    pub open spec fn touches_word(self) -> int {
        at(self.max_simultaneous_touches.to_bits() as int, 0)
    }

    /// Each field of the touches word is read back from the place it was put.
    pub proof fn lemma_touches_word_fields(self)
        ensures
            0 <= self.touches_word() < 256,
            bits(self.touches_word(), 0, 2) == self.max_simultaneous_touches.to_bits(),
    {
        reveal(bits);
        reveal(Trackpad::touches_word);
        self.max_simultaneous_touches.lemma_bits();
    }

    /// The contacts byte, as a number.
    pub fn to_touches_word(&self) -> (w: u8)
        ensures
            w == self.touches_word(),
    {
        proof {
            reveal(Trackpad::touches_word);
        }
        self.max_simultaneous_touches.to_bits()
    }

    /// The register bytes: the settings word, total rx, total tx, the touches
    /// word, resolution, dynamic filter, static filter beta, stationary touch
    /// threshold, multitouch finger split factor, axes inset.
    pub open spec fn encoding(self) -> Seq<u8> {
        seq![self.settings_word() as u8, self.total_rx, self.total_tx, self.touches_word() as u8]
            + self.resolution.encoding()
            + self.dynamic_filter.encoding()
            + seq![self.static_filter_beta, self.stationary_touch_threshold, self.multitouch_finger_split_factor]
            + self.axes_inset.encoding()
    }

    /// The value that eighteen register bytes stand for, if they stand for one.
    pub open spec fn decoding(b: Seq<u8>) -> Option<Self> {
        let settings = b[0] as int;
        let touches = b[3] as int;
        match (
            Filters::of_word(bits(settings, 2, 3)),
            MaxTouches::from_bits(bits(touches, 0, 2) as u8),
        ) {
            (Some(filters), Some(max_simultaneous_touches)) => Some(Trackpad {
                axes: Axes::of_word(bits(settings, 0, 2)),
                filters,
                total_rx: b[1],
                total_tx: b[2],
                max_simultaneous_touches,
                resolution: Resolution::decoding(b.subrange(4, 8)),
                dynamic_filter: DynamicFilterConfig::decoding(b.subrange(8, 13)),
                static_filter_beta: b[13],
                stationary_touch_threshold: b[14],
                multitouch_finger_split_factor: b[15],
                axes_inset: AxesInset::decoding(b.subrange(16, 18)),
            }),
            _ => None,
        }
    }

    /// The register bytes of the value.
    pub fn to_bytes(&self) -> (b: [u8; 18])
        ensures
            b@ == self.encoding(),
    {
        let settings = self.to_settings_word();
        let touches = self.to_touches_word();
        let resolution = self.resolution.to_bytes();
        let dynamic_filter = self.dynamic_filter.to_bytes();
        let axes_inset = self.axes_inset.to_bytes();
        let b = [
            settings, self.total_rx, self.total_tx, touches,
            resolution[0], resolution[1], resolution[2], resolution[3],
            dynamic_filter[0], dynamic_filter[1], dynamic_filter[2], dynamic_filter[3], dynamic_filter[4],
            self.static_filter_beta, self.stationary_touch_threshold,
            self.multitouch_finger_split_factor, axes_inset[0], axes_inset[1],
        ];
        assert(b@ =~= self.encoding());
        b
    }

    /// The value that eighteen register bytes stand for, if they stand for one.
    pub fn from_bytes(b: [u8; 18]) -> (v: Option<Self>)
        ensures
            v == Self::decoding(b@),
    {
        proof {
            reveal(bits);
        }
        let settings = b[0];
        let touches = b[3];
        let resolution_bytes = [b[4], b[5], b[6], b[7]];
        assert(resolution_bytes@ =~= b@.subrange(4, 8));
        let dynamic_filter_bytes = [b[8], b[9], b[10], b[11], b[12]];
        assert(dynamic_filter_bytes@ =~= b@.subrange(8, 13));
        let axes_inset_bytes = [b[16], b[17]];
        assert(axes_inset_bytes@ =~= b@.subrange(16, 18));
        match (Filters::from_word((settings / 4) % 8), MaxTouches::from_bits(touches % 4)) {
            (Some(filters), Some(max_simultaneous_touches)) => Some(Self {
                axes: Axes::from_word(settings % 4),
                filters,
                total_rx: b[1],
                total_tx: b[2],
                max_simultaneous_touches,
                resolution: Resolution::from_bytes(resolution_bytes),
                dynamic_filter: DynamicFilterConfig::from_bytes(dynamic_filter_bytes),
                static_filter_beta: b[13],
                stationary_touch_threshold: b[14],
                multitouch_finger_split_factor: b[15],
                axes_inset: AxesInset::from_bytes(axes_inset_bytes),
            }),
            _ => None,
        }
    }

    /// Decoding undoes encoding, for fields within their bits.
    pub proof fn lemma_roundtrip(self)
        requires
            self.valid(),
        ensures
            self.encoding().len() == 18,
            Self::decoding(self.encoding()) == Some(self),
    {
        self.lemma_settings_word_fields();
        self.axes.lemma_roundtrip();
        reveal(Axes::word);
        reveal(flag);
        self.filters.lemma_roundtrip();
        self.lemma_touches_word_fields();
        self.max_simultaneous_touches.lemma_bits();
        self.resolution.lemma_roundtrip();
        self.dynamic_filter.lemma_roundtrip();
        self.axes_inset.lemma_roundtrip();
        assert(self.encoding().subrange(4, 8) =~= self.resolution.encoding());
        assert(self.encoding().subrange(8, 13) =~= self.dynamic_filter.encoding());
        assert(self.encoding().subrange(16, 18) =~= self.axes_inset.encoding());
    }

    /// The reference trackpad settings, for a pad without electrodes.
    pub open spec fn default_value() -> Self {
        Trackpad {
            axes: Axes::default_value(),
            filters: Filters::default_value(),
            total_rx: 0,
            total_tx: 0,
            max_simultaneous_touches: MaxTouches::Two,
            resolution: Resolution::default_value(),
            dynamic_filter: DynamicFilterConfig::default_value(),
            static_filter_beta: 128,
            stationary_touch_threshold: 20,
            multitouch_finger_split_factor: 3,
            axes_inset: AxesInset::default_value(),
        }
    }
}

impl Record<18> for Trackpad {
    open spec fn in_range(&self) -> bool {
        self.valid()
    }

    open spec fn bytes(&self) -> Seq<u8> {
        self.encoding()
    }

    open spec fn of_bytes(bytes: Seq<u8>) -> Option<Self> {
        Trackpad::decoding(bytes)
    }

    fn pack(&self) -> (b: [u8; 18]) {
        self.to_bytes()
    }

    fn unpack(b: [u8; 18]) -> (v: Option<Self>) {
        Trackpad::from_bytes(b)
    }

    proof fn lemma_of_bytes(&self) {
        self.lemma_roundtrip();
    }
}

impl Default for Trackpad {
    fn default() -> (v: Self)
        ensures
            v == Trackpad::default_value(),
    {
        Self::new()
    }
}

/// Orientation of the coordinate system.
#[derive(Debug, Clone, Copy, PartialEq, Eq, Structural)]
pub struct Axes {
    pub flip_x: bool,
    pub flip_y: bool,
    pub swap_axes: bool,
}

impl Axes {
    /// The value with the given fields.
    pub fn new(flip_x: bool, flip_y: bool, swap_axes: bool) -> (v: Self)
        ensures
            v == (Axes { flip_x, flip_y, swap_axes }),
    {
        Self { flip_x, flip_y, swap_axes }
    }

    /// The value as a 3-bit number: flip x in bit 0, flip y in bit 1, swap axes
    /// in bit 2.
    #[verifier::opaque]
    pub open spec fn word(self) -> int {
        at(flag(self.flip_x), 0)
            + at(flag(self.flip_y), 1)
            + at(flag(self.swap_axes), 2)
    }

    /// The value that the low 3 bits of `w` stand for.
    pub open spec fn of_word(w: int) -> Self {
        Axes {
            flip_x: bits(w, 0, 1) != 0,
            flip_y: bits(w, 1, 1) != 0,
            swap_axes: bits(w, 2, 1) != 0,
        }
    }

    /// The value as the number that its register field holds.
    pub fn to_word(&self) -> (w: u8)
        ensures
            w == self.word(),
            w < 8,
    {
        proof {
            reveal(Axes::word);
        }
        flag_bit(self.flip_x)
            + flag_bit(self.flip_y) * 2
            + flag_bit(self.swap_axes) * 4
    }

    /// The value that the low 3 bits of `w` stand for.
    pub fn from_word(w: u8) -> (v: Self)
        ensures
            v == Self::of_word(w as int),
    {
        proof {
            reveal(bits);
        }
        Self { flip_x: w % 2 != 0, flip_y: (w / 2) % 2 != 0, swap_axes: (w / 4) % 2 != 0 }
    }

    /// Each field of the word is read back from the place it was put.
    pub proof fn lemma_word_fields(self)
        ensures
            0 <= self.word() < 8,
            bits(self.word(), 0, 1) == flag(self.flip_x),
            bits(self.word(), 1, 1) == flag(self.flip_y),
            bits(self.word(), 2, 1) == flag(self.swap_axes),
    {
        reveal(bits);
        reveal(flag);
        reveal(Axes::word);
        let flip_x = flag(self.flip_x) as u16;
        let flip_y = flag(self.flip_y) as u16;
        let swap_axes = flag(self.swap_axes) as u16;
        let w = self.word() as u16;
        assert(w % 2 == flip_x
            && (w / 2) % 2 == flip_y
            && (w / 4) % 2 == swap_axes) by (bit_vector)
            requires
                flip_x < 2,
                flip_y < 2,
                swap_axes < 2,
                w == flip_x + flip_y * 2 + swap_axes * 4,
        ;
    }

    /// Reading the word back gives the value again.
    pub proof fn lemma_roundtrip(self)
        ensures
            0 <= self.word() < 8,
            Self::of_word(self.word()) == self,
    {
        self.lemma_word_fields();
        reveal(flag);
    }

    /// The orientation of the pad as it is wired.
    pub open spec fn default_value() -> Self {
        Axes { flip_x: false, flip_y: false, swap_axes: false }
    }
}

impl Default for Axes {
    fn default() -> (v: Self)
        ensures
            v == Axes::default_value(),
    {
        Self::new(false, false, false)
    }
}

/// Filters on the reported coordinates.
#[derive(Debug, Clone, Copy, PartialEq, Eq, Structural)]
pub struct Filters {
    pub irr: IrrFilter,
    pub moving_average: bool,
}

impl Filters {
    /// The value with the given fields.
    pub fn new(irr: IrrFilter, moving_average: bool) -> (v: Self)
        ensures
            v == (Filters { irr, moving_average }),
    {
        Self { irr, moving_average }
    }

    /// Damping that follows the speed of the movement, with the moving average.
    pub fn dynamic() -> (v: Self)
        ensures
            v == (Filters { irr: IrrFilter::Dynamic, moving_average: true }),
    {
        Self::new(IrrFilter::Dynamic, true)
    }

    /// Fixed damping, with the moving average.
    pub fn fixed() -> (v: Self)
        ensures
            v == (Filters { irr: IrrFilter::Fixed, moving_average: true }),
    {
        Self::new(IrrFilter::Fixed, true)
    }

    /// No filter at all.
    pub fn disabled() -> (v: Self)
        ensures
            v == (Filters { irr: IrrFilter::Disable, moving_average: false }),
    {
        Self::new(IrrFilter::Disable, false)
    }

    /// The value as a 3-bit number: irr in bits 0 to 1, moving average in bit
    /// 2.
    #[verifier::opaque]
    pub open spec fn word(self) -> int {
        at(self.irr.to_bits() as int, 0)
            + at(flag(self.moving_average), 2)
    }

    /// The value that the low 3 bits of `w` stand for, if they stand for one.
    pub open spec fn of_word(w: int) -> Option<Self> {
        match IrrFilter::from_bits(bits(w, 0, 2) as u8) {
            Some(irr) => Some(Filters { irr, moving_average: bits(w, 2, 1) != 0 }),
            None => None,
        }
    }

    /// The value as the number that its register field holds.
    pub fn to_word(&self) -> (w: u8)
        ensures
            w == self.word(),
            w < 8,
    {
        proof {
            reveal(Filters::word);
        }
        self.irr.to_bits()
            + flag_bit(self.moving_average) * 4
    }

    /// The value that the low 3 bits of `w` stand for, if they stand for one.
    pub fn from_word(w: u8) -> (v: Option<Self>)
        ensures
            v == Self::of_word(w as int),
    {
        proof {
            reveal(bits);
        }
        match IrrFilter::from_bits(w % 4) {
            Some(irr) => Some(Self { irr, moving_average: (w / 4) % 2 != 0 }),
            None => None,
        }
    }

    /// Each field of the word is read back from the place it was put.
    pub proof fn lemma_word_fields(self)
        ensures
            0 <= self.word() < 8,
            bits(self.word(), 0, 2) == self.irr.to_bits(),
            bits(self.word(), 2, 1) == flag(self.moving_average),
    {
        reveal(bits);
        reveal(flag);
        reveal(Filters::word);
        self.irr.lemma_bits();
        let irr = self.irr.to_bits() as u16;
        let moving_average = flag(self.moving_average) as u16;
        let w = self.word() as u16;
        assert(w % 4 == irr
            && (w / 4) % 2 == moving_average) by (bit_vector)
            requires
                irr < 4,
                moving_average < 2,
                w == irr + moving_average * 4,
        ;
    }

    /// Reading the word back gives the value again.
    pub proof fn lemma_roundtrip(self)
        ensures
            0 <= self.word() < 8,
            Self::of_word(self.word()) == Some(self),
    {
        self.lemma_word_fields();
        reveal(flag);
        self.irr.lemma_bits();
    }

    /// The reference filters: dynamic damping with the moving average.
    pub open spec fn default_value() -> Self {
        Filters { irr: IrrFilter::Dynamic, moving_average: true }
    }
}

impl Default for Filters {
    fn default() -> (v: Self)
        ensures
            v == Filters::default_value(),
    {
        Self::dynamic()
    }
}

/// Filter on the reported coordinates.
#[derive(Debug, Clone, Copy, PartialEq, Eq, Structural)]
pub enum IrrFilter {
    /// No filter.
    Disable,
    /// Damping follows the speed of the movement.
    Dynamic,
    /// Damping is fixed.
    Fixed,
}

impl IrrFilter {
    /// The bits that stand for the value in its register field.
    #[verifier::opaque]
    pub open spec fn spec_to_bits(self) -> u8 {
        match self {
            IrrFilter::Disable => 0,
            IrrFilter::Dynamic => 1,
            IrrFilter::Fixed => 2,
        }
    }

    /// The bits that stand for the value in its register field.
    #[verifier::when_used_as_spec(spec_to_bits)]
    pub fn to_bits(self) -> (b: u8)
        ensures
            b == self.spec_to_bits(),
            b < 4,
    {
        proof {
            reveal(IrrFilter::spec_to_bits);
        }
        match self {
            IrrFilter::Disable => 0,
            IrrFilter::Dynamic => 1,
            IrrFilter::Fixed => 2,
        }
    }

    /// The value that the low 2 bits of `bits` stand for, if they stand for one.
    #[verifier::opaque]
    pub open spec fn spec_from_bits(bits: u8) -> Option<Self> {
        match bits % 4 {
            0 => Some(IrrFilter::Disable),
            1 => Some(IrrFilter::Dynamic),
            2 => Some(IrrFilter::Fixed),
            _ => None,
        }
    }

    /// The value that the low 2 bits of `bits` stand for, if they stand for one.
    #[verifier::when_used_as_spec(spec_from_bits)]
    pub fn from_bits(bits: u8) -> (v: Option<Self>)
        ensures
            v == Self::spec_from_bits(bits),
    {
        proof {
            reveal(IrrFilter::spec_from_bits);
        }
        match bits % 4 {
            0 => Some(IrrFilter::Disable),
            1 => Some(IrrFilter::Dynamic),
            2 => Some(IrrFilter::Fixed),
            _ => None,
        }
    }

    /// The bits of a value fit its register field and stand for that value.
    pub proof fn lemma_bits(self)
        ensures
            self.to_bits() < 4,
            Self::from_bits(self.to_bits()) == Some(self),
    {
        reveal(IrrFilter::spec_to_bits);
        reveal(IrrFilter::spec_from_bits);
    }
}

/// Number of contacts that the device reports at once.
#[derive(Debug, Clone, Copy, PartialEq, Eq, Structural)]
pub enum MaxTouches {
    One,
    Two,
}

impl MaxTouches {
    /// The bits that stand for the value in its register field.
    #[verifier::opaque]
    pub open spec fn spec_to_bits(self) -> u8 {
        match self {
            MaxTouches::One => 1,
            MaxTouches::Two => 2,
        }
    }

    /// The bits that stand for the value in its register field.
    #[verifier::when_used_as_spec(spec_to_bits)]
    pub fn to_bits(self) -> (b: u8)
        ensures
            b == self.spec_to_bits(),
            b < 4,
    {
        proof {
            reveal(MaxTouches::spec_to_bits);
        }
        match self {
            MaxTouches::One => 1,
            MaxTouches::Two => 2,
        }
    }

    /// The value that the low 2 bits of `bits` stand for, if they stand for one.
    #[verifier::opaque]
    pub open spec fn spec_from_bits(bits: u8) -> Option<Self> {
        match bits % 4 {
            1 => Some(MaxTouches::One),
            2 => Some(MaxTouches::Two),
            _ => None,
        }
    }

    /// The value that the low 2 bits of `bits` stand for, if they stand for one.
    #[verifier::when_used_as_spec(spec_from_bits)]
    pub fn from_bits(bits: u8) -> (v: Option<Self>)
        ensures
            v == Self::spec_from_bits(bits),
    {
        proof {
            reveal(MaxTouches::spec_from_bits);
        }
        match bits % 4 {
            1 => Some(MaxTouches::One),
            2 => Some(MaxTouches::Two),
            _ => None,
        }
    }

    /// The bits of a value fit its register field and stand for that value.
    pub proof fn lemma_bits(self)
        ensures
            self.to_bits() < 4,
            Self::from_bits(self.to_bits()) == Some(self),
    {
        reveal(MaxTouches::spec_to_bits);
        reveal(MaxTouches::spec_from_bits);
    }
}

impl Default for MaxTouches {
    fn default() -> (v: Self)
        ensures
            v == MaxTouches::Two,
    {
        MaxTouches::Two
    }
}

/// Range of the reported coordinates.
#[derive(Debug, Clone, Copy, PartialEq, Eq, Structural)]
pub struct Resolution {
    pub x: u16,
    pub y: u16,
}

impl Resolution {
    /// The value with the given fields.
    pub fn new(x: u16, y: u16) -> (v: Self)
        ensures
            v == (Resolution { x, y }),
    {
        Self { x, y }
    }

    /// The register bytes: x, y, each number least significant byte first.
    pub open spec fn encoding(self) -> Seq<u8> {
        le16_bytes(self.x) + le16_bytes(self.y)
    }

    /// The value that four register bytes stand for.
    pub open spec fn decoding(b: Seq<u8>) -> Self {
        Resolution { x: le16(b[0], b[1]), y: le16(b[2], b[3]) }
    }

    /// The register bytes of the value.
    pub fn to_bytes(&self) -> (b: [u8; 4])
        ensures
            b@ == self.encoding(),
    {
        let x = u16_to_le(self.x);
        let y = u16_to_le(self.y);
        let b = [x[0], x[1], y[0], y[1]];
        assert(b@ =~= self.encoding());
        b
    }

    /// The value that four register bytes stand for.
    pub fn from_bytes(b: [u8; 4]) -> (v: Self)
        ensures
            v == Self::decoding(b@),
    {
        Self { x: u16_from_le(b[0], b[1]), y: u16_from_le(b[2], b[3]) }
    }

    /// Decoding undoes encoding.
    pub proof fn lemma_roundtrip(self)
        ensures
            self.encoding().len() == 4,
            Self::decoding(self.encoding()) == self,
    {
    }

    /// The reference resolution.
    pub open spec fn default_value() -> Self {
        Resolution { x: 1000, y: 1000 }
    }
}

impl Record<4> for Resolution {
    open spec fn in_range(&self) -> bool {
        true
    }

    open spec fn bytes(&self) -> Seq<u8> {
        self.encoding()
    }

    open spec fn of_bytes(bytes: Seq<u8>) -> Option<Self> {
        Some(Resolution::decoding(bytes))
    }

    fn pack(&self) -> (b: [u8; 4]) {
        self.to_bytes()
    }

    fn unpack(b: [u8; 4]) -> (v: Option<Self>) {
        Some(Resolution::from_bytes(b))
    }

    proof fn lemma_of_bytes(&self) {
        self.lemma_roundtrip();
    }
}

impl Default for Resolution {
    fn default() -> (v: Self)
        ensures
            v == Resolution::default_value(),
    {
        Self::new(1000, 1000)
    }
}

/// Speeds and damping of the dynamic filter.
#[derive(Debug, Clone, Copy, PartialEq, Eq, Structural)]
pub struct DynamicFilterConfig {
    pub bottom_speed: u16,
    pub top_speed: u16,
    pub bottom_beta: u8,
}

impl DynamicFilterConfig {
    /// The value with the given fields.
    pub fn new(bottom_speed: u16, top_speed: u16, bottom_beta: u8) -> (v: Self)
        ensures
            v == (DynamicFilterConfig { bottom_speed, top_speed, bottom_beta }),
    {
        Self { bottom_speed, top_speed, bottom_beta }
    }

    /// The register bytes: bottom speed, top speed, bottom beta, each number
    /// least significant byte first.
    pub open spec fn encoding(self) -> Seq<u8> {
        le16_bytes(self.bottom_speed) + le16_bytes(self.top_speed) + seq![self.bottom_beta]
    }

    /// The value that five register bytes stand for.
    pub open spec fn decoding(b: Seq<u8>) -> Self {
        DynamicFilterConfig {
            bottom_speed: le16(b[0], b[1]),
            top_speed: le16(b[2], b[3]),
            bottom_beta: b[4],
        }
    }

    /// The register bytes of the value.
    pub fn to_bytes(&self) -> (b: [u8; 5])
        ensures
            b@ == self.encoding(),
    {
        let bottom_speed = u16_to_le(self.bottom_speed);
        let top_speed = u16_to_le(self.top_speed);
        let b = [bottom_speed[0], bottom_speed[1], top_speed[0], top_speed[1], self.bottom_beta];
        assert(b@ =~= self.encoding());
        b
    }

    /// The value that five register bytes stand for.
    pub fn from_bytes(b: [u8; 5]) -> (v: Self)
        ensures
            v == Self::decoding(b@),
    {
        Self {
            bottom_speed: u16_from_le(b[0], b[1]),
            top_speed: u16_from_le(b[2], b[3]),
            bottom_beta: b[4],
        }
    }

    /// Decoding undoes encoding.
    pub proof fn lemma_roundtrip(self)
        ensures
            self.encoding().len() == 5,
            Self::decoding(self.encoding()) == self,
    {
    }

    /// The reference dynamic filter.
    pub open spec fn default_value() -> Self {
        DynamicFilterConfig { bottom_speed: 6, top_speed: 124, bottom_beta: 7 }
    }
}

impl Record<5> for DynamicFilterConfig {
    open spec fn in_range(&self) -> bool {
        true
    }

    open spec fn bytes(&self) -> Seq<u8> {
        self.encoding()
    }

    open spec fn of_bytes(bytes: Seq<u8>) -> Option<Self> {
        Some(DynamicFilterConfig::decoding(bytes))
    }

    fn pack(&self) -> (b: [u8; 5]) {
        self.to_bytes()
    }

    fn unpack(b: [u8; 5]) -> (v: Option<Self>) {
        Some(DynamicFilterConfig::from_bytes(b))
    }

    proof fn lemma_of_bytes(&self) {
        self.lemma_roundtrip();
    }
}

impl Default for DynamicFilterConfig {
    fn default() -> (v: Self)
        ensures
            v == DynamicFilterConfig::default_value(),
    {
        Self::new(6, 124, 7)
    }
}

/// Width of the border that is cut off the coordinate range.
#[derive(Debug, Clone, Copy, PartialEq, Eq, Structural)]
pub struct AxesInset {
    pub x: u8,
    pub y: u8,
}

impl AxesInset {
    /// The value with the given fields.
    pub fn new(x: u8, y: u8) -> (v: Self)
        ensures
            v == (AxesInset { x, y }),
    {
        Self { x, y }
    }

    /// The same border on both axes.
    pub fn uniform(axis: u8) -> (v: Self)
        ensures
            v == (AxesInset { x: axis, y: axis }),
    {
        Self::new(axis, axis)
    }

    /// The register bytes: x, y.
    pub open spec fn encoding(self) -> Seq<u8> {
        seq![self.x, self.y]
    }

    /// The value that two register bytes stand for.
    pub open spec fn decoding(b: Seq<u8>) -> Self {
        AxesInset { x: b[0], y: b[1] }
    }

    /// The register bytes of the value.
    pub fn to_bytes(&self) -> (b: [u8; 2])
        ensures
            b@ == self.encoding(),
    {
        let b = [self.x, self.y];
        assert(b@ =~= self.encoding());
        b
    }

    /// The value that two register bytes stand for.
    pub fn from_bytes(b: [u8; 2]) -> (v: Self)
        ensures
            v == Self::decoding(b@),
    {
        Self { x: b[0], y: b[1] }
    }

    /// Decoding undoes encoding.
    pub proof fn lemma_roundtrip(self)
        ensures
            self.encoding().len() == 2,
            Self::decoding(self.encoding()) == self,
    {
    }

    /// The reference border.
    pub open spec fn default_value() -> Self {
        AxesInset { x: 20, y: 20 }
    }
}

impl Record<2> for AxesInset {
    open spec fn in_range(&self) -> bool {
        true
    }

    open spec fn bytes(&self) -> Seq<u8> {
        self.encoding()
    }

    open spec fn of_bytes(bytes: Seq<u8>) -> Option<Self> {
        Some(AxesInset::decoding(bytes))
    }

    fn pack(&self) -> (b: [u8; 2]) {
        self.to_bytes()
    }

    fn unpack(b: [u8; 2]) -> (v: Option<Self>) {
        Some(AxesInset::from_bytes(b))
    }

    proof fn lemma_of_bytes(&self) {
        self.lemma_roundtrip();
    }
}

impl Default for AxesInset {
    fn default() -> (v: Self)
        ensures
            v == AxesInset::default_value(),
    {
        Self::new(20, 20)
    }
}

} // verus!
