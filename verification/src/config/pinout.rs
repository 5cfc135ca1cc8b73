//! The pin layout of the sensor matrix and its sensing cycles.

use vstd::arithmetic::div_mod::lemma_fundamental_div_mod_converse;
use vstd::prelude::*;

verus! {

/// Number of pads that can serve as Rx or Tx electrodes.
pub const MAX_PINS: usize = 13;

/// Number of sensing timeslots of the device.
pub const MAX_CYCLES: usize = 21;

/// Channel byte of a cycle slot that senses nothing.
pub const UNUSED_CYCLE: u8 = 0xFF;

/// Byte that precedes the two channel bytes of every cycle.
pub const CYCLE_HEADER: u8 = 0x05;

/// Byte that closes the cycle allocation table.
pub const CYCLE_TERMINATOR: u8 = 0x01;

/// One of the thirteen pads of the device.
#[derive(Debug, Clone, Copy, PartialEq, Eq, Structural)]
pub enum Pin {
    RxTx0,
    RxTx1,
    RxTx2,
    RxTx3,
    RxTx4,
    RxTx5,
    RxTx6,
    RxTx7,
    Tx8,
    Tx9,
    Tx10,
    Tx11,
    Tx12,
}

impl Pin {
    /// The pad's number, as the mapping registers hold it.
    pub open spec fn spec_index(self) -> u8 {
        match self {
            Pin::RxTx0 => 0,
            Pin::RxTx1 => 1,
            Pin::RxTx2 => 2,
            Pin::RxTx3 => 3,
            Pin::RxTx4 => 4,
            Pin::RxTx5 => 5,
            Pin::RxTx6 => 6,
            Pin::RxTx7 => 7,
            Pin::Tx8 => 8,
            Pin::Tx9 => 9,
            Pin::Tx10 => 10,
            Pin::Tx11 => 11,
            Pin::Tx12 => 12,
        }
    }

    /// The pad's number, as the mapping registers hold it.
    #[verifier::when_used_as_spec(spec_index)]
    pub fn index(self) -> (i: u8)
        ensures
            i == self.spec_index(),
            i < 13,
    {
        match self {
            Pin::RxTx0 => 0,
            Pin::RxTx1 => 1,
            Pin::RxTx2 => 2,
            Pin::RxTx3 => 3,
            Pin::RxTx4 => 4,
            Pin::RxTx5 => 5,
            Pin::RxTx6 => 6,
            Pin::RxTx7 => 7,
            Pin::Tx8 => 8,
            Pin::Tx9 => 9,
            Pin::Tx10 => 10,
            Pin::Tx11 => 11,
            Pin::Tx12 => 12,
        }
    }

    /// Whether the pad belongs to prox block A (pads 0 to 3).
    pub open spec fn spec_is_a(self) -> bool {
        self.spec_index() < 4
    }

    /// Whether the pad belongs to prox block A (pads 0 to 3).
    #[verifier::when_used_as_spec(spec_is_a)]
    pub fn is_a(self) -> (a: bool)
        ensures
            a == self.spec_is_a(),
    {
        self.index() < 4
    }

    /// Whether the pad belongs to prox block B (pads 4 to 7).
    pub open spec fn spec_is_b(self) -> bool {
        4 <= self.spec_index() < 8
    }

    /// Whether the pad belongs to prox block B (pads 4 to 7).
    #[verifier::when_used_as_spec(spec_is_b)]
    pub fn is_b(self) -> (b: bool)
        ensures
            b == self.spec_is_b(),
    {
        self.index() >= 4 && self.index() < 8
    }
}

/// Every pin of `part` occurs in `whole`.
pub open spec fn is_subset(part: Seq<Pin>, whole: Seq<Pin>) -> bool {
    forall|i: int| 0 <= i < part.len() ==> whole.contains(#[trigger] part[i])
}

/// An ordered list of at most thirteen pins.
#[derive(Debug, Clone, Copy)]
pub struct Pins {
    pins: [Pin; 13],
    len: usize,
}

impl View for Pins {
    type V = Seq<Pin>;

    closed spec fn view(&self) -> Seq<Pin> {
        self.pins@.subrange(0, self.len as int)
    }
}

impl Pins {
    #[verifier::type_invariant]
    spec fn inv(self) -> bool {
        self.len <= MAX_PINS
    }

    /// The list that holds `pins` in their order.
    pub fn new<const N: usize>(pins: [Pin; N]) -> (p: Pins)
        requires
            N <= MAX_PINS,
        ensures
            p@ == pins@,
    {
        let mut full = [Pin::RxTx0; 13];
        let mut i: usize = 0;
        while i < N
            invariant
                i <= N <= MAX_PINS,
                forall|k: int| 0 <= k < i ==> full@[k] == pins@[k],
            decreases N - i,
        {
            full[i] = pins[i];
            i += 1;
        }
        let p = Pins { pins: full, len: N };
        assert(p@ =~= pins@);
        p
    }

    /// Number of pins in the list.
    pub fn len(&self) -> (n: usize)
        ensures
            n == self@.len(),
            n <= MAX_PINS,
    {
        proof {
            use_type_invariant(self);
        }
        self.len
    }

    /// The pin at position `i`.
    pub fn get(&self, i: usize) -> (pin: Pin)
        requires
            i < self@.len(),
        ensures
            pin == self@[i as int],
    {
        proof {
            use_type_invariant(self);
        }
        self.pins[i]
    }

    /// Whether `pin` occurs in the list.
    pub fn contains(&self, pin: Pin) -> (found: bool)
        ensures
            found == self@.contains(pin),
    {
        proof {
            use_type_invariant(self);
        }
        let mut i: usize = 0;
        while i < self.len
            invariant
                i <= self.len <= MAX_PINS,
                forall|k: int| 0 <= k < i ==> self@[k] != pin,
            decreases self.len - i,
        {
            if self.pins[i] == pin {
                assert(self@[i as int] == pin);
                return true;
            }
            i += 1;
        }
        false
    }

    /// Whether every pin of this list occurs in `other`.
    pub fn is_subset_of(&self, other: Pins) -> (subset: bool)
        ensures
            subset == is_subset(self@, other@),
    {
        proof {
            use_type_invariant(self);
        }
        let mut i: usize = 0;
        while i < self.len
            invariant
                i <= self.len <= MAX_PINS,
                forall|k: int| 0 <= k < i ==> other@.contains(#[trigger] self@[k]),
            decreases self.len - i,
        {
            if !other.contains(self.pins[i]) {
                assert(!other@.contains(self@[i as int]));
                return false;
            }
            i += 1;
        }
        true
    }
}

/// A sensing timeslot: one Tx line, and up to one channel of each prox block.
#[derive(Debug, Clone, Copy, PartialEq, Eq, Structural)]
pub struct Cycle {
    pub tx_line: u8,
    pub prox_a_channel: Option<u8>,
    pub prox_b_channel: Option<u8>,
}

impl Cycle {
    /// The timeslot that senses nothing.
    pub open spec fn spec_unused() -> Cycle {
        Cycle { tx_line: 0, prox_a_channel: None, prox_b_channel: None }
    }

    /// The timeslot that senses nothing.
    #[verifier::when_used_as_spec(spec_unused)]
    pub fn unused() -> (c: Cycle)
        ensures
            c == Cycle::spec_unused(),
    {
        Cycle { tx_line: 0, prox_a_channel: None, prox_b_channel: None }
    }

    /// Whether the timeslot holds no channel.
    pub open spec fn spec_is_empty(&self) -> bool {
        self.prox_a_channel is None && self.prox_b_channel is None
    }

    /// Whether the timeslot holds no channel.
    #[verifier::when_used_as_spec(spec_is_empty)]
    pub fn is_empty(&self) -> (e: bool)
        ensures
            e == self.spec_is_empty(),
    {
        self.prox_a_channel.is_none() && self.prox_b_channel.is_none()
    }

    /// Whether the timeslot drives `line` and its slot of the given block is
    /// still empty.
    pub open spec fn accepts(self, line: u8, block_a: bool) -> bool {
        self.tx_line == line && if block_a {
            self.prox_a_channel is None
        } else {
            self.prox_b_channel is None
        }
    }

    /// The timeslot with `channel` in its slot of the given block.
    pub open spec fn with_channel(self, channel: u8, block_a: bool) -> Cycle {
        if block_a {
            Cycle { prox_a_channel: Some(channel), ..self }
        } else {
            Cycle { prox_b_channel: Some(channel), ..self }
        }
    }
}

/// The cycles made so far, and the index that the next (Tx, Rx) pair gets.
pub struct Allocation {
    pub cycles: Seq<Cycle>,
    pub next_channel: nat,
}

/// Position of the first cycle at or after `from` that accepts a channel of
/// the given block on `line`.
pub open spec fn first_free(cycles: Seq<Cycle>, line: u8, block_a: bool, from: int) -> Option<int>
    decreases cycles.len() - from,
{
    if from < 0 || from >= cycles.len() {
        None
    } else if cycles[from].accepts(line, block_a) {
        Some(from)
    } else {
        first_free(cycles, line, block_a, from + 1)
    }
}

/// The allocation after the pair (`tx`, `rx`) was handled. The pair takes the
/// next channel index in any case. An electrode of block A or B goes to the
/// first cycle of its Tx line whose slot for that block is empty; if there is
/// none it opens a new cycle, unless all timeslots are taken, in which case it
/// is left out. An electrode of neither block is never placed.
pub open spec fn place(st: Allocation, tx: Pin, rx: Pin) -> Allocation {
    let channel = st.next_channel as u8;
    let cycles = if !rx.is_a() && !rx.is_b() {
        st.cycles
    } else {
        match first_free(st.cycles, tx.index(), rx.is_a(), 0) {
            Some(i) => st.cycles.update(i, st.cycles[i].with_channel(channel, rx.is_a())),
            None => if st.cycles.len() < MAX_CYCLES {
                st.cycles.push(
                    Cycle { tx_line: tx.index(), ..Cycle::unused() }.with_channel(channel, rx.is_a()),
                )
            } else {
                st.cycles
            },
        }
    };
    Allocation { cycles, next_channel: st.next_channel + 1 }
}

/// The allocation after the first `n` Rx pins were paired with `tx`.
pub open spec fn place_row(st: Allocation, tx: Pin, rx: Seq<Pin>, n: nat) -> Allocation
    decreases n,
{
    if n == 0 {
        st
    } else {
        place(place_row(st, tx, rx, (n - 1) as nat), tx, rx[n - 1])
    }
}

/// The allocation after the first `m` Tx pins were each paired with every Rx
/// pin, Tx pins and Rx pins in their declared order.
pub open spec fn place_rows(rx: Seq<Pin>, tx: Seq<Pin>, m: nat) -> Allocation
    decreases m,
{
    if m == 0 {
        Allocation { cycles: Seq::empty(), next_channel: 0 }
    } else {
        place_row(place_rows(rx, tx, (m - 1) as nat), tx[m - 1], rx, rx.len())
    }
}

/// `cycles` followed by unused timeslots, up to the device's number of
/// timeslots.
pub open spec fn padded(cycles: Seq<Cycle>) -> Seq<Cycle> {
    Seq::new(
        MAX_CYCLES as nat,
        |k: int|
            if k < cycles.len() {
                cycles[k]
            } else {
                Cycle::unused()
            },
    )
}

/// The sensing cycles of a layout: all timeslots of the device, those in use
/// first.
pub open spec fn cycle_table(rx: Seq<Pin>, tx: Seq<Pin>) -> Seq<Cycle> {
    padded(place_rows(rx, tx, tx.len()).cycles)
}

/// Number of timeslots that the layout puts to use.
pub open spec fn used_cycles(rx: Seq<Pin>, tx: Seq<Pin>) -> nat {
    place_rows(rx, tx, tx.len()).cycles.len()
}

/// The byte that stands for a channel slot in the allocation registers.
pub open spec fn channel_byte(channel: Option<u8>) -> u8 {
    match channel {
        Some(c) => c,
        None => UNUSED_CYCLE,
    }
}

/// The bytes of the cycle allocation registers: header, prox A channel and
/// prox B channel for each timeslot, and the terminator after the last.
pub open spec fn cycle_bytes(table: Seq<Cycle>) -> Seq<u8> {
    Seq::new(
        64,
        |i: int|
            if i == 3 * MAX_CYCLES {
                CYCLE_TERMINATOR
            } else if i % 3 == 0 {
                CYCLE_HEADER
            } else if i % 3 == 1 {
                channel_byte(table[i / 3].prox_a_channel)
            } else {
                channel_byte(table[i / 3].prox_b_channel)
            },
    )
}

/// The bytes of the Rx/Tx mapping registers: the numbers of the Rx pins,
/// then those of the Tx pins, then zeros.
pub open spec fn mapping_bytes(rx: Seq<Pin>, tx: Seq<Pin>) -> Seq<u8> {
    Seq::new(
        14,
        |i: int|
            if i < rx.len() {
                rx[i].index()
            } else if i < rx.len() + tx.len() {
                tx[i - rx.len()].index()
            } else {
                0u8
            },
    )
}

/// One bit for each of the pads 0 to 7 that occurs in `pins`, bit 0 for pad 0.
pub open spec fn rx_mask(pins: Seq<Pin>) -> int {
    (if pins.contains(Pin::RxTx0) { 1int } else { 0 })
    + (if pins.contains(Pin::RxTx1) { 2int } else { 0 })
    + (if pins.contains(Pin::RxTx2) { 4int } else { 0 })
    + (if pins.contains(Pin::RxTx3) { 8int } else { 0 })
    + (if pins.contains(Pin::RxTx4) { 16int } else { 0 })
    + (if pins.contains(Pin::RxTx5) { 32int } else { 0 })
    + (if pins.contains(Pin::RxTx6) { 64int } else { 0 })
    + (if pins.contains(Pin::RxTx7) { 128int } else { 0 })
}

/// One bit for each pad that occurs in `pins`, bit 0 for pad 0.
pub open spec fn tx_mask(pins: Seq<Pin>) -> int {
    rx_mask(pins)
    + (if pins.contains(Pin::Tx8) { 256int } else { 0 })
    + (if pins.contains(Pin::Tx9) { 512int } else { 0 })
    + (if pins.contains(Pin::Tx10) { 1024int } else { 0 })
    + (if pins.contains(Pin::Tx11) { 2048int } else { 0 })
    + (if pins.contains(Pin::Tx12) { 4096int } else { 0 })
}

/// `channel` is the index of a pair whose Tx pin drives `line` and whose Rx
/// pin lies in the given block.
pub open spec fn channel_on_line(
    rx: Seq<Pin>,
    tx: Seq<Pin>,
    channel: u8,
    line: u8,
    block_a: bool,
) -> bool {
    &&& rx.len() > 0
    &&& (channel as int) / (rx.len() as int) < tx.len()
    &&& tx[channel as int / rx.len() as int].index() == line
    &&& if block_a {
        rx[channel as int % rx.len() as int].is_a()
    } else {
        rx[channel as int % rx.len() as int].is_b()
    }
}

/// Both channels of `cycle`, where present, belong to the cycle's Tx line and
/// to the block of their slot.
pub open spec fn cycle_consistent(rx: Seq<Pin>, tx: Seq<Pin>, cycle: Cycle) -> bool {
    &&& cycle.prox_a_channel matches Some(a) ==> channel_on_line(rx, tx, a, cycle.tx_line, true)
    &&& cycle.prox_b_channel matches Some(b) ==> channel_on_line(rx, tx, b, cycle.tx_line, false)
}

/// What holds of every cycle of an allocation: it holds a channel, its
/// channels belong to its Tx line and to the block of their slot, and they
/// are indices of pairs that were handled already.
pub open spec fn cycle_sound(rx: Seq<Pin>, tx: Seq<Pin>, cycle: Cycle, next_channel: nat) -> bool {
    &&& !cycle.is_empty()
    &&& cycle_consistent(rx, tx, cycle)
    &&& cycle.prox_a_channel matches Some(a) ==> a < next_channel
    &&& cycle.prox_b_channel matches Some(b) ==> b < next_channel
}

/// What holds of an allocation at every point of the traversal.
pub open spec fn allocation_sound(rx: Seq<Pin>, tx: Seq<Pin>, st: Allocation) -> bool {
    &&& st.cycles.len() <= MAX_CYCLES
    &&& forall|k: int|
        0 <= k < st.cycles.len() ==> cycle_sound(rx, tx, #[trigger] st.cycles[k], st.next_channel)
}

/// Where `first_free` finds a cycle, that cycle accepts the channel and none
/// before it does; where it finds none, no cycle accepts it.
pub proof fn lemma_first_free(cycles: Seq<Cycle>, line: u8, block_a: bool, from: int)
    requires
        0 <= from,
    ensures
        match first_free(cycles, line, block_a, from) {
            Some(i) => {
                &&& from <= i < cycles.len()
                &&& cycles[i].accepts(line, block_a)
                &&& forall|j: int| from <= j < i ==> !(#[trigger] cycles[j]).accepts(line, block_a)
            },
            None => forall|j: int|
                from <= j < cycles.len() ==> !(#[trigger] cycles[j]).accepts(line, block_a),
        },
    decreases cycles.len() - from,
{
    if from < cycles.len() && !cycles[from].accepts(line, block_a) {
        lemma_first_free(cycles, line, block_a, from + 1);
    }
}

proof fn lemma_pair_index(t: int, r: int, len: int)
    requires
        0 <= t,
        0 <= r < len,
    ensures
        (t * len + r) / len == t,
        (t * len + r) % len == r,
{
    lemma_fundamental_div_mod_converse(t * len + r, len, t, r);
}

proof fn lemma_pair_bound(t: int, r: int, rx_len: int, tx_len: int)
    requires
        0 <= t < tx_len,
        0 <= r <= rx_len,
        rx_len + tx_len <= MAX_PINS,
    ensures
        0 <= t * rx_len + r <= 42,
        0 <= t * rx_len <= 42,
{
    assert(0 <= t * rx_len + r <= 42 && 0 <= t * rx_len <= 42) by (nonlinear_arith)
        requires
            0 <= t < tx_len,
            0 <= r <= rx_len,
            rx_len + tx_len <= 13,
    ;
}

proof fn lemma_place_sound(rx: Seq<Pin>, tx: Seq<Pin>, st: Allocation, t: int, r: int)
    requires
        rx.len() + tx.len() <= MAX_PINS,
        0 <= t < tx.len(),
        0 <= r < rx.len(),
        allocation_sound(rx, tx, st),
        st.next_channel == t * rx.len() + r,
    ensures
        allocation_sound(rx, tx, place(st, tx[t], rx[r])),
        place(st, tx[t], rx[r]).next_channel == t * rx.len() + r + 1,
{
    let after = place(st, tx[t], rx[r]);
    let line = tx[t].index();
    let block_a = rx[r].is_a();
    let channel = st.next_channel as u8;
    lemma_pair_index(t, r, rx.len() as int);
    lemma_pair_bound(t, r, rx.len() as int, tx.len() as int);
    lemma_first_free(st.cycles, line, block_a, 0);
    if rx[r].is_a() || rx[r].is_b() {
        assert(channel_on_line(rx, tx, channel, line, block_a));
    }
    assert forall|k: int| 0 <= k < after.cycles.len() implies cycle_sound(
        rx,
        tx,
        #[trigger] after.cycles[k],
        after.next_channel,
    ) by {
        // Every cycle but a newly opened one stems from the cycle at its
        // place before.
        if k < st.cycles.len() {
            assert(cycle_sound(rx, tx, st.cycles[k], st.next_channel));
        }
    }
}

proof fn lemma_place_row_sound(rx: Seq<Pin>, tx: Seq<Pin>, st: Allocation, t: int, n: nat)
    requires
        rx.len() + tx.len() <= MAX_PINS,
        0 <= t < tx.len(),
        n <= rx.len(),
        allocation_sound(rx, tx, st),
        st.next_channel == t * rx.len(),
    ensures
        allocation_sound(rx, tx, place_row(st, tx[t], rx, n)),
        place_row(st, tx[t], rx, n).next_channel == t * rx.len() + n,
    decreases n,
{
    if n > 0 {
        lemma_place_row_sound(rx, tx, st, t, (n - 1) as nat);
        lemma_place_sound(rx, tx, place_row(st, tx[t], rx, (n - 1) as nat), t, n - 1);
    }
}

/// After `m` Tx lines the allocation is sound, and every pair so far has
/// taken one channel index: the next pair gets index `m` times the number
/// of Rx pins.
pub proof fn lemma_place_rows_sound(rx: Seq<Pin>, tx: Seq<Pin>, m: nat)
    requires
        rx.len() + tx.len() <= MAX_PINS,
        m <= tx.len(),
    ensures
        allocation_sound(rx, tx, place_rows(rx, tx, m)),
        place_rows(rx, tx, m).next_channel == m * rx.len(),
    decreases m,
{
    if m > 0 {
        lemma_place_rows_sound(rx, tx, (m - 1) as nat);
        lemma_place_row_sound(rx, tx, place_rows(rx, tx, (m - 1) as nat), m - 1, rx.len());
        assert((m - 1) * rx.len() + rx.len() == m * rx.len()) by (nonlinear_arith);
    }
}

/// For every layout of at most thirteen pins: the table has as many entries
/// as the device has timeslots, so never more cycles are in use; in every
/// cycle both channels, where present, are pairs of the cycle's own Tx line,
/// the first with an electrode of block A and the second with one of block B;
/// and the cycles in use come first, with nothing but unused timeslots after
/// them.
pub proof fn lemma_cycles_share_tx(rx: Seq<Pin>, tx: Seq<Pin>)
    requires
        rx.len() + tx.len() <= MAX_PINS,
    ensures
        cycle_table(rx, tx).len() == MAX_CYCLES,
        forall|k: int|
            0 <= k < MAX_CYCLES ==> cycle_consistent(rx, tx, #[trigger] cycle_table(rx, tx)[k]),
        used_cycles(rx, tx) <= MAX_CYCLES,
        forall|k: int|
            0 <= k < MAX_CYCLES ==> ((#[trigger] cycle_table(rx, tx)[k]).is_empty()
                <==> used_cycles(rx, tx) <= k),
{
    lemma_place_rows_sound(rx, tx, tx.len());
    let made = place_rows(rx, tx, tx.len()).cycles;
    let table = cycle_table(rx, tx);
    assert forall|k: int| 0 <= k < MAX_CYCLES implies cycle_consistent(
        rx,
        tx,
        #[trigger] table[k],
    ) by {
        if k < made.len() {
            assert(cycle_sound(rx, tx, made[k], place_rows(rx, tx, tx.len()).next_channel));
        }
    }
    assert forall|k: int| 0 <= k < MAX_CYCLES implies ((#[trigger] table[k]).is_empty()
        <==> used_cycles(rx, tx) <= k) by {
        if k < made.len() {
            assert(cycle_sound(rx, tx, made[k], place_rows(rx, tx, tx.len()).next_channel));
        }
    }
}

/// In the register bytes of a layout of at most thirteen pins, the cycles
/// in use are those that hold a channel byte other than the unused mark,
/// and they come first: no channel index reaches the mark.
pub proof fn lemma_cycle_bytes_in_use(rx: Seq<Pin>, tx: Seq<Pin>)
    requires
        rx.len() + tx.len() <= MAX_PINS,
    ensures
        forall|k: int|
            0 <= k < MAX_CYCLES ==> ((#[trigger] cycle_bytes(cycle_table(rx, tx))[3 * k + 1]
                == UNUSED_CYCLE && cycle_bytes(cycle_table(rx, tx))[3 * k + 2] == UNUSED_CYCLE)
                <==> used_cycles(rx, tx) <= k),
{
    lemma_place_rows_sound(rx, tx, tx.len());
    let end = place_rows(rx, tx, tx.len());
    let table = cycle_table(rx, tx);
    if tx.len() > 0 {
        lemma_pair_bound(tx.len() - 1, rx.len() as int, rx.len() as int, tx.len() as int);
        assert((tx.len() - 1) * rx.len() + rx.len() == tx.len() * rx.len()) by (nonlinear_arith);
    }
    assert forall|k: int| 0 <= k < MAX_CYCLES implies ((#[trigger] cycle_bytes(table)[3 * k + 1]
        == UNUSED_CYCLE && cycle_bytes(table)[3 * k + 2] == UNUSED_CYCLE) <==> used_cycles(rx, tx)
        <= k) by {
        if k < end.cycles.len() {
            assert(cycle_sound(rx, tx, end.cycles[k], end.next_channel));
        }
    }
}

fn find_free(table: &[Cycle; 21], count: usize, line: u8, block_a: bool) -> (found: Option<usize>)
    requires
        count <= MAX_CYCLES,
    ensures
        match first_free(table@.subrange(0, count as int), line, block_a, 0) {
            Some(i) => found == Some(i as usize),
            None => found is None,
        },
{
    let ghost cycles = table@.subrange(0, count as int);
    let mut i: usize = 0;
    while i < count
        invariant
            i <= count <= MAX_CYCLES,
            cycles == table@.subrange(0, count as int),
            first_free(cycles, line, block_a, 0) == first_free(cycles, line, block_a, i as int),
        decreases count - i,
    {
        let c = table[i];
        let free = if block_a {
            c.prox_a_channel.is_none()
        } else {
            c.prox_b_channel.is_none()
        };
        if c.tx_line == line && free {
            return Some(i);
        }
        i += 1;
    }
    None
}

fn place_pair(
    table: &mut [Cycle; 21],
    count: usize,
    tx: Pin,
    rx: Pin,
    channel: u8,
    Ghost(st): Ghost<Allocation>,
) -> (new_count: usize)
    requires
        old(table)@ == padded(st.cycles),
        count == st.cycles.len(),
        count <= MAX_CYCLES,
        channel == st.next_channel,
    ensures
        final(table)@ == padded(place(st, tx, rx).cycles),
        new_count == place(st, tx, rx).cycles.len(),
        new_count <= MAX_CYCLES,
{
    assert(table@.subrange(0, count as int) =~= st.cycles);
    if !rx.is_a() && !rx.is_b() {
        return count;
    }
    let block_a = rx.is_a();
    proof {
        lemma_first_free(st.cycles, tx.index(), block_a, 0);
    }
    match find_free(table, count, tx.index(), block_a) {
        Some(i) => {
            let c = table[i];
            let filled = if block_a {
                Cycle { tx_line: c.tx_line, prox_a_channel: Some(channel), prox_b_channel: c.prox_b_channel }
            } else {
                Cycle { tx_line: c.tx_line, prox_a_channel: c.prox_a_channel, prox_b_channel: Some(channel) }
            };
            table[i] = filled;
            assert(table@ =~= padded(place(st, tx, rx).cycles));
            count
        },
        None => {
            if count < MAX_CYCLES {
                let opened = if block_a {
                    Cycle { tx_line: tx.index(), prox_a_channel: Some(channel), prox_b_channel: None }
                } else {
                    Cycle { tx_line: tx.index(), prox_a_channel: None, prox_b_channel: Some(channel) }
                };
                table[count] = opened;
                assert(table@ =~= padded(place(st, tx, rx).cycles));
                count + 1
            } else {
                count
            }
        },
    }
}

/// Pin configuration of the sensor matrix: the Rx and Tx electrodes of the
/// trackpad, and the subsets of them that the low-power channel uses.
#[derive(Debug, Clone, Copy)]
pub struct Pinout {
    rx: Pins,
    tx: Pins,
    alp_rx: Pins,
    alp_tx: Pins,
}

impl Pinout {
    #[verifier::type_invariant]
    spec fn inv(self) -> bool {
        &&& self.rx@.len() + self.tx@.len() <= MAX_PINS
        &&& is_subset(self.alp_rx@, self.rx@)
        &&& is_subset(self.alp_tx@, self.tx@)
    }

    /// The Rx electrodes, in their declared order.
    pub closed spec fn rx_view(self) -> Seq<Pin> {
        self.rx@
    }

    /// The Tx electrodes, in their declared order.
    pub closed spec fn tx_view(self) -> Seq<Pin> {
        self.tx@
    }

    /// The Rx electrodes of the low-power channel.
    pub closed spec fn alp_rx_view(self) -> Seq<Pin> {
        self.alp_rx@
    }

    /// The Tx electrodes of the low-power channel.
    pub closed spec fn alp_tx_view(self) -> Seq<Pin> {
        self.alp_tx@
    }

    /// A layout is valid when it uses at most thirteen pads and the
    /// low-power channel uses only electrodes of the trackpad.
    pub open spec fn layout_valid(
        rx: Seq<Pin>,
        tx: Seq<Pin>,
        alp_rx: Seq<Pin>,
        alp_tx: Seq<Pin>,
    ) -> bool {
        &&& rx.len() + tx.len() <= MAX_PINS
        &&& alp_rx.len() <= MAX_PINS
        &&& alp_tx.len() <= MAX_PINS
        &&& is_subset(alp_rx, rx)
        &&& is_subset(alp_tx, tx)
    }

    /// The layout with the given electrodes.
    pub fn new<const RX: usize, const TX: usize, const ARX: usize, const ATX: usize>(
        rx: [Pin; RX],
        tx: [Pin; TX],
        alp_rx: [Pin; ARX],
        alp_tx: [Pin; ATX],
    ) -> (p: Pinout)
        requires
            Self::layout_valid(rx@, tx@, alp_rx@, alp_tx@),
        ensures
            p.rx_view() == rx@,
            p.tx_view() == tx@,
            p.alp_rx_view() == alp_rx@,
            p.alp_tx_view() == alp_tx@,
    {
        Pinout {
            rx: Pins::new(rx),
            tx: Pins::new(tx),
            alp_rx: Pins::new(alp_rx),
            alp_tx: Pins::new(alp_tx),
        }
    }

    /// This layout with other trackpad electrodes.
    pub fn with_rxtx<const RX: usize, const TX: usize>(self, rx: [Pin; RX], tx: [Pin; TX]) -> (p:
        Pinout)
        requires
            Self::layout_valid(rx@, tx@, self.alp_rx_view(), self.alp_tx_view()),
        ensures
            p.rx_view() == rx@,
            p.tx_view() == tx@,
            p.alp_rx_view() == self.alp_rx_view(),
            p.alp_tx_view() == self.alp_tx_view(),
    {
        Pinout { rx: Pins::new(rx), tx: Pins::new(tx), alp_rx: self.alp_rx, alp_tx: self.alp_tx }
    }

    /// This layout with other electrodes for the low-power channel.
    pub fn with_alp_rxtx<const RX: usize, const TX: usize>(self, rx: [Pin; RX], tx: [Pin; TX]) -> (p:
        Pinout)
        requires
            Self::layout_valid(self.rx_view(), self.tx_view(), rx@, tx@),
        ensures
            p.rx_view() == self.rx_view(),
            p.tx_view() == self.tx_view(),
            p.alp_rx_view() == rx@,
            p.alp_tx_view() == tx@,
    {
        Pinout { rx: self.rx, tx: self.tx, alp_rx: Pins::new(rx), alp_tx: Pins::new(tx) }
    }

    /// Whether the given electrodes make a valid layout.
    pub fn is_valid<const RX: usize, const TX: usize, const ARX: usize, const ATX: usize>(
        rx: [Pin; RX],
        tx: [Pin; TX],
        alp_rx: [Pin; ARX],
        alp_tx: [Pin; ATX],
    ) -> (ok: bool)
        ensures
            ok == Self::layout_valid(rx@, tx@, alp_rx@, alp_tx@),
    {
        if RX > MAX_PINS || TX > MAX_PINS || RX + TX > MAX_PINS || ARX > MAX_PINS || ATX
            > MAX_PINS {
            return false;
        }
        let rx = Pins::new(rx);
        let tx = Pins::new(tx);
        Pins::new(alp_rx).is_subset_of(rx) && Pins::new(alp_tx).is_subset_of(tx)
    }

    /// The layout with the given electrodes, if they make a valid layout.
    pub fn try_new<const RX: usize, const TX: usize, const ARX: usize, const ATX: usize>(
        rx: [Pin; RX],
        tx: [Pin; TX],
        alp_rx: [Pin; ARX],
        alp_tx: [Pin; ATX],
    ) -> (p: Option<Pinout>)
        ensures
            p is Some <==> Self::layout_valid(rx@, tx@, alp_rx@, alp_tx@),
            p matches Some(layout) ==> {
                &&& layout.rx_view() == rx@
                &&& layout.tx_view() == tx@
                &&& layout.alp_rx_view() == alp_rx@
                &&& layout.alp_tx_view() == alp_tx@
            },
    {
        if Self::is_valid(rx, tx, alp_rx, alp_tx) {
            Some(Self::new(rx, tx, alp_rx, alp_tx))
        } else {
            None
        }
    }

    /// The Rx electrodes.
    pub fn rx(&self) -> (pins: Pins)
        ensures
            pins@ == self.rx_view(),
            self.rx_view().len() + self.tx_view().len() <= MAX_PINS,
    {
        proof {
            use_type_invariant(self);
        }
        self.rx
    }

    /// The Tx electrodes.
    pub fn tx(&self) -> (pins: Pins)
        ensures
            pins@ == self.tx_view(),
            self.rx_view().len() + self.tx_view().len() <= MAX_PINS,
    {
        proof {
            use_type_invariant(self);
        }
        self.tx
    }

    /// The Rx electrodes of the low-power channel.
    pub fn low_power_rx(&self) -> (pins: Pins)
        ensures
            pins@ == self.alp_rx_view(),
            is_subset(self.alp_rx_view(), self.rx_view()),
    {
        proof {
            use_type_invariant(self);
        }
        self.alp_rx
    }

    /// The Tx electrodes of the low-power channel.
    pub fn low_power_tx(&self) -> (pins: Pins)
        ensures
            pins@ == self.alp_tx_view(),
            is_subset(self.alp_tx_view(), self.tx_view()),
    {
        proof {
            use_type_invariant(self);
        }
        self.alp_tx
    }

    /// The bytes of the Rx/Tx mapping registers.
    pub fn mapping(&self) -> (out: [u8; 14])
        ensures
            out@ == mapping_bytes(self.rx_view(), self.tx_view()),
    {
        proof {
            use_type_invariant(self);
        }
        let rx_len = self.rx.len();
        let tx_len = self.tx.len();
        let mut out = [0u8; 14];
        let mut i: usize = 0;
        while i < rx_len
            invariant
                i <= rx_len == self.rx@.len(),
                rx_len + tx_len <= MAX_PINS,
                forall|k: int| 0 <= k < i ==> out@[k] == self.rx@[k].index(),
                forall|k: int| i <= k < 14 ==> out@[k] == 0,
            decreases rx_len - i,
        {
            out[i] = self.rx.get(i).index();
            i += 1;
        }
        let mut j: usize = 0;
        while j < tx_len
            invariant
                j <= tx_len == self.tx@.len(),
                rx_len == self.rx@.len(),
                rx_len + tx_len <= MAX_PINS,
                forall|k: int| 0 <= k < rx_len ==> out@[k] == self.rx@[k].index(),
                forall|k: int| rx_len <= k < rx_len + j ==> out@[k] == self.tx@[k - rx_len].index(),
                forall|k: int| rx_len + j <= k < 14 ==> out@[k] == 0,
            decreases tx_len - j,
        {
            out[rx_len + j] = self.tx.get(j).index();
            j += 1;
        }
        assert(out@ =~= mapping_bytes(self.rx_view(), self.tx_view()));
        out
    }

    /// The sensing cycles of this layout. Each cycle senses at most one
    /// channel of prox block A and one of prox block B, both on one Tx line.
    pub fn cycle_table(&self) -> (table: [Cycle; 21])
        ensures
            table@ == cycle_table(self.rx_view(), self.tx_view()),
            forall|k: int|
                0 <= k < MAX_CYCLES ==> cycle_consistent(
                    self.rx_view(),
                    self.tx_view(),
                    #[trigger] table@[k],
                ),
    {
        proof {
            use_type_invariant(self);
        }
        let ghost rx = self.rx@;
        let ghost tx = self.tx@;
        let rx_len = self.rx.len();
        let tx_len = self.tx.len();
        let mut table = [Cycle::unused(); 21];
        let mut count: usize = 0;
        let mut channel: u8 = 0;
        assert(table@ =~= padded(place_rows(rx, tx, 0).cycles));
        let mut t: usize = 0;
        while t < tx_len
            invariant
                rx == self.rx@,
                tx == self.tx@,
                rx_len == rx.len(),
                tx_len == tx.len(),
                rx_len + tx_len <= MAX_PINS,
                t <= tx_len,
                count <= MAX_CYCLES,
                table@ == padded(place_rows(rx, tx, t as nat).cycles),
                count == place_rows(rx, tx, t as nat).cycles.len(),
                channel == place_rows(rx, tx, t as nat).next_channel,
                channel == t * rx_len,
            decreases tx_len - t,
        {
            let line = self.tx.get(t);
            let ghost row_start = place_rows(rx, tx, t as nat);
            let mut r: usize = 0;
            while r < rx_len
                invariant
                    rx == self.rx@,
                    tx == self.tx@,
                    rx_len == rx.len(),
                    tx_len == tx.len(),
                    rx_len + tx_len <= MAX_PINS,
                    t < tx_len,
                    r <= rx_len,
                    line == tx[t as int],
                    row_start == place_rows(rx, tx, t as nat),
                    count <= MAX_CYCLES,
                    table@ == padded(place_row(row_start, line, rx, r as nat).cycles),
                    count == place_row(row_start, line, rx, r as nat).cycles.len(),
                    channel == place_row(row_start, line, rx, r as nat).next_channel,
                    channel == t * rx_len + r,
                decreases rx_len - r,
            {
                let ghost st = place_row(row_start, line, rx, r as nat);
                proof {
                    lemma_pair_bound(t as int, r as int, rx_len as int, tx_len as int);
                }
                count = place_pair(&mut table, count, line, self.rx.get(r), channel, Ghost(st));
                channel += 1;
                r += 1;
            }
            proof {
                assert((t + 1) * rx_len == t * rx_len + rx_len) by (nonlinear_arith);
            }
            t += 1;
        }
        proof {
            lemma_cycles_share_tx(rx, tx);
        }
        table
    }

    /// The bytes of the cycle allocation registers for this layout.
    pub fn cycles(&self) -> (bytes: [u8; 64])
        ensures
            bytes@ == cycle_bytes(cycle_table(self.rx_view(), self.tx_view())),
    {
        let table = self.cycle_table();
        let mut bytes = [0u8; 64];
        let mut i: usize = 0;
        while i < MAX_CYCLES
            invariant
                i <= MAX_CYCLES,
                forall|k: int| 0 <= k < 3 * i ==> bytes@[k] == cycle_bytes(table@)[k],
            decreases MAX_CYCLES - i,
        {
            bytes[i * 3] = CYCLE_HEADER;
            bytes[i * 3 + 1] = match table[i].prox_a_channel {
                Some(c) => c,
                None => UNUSED_CYCLE,
            };
            bytes[i * 3 + 2] = match table[i].prox_b_channel {
                Some(c) => c,
                None => UNUSED_CYCLE,
            };
            i += 1;
        }
        bytes[MAX_CYCLES * 3] = CYCLE_TERMINATOR;
        assert(bytes@ =~= cycle_bytes(table@));
        bytes
    }

    /// The Rx enable bits of the low-power channel, bit 0 for pad 0.
    pub fn alp_rx(&self) -> (mask: u8)
        ensures
            mask == rx_mask(self.alp_rx_view()),
    {
        let p = &self.alp_rx;
        (if p.contains(Pin::RxTx0) { 1u8 } else { 0 })
        + (if p.contains(Pin::RxTx1) { 2u8 } else { 0 })
        + (if p.contains(Pin::RxTx2) { 4u8 } else { 0 })
        + (if p.contains(Pin::RxTx3) { 8u8 } else { 0 })
        + (if p.contains(Pin::RxTx4) { 16u8 } else { 0 })
        + (if p.contains(Pin::RxTx5) { 32u8 } else { 0 })
        + (if p.contains(Pin::RxTx6) { 64u8 } else { 0 })
        + (if p.contains(Pin::RxTx7) { 128u8 } else { 0 })
    }

    /// The Tx enable bits of the low-power channel, bit 0 for pad 0.
    pub fn alp_tx(&self) -> (mask: u16)
        ensures
            mask == tx_mask(self.alp_tx_view()),
    {
        let p = &self.alp_tx;
        (if p.contains(Pin::RxTx0) { 1u16 } else { 0 })
        + (if p.contains(Pin::RxTx1) { 2u16 } else { 0 })
        + (if p.contains(Pin::RxTx2) { 4u16 } else { 0 })
        + (if p.contains(Pin::RxTx3) { 8u16 } else { 0 })
        + (if p.contains(Pin::RxTx4) { 16u16 } else { 0 })
        + (if p.contains(Pin::RxTx5) { 32u16 } else { 0 })
        + (if p.contains(Pin::RxTx6) { 64u16 } else { 0 })
        + (if p.contains(Pin::RxTx7) { 128u16 } else { 0 })
        + (if p.contains(Pin::Tx8) { 256u16 } else { 0 })
        + (if p.contains(Pin::Tx9) { 512u16 } else { 0 })
        + (if p.contains(Pin::Tx10) { 1024u16 } else { 0 })
        + (if p.contains(Pin::Tx11) { 2048u16 } else { 0 })
        + (if p.contains(Pin::Tx12) { 4096u16 } else { 0 })
    }
}

impl Default for Pinout {
    /// The layout without any electrode.
    fn default() -> (p: Pinout)
        ensures
            p.rx_view() == Seq::<Pin>::empty(),
            p.tx_view() == Seq::<Pin>::empty(),
            p.alp_rx_view() == Seq::<Pin>::empty(),
            p.alp_tx_view() == Seq::<Pin>::empty(),
    {
        let none: [Pin; 0] = [];
        let p = Pinout::new(none, none, none, none);
        assert(none@ =~= Seq::<Pin>::empty());
        p
    }
}

} // verus!
