//! How many cycles a layout takes: the allocator packs as tightly as the
//! rule of one Tx line per cycle allows.

use crate::config::pinout::{
    first_free, lemma_first_free, place, place_row, place_rows, used_cycles, Allocation, Cycle,
    Pin, MAX_CYCLES,
};
use vstd::prelude::*;

verus! {

/// Whether `cycle` drives `line` and, where a block is named, holds a
/// channel of that block (`true` for block A).
pub open spec fn on_line(cycle: Cycle, line: u8, block: Option<bool>) -> bool {
    cycle.tx_line == line && match block {
        None => true,
        Some(block_a) => if block_a {
            cycle.prox_a_channel is Some
        } else {
            cycle.prox_b_channel is Some
        },
    }
}

/// One for a cycle that `on_line` holds of, else zero.
pub open spec fn weight(cycle: Cycle, line: u8, block: Option<bool>) -> nat {
    if on_line(cycle, line, block) {
        1
    } else {
        0
    }
}

/// Number of cycles among the first `n` that `on_line` holds of.
pub open spec fn count(cycles: Seq<Cycle>, line: u8, block: Option<bool>, n: nat) -> nat
    decreases n,
{
    if n == 0 {
        0
    } else {
        count(cycles, line, block, (n - 1) as nat) + weight(cycles[n - 1], line, block)
    }
}

/// Number of cycles that `on_line` holds of.
pub open spec fn total(cycles: Seq<Cycle>, line: u8, block: Option<bool>) -> nat {
    count(cycles, line, block, cycles.len())
}

/// Whether the pad lies in the block (`true` for block A).
pub open spec fn in_block(pin: Pin, block_a: bool) -> bool {
    if block_a {
        pin.is_a()
    } else {
        pin.is_b()
    }
}

/// Number of pins of the block among the first `n` Rx pins.
pub open spec fn block_count(rx: Seq<Pin>, block_a: bool, n: nat) -> nat
    decreases n,
{
    if n == 0 {
        0
    } else {
        block_count(rx, block_a, (n - 1) as nat) + if in_block(rx[n - 1], block_a) {
            1nat
        } else {
            0nat
        }
    }
}

/// Number of Rx pins of the block.
pub open spec fn block_size(rx: Seq<Pin>, block_a: bool) -> nat {
    block_count(rx, block_a, rx.len())
}

/// Number of Rx pins of the larger block: the cycles that one Tx line
/// takes.
pub open spec fn larger_block(rx: Seq<Pin>) -> nat {
    if block_size(rx, true) >= block_size(rx, false) {
        block_size(rx, true)
    } else {
        block_size(rx, false)
    }
}

/// Number of entries among the first `m` Tx pins that drive `line`.
pub open spec fn rows_of(tx: Seq<Pin>, line: u8, m: nat) -> nat
    decreases m,
{
    if m == 0 {
        0
    } else {
        rows_of(tx, line, (m - 1) as nat) + if tx[m - 1].index() == line {
            1nat
        } else {
            0nat
        }
    }
}

/// The larger of two numbers.
pub open spec fn larger(a: int, b: int) -> int {
    if a >= b {
        a
    } else {
        b
    }
}

/// The first `m` Tx lines are placed in full, none of their electrodes
/// left out: each line has as many channels of each block as it has rows
/// times the size of the block, in as many cycles as it has rows times the
/// size of the larger block.
pub open spec fn settled(cycles: Seq<Cycle>, rx: Seq<Pin>, tx: Seq<Pin>, m: nat) -> bool {
    &&& cycles.len() == m * larger_block(rx)
    &&& forall|l: u8|
        {
            let rows = #[trigger] rows_of(tx, l, m);
            &&& total(cycles, l, Some(true)) == rows * block_size(rx, true)
            &&& total(cycles, l, Some(false)) == rows * block_size(rx, false)
            &&& total(cycles, l, None) == rows * larger_block(rx)
        }
}

/// The first `m` Tx lines are placed in full and the first `n` Rx pins of
/// the next line are placed, none of the electrodes left out.
pub open spec fn within(cycles: Seq<Cycle>, rx: Seq<Pin>, tx: Seq<Pin>, m: nat, n: nat) -> bool {
    let line = tx[m as int].index();
    let before = rows_of(tx, line, m);
    let a = before * block_size(rx, true) + block_count(rx, true, n);
    let b = before * block_size(rx, false) + block_count(rx, false, n);
    &&& total(cycles, line, Some(true)) == a
    &&& total(cycles, line, Some(false)) == b
    &&& total(cycles, line, None) == larger(a as int, b as int)
    &&& cycles.len() == m * larger_block(rx) + larger(a as int, b as int) - before * larger_block(
        rx,
    )
    &&& forall|l: u8|
        l != line ==> {
            let rows = #[trigger] rows_of(tx, l, m);
            &&& total(cycles, l, Some(true)) == rows * block_size(rx, true)
            &&& total(cycles, l, Some(false)) == rows * block_size(rx, false)
            &&& total(cycles, l, None) == rows * larger_block(rx)
        }
}

/// All timeslots are taken, and the layout asks for at least that many.
pub open spec fn full(cycles: Seq<Cycle>, rx: Seq<Pin>, tx: Seq<Pin>) -> bool {
    cycles.len() == MAX_CYCLES && tx.len() * larger_block(rx) >= MAX_CYCLES
}

proof fn lemma_count_same(a: Seq<Cycle>, b: Seq<Cycle>, line: u8, block: Option<bool>, n: nat)
    requires
        n <= a.len(),
        n <= b.len(),
        forall|k: int| 0 <= k < n ==> a[k] == b[k],
    ensures
        count(a, line, block, n) == count(b, line, block, n),
    decreases n,
{
    if n > 0 {
        lemma_count_same(a, b, line, block, (n - 1) as nat);
    }
}

proof fn lemma_count_update_upto(
    cycles: Seq<Cycle>,
    i: int,
    c: Cycle,
    line: u8,
    block: Option<bool>,
    n: nat,
)
    requires
        0 <= i < n <= cycles.len(),
    ensures
        count(cycles.update(i, c), line, block, n) + weight(cycles[i], line, block) == count(
            cycles,
            line,
            block,
            n,
        ) + weight(c, line, block),
    decreases n,
{
    if n - 1 == i {
        lemma_count_same(cycles.update(i, c), cycles, line, block, (n - 1) as nat);
    } else {
        lemma_count_update_upto(cycles, i, c, line, block, (n - 1) as nat);
    }
}

/// Replacing a cycle changes a count by what the new cycle weighs more
/// than the old one.
proof fn lemma_count_update(cycles: Seq<Cycle>, i: int, c: Cycle, line: u8, block: Option<bool>)
    requires
        0 <= i < cycles.len(),
    ensures
        total(cycles.update(i, c), line, block) + weight(cycles[i], line, block) == total(
            cycles,
            line,
            block,
        ) + weight(c, line, block),
{
    lemma_count_update_upto(cycles, i, c, line, block, cycles.len());
}

/// A new cycle adds its weight to a count.
proof fn lemma_count_push(cycles: Seq<Cycle>, c: Cycle, line: u8, block: Option<bool>)
    ensures
        total(cycles.push(c), line, block) == total(cycles, line, block) + weight(c, line, block),
{
    lemma_count_same(cycles.push(c), cycles, line, block, cycles.len());
}

/// A line has no more channels of a block than cycles, and as many where
/// none of its cycles has the slot of that block empty.
proof fn lemma_count_filled(cycles: Seq<Cycle>, line: u8, block_a: bool, n: nat)
    requires
        n <= cycles.len(),
    ensures
        count(cycles, line, Some(block_a), n) <= count(cycles, line, None, n),
        (forall|j: int| 0 <= j < n ==> !(#[trigger] cycles[j]).accepts(line, block_a)) ==> count(
            cycles,
            line,
            Some(block_a),
            n,
        ) == count(cycles, line, None, n),
    decreases n,
{
    if n > 0 {
        lemma_count_filled(cycles, line, block_a, (n - 1) as nat);
        if forall|j: int| 0 <= j < n ==> !(#[trigger] cycles[j]).accepts(line, block_a) {
            assert(!cycles[n - 1].accepts(line, block_a));
        }
    }
}

/// A line with a cycle whose slot of a block is empty has fewer channels
/// of that block than cycles.
proof fn lemma_count_free(cycles: Seq<Cycle>, line: u8, block_a: bool, n: nat, i: int)
    requires
        0 <= i < n <= cycles.len(),
        cycles[i].accepts(line, block_a),
    ensures
        count(cycles, line, Some(block_a), n) < count(cycles, line, None, n),
    decreases n,
{
    lemma_count_filled(cycles, line, block_a, (n - 1) as nat);
    if i < n - 1 {
        lemma_count_free(cycles, line, block_a, (n - 1) as nat, i);
    }
}

/// What one pair does to the counts. With a slot free on its line the
/// electrode fills it; without, it opens a cycle if a timeslot is left;
/// else it is left out and nothing changes.
proof fn lemma_place_counts(st: Allocation, tx: Pin, rx: Pin)
    requires
        st.cycles.len() <= MAX_CYCLES,
        rx.is_a() || rx.is_b(),
    ensures
        ({
            let after = place(st, tx, rx).cycles;
            let line = tx.index();
            let block_a = rx.is_a();
            let free = total(st.cycles, line, Some(block_a)) < total(st.cycles, line, None);
            let grows: nat = if !free && st.cycles.len() < MAX_CYCLES {
                1
            } else {
                0
            };
            let fills: nat = if free || st.cycles.len() < MAX_CYCLES {
                1
            } else {
                0
            };
            &&& after.len() == st.cycles.len() + grows
            &&& total(st.cycles, line, Some(block_a)) <= total(st.cycles, line, None)
            &&& forall|l: u8, block: Option<bool>|
                #[trigger] total(after, l, block) == total(st.cycles, l, block) + if l != line {
                    0nat
                } else if block is None {
                    grows
                } else if block == Some(block_a) {
                    fills
                } else {
                    0nat
                }
        }),
{
    let after = place(st, tx, rx).cycles;
    let line = tx.index();
    let block_a = rx.is_a();
    let channel = st.next_channel as u8;
    lemma_first_free(st.cycles, line, block_a, 0);
    lemma_count_filled(st.cycles, line, block_a, st.cycles.len());
    match first_free(st.cycles, line, block_a, 0) {
        Some(i) => {
            lemma_count_free(st.cycles, line, block_a, st.cycles.len(), i);
            let filled = st.cycles[i].with_channel(channel, block_a);
            assert forall|l: u8, block: Option<bool>|
                #[trigger] total(after, l, block) == total(st.cycles, l, block) + if l == line
                    && block == Some(block_a) {
                    1nat
                } else {
                    0nat
                } by {
                lemma_count_update(st.cycles, i, filled, l, block);
            }
        },
        None => {
            if st.cycles.len() < MAX_CYCLES {
                let opened = Cycle { tx_line: line, ..Cycle::unused() }.with_channel(
                    channel,
                    block_a,
                );
                assert forall|l: u8, block: Option<bool>|
                    #[trigger] total(after, l, block) == total(st.cycles, l, block) + if l == line
                        && (block is None || block == Some(block_a)) {
                        1nat
                    } else {
                        0nat
                    } by {
                    lemma_count_push(st.cycles, opened, l, block);
                }
            }
        },
    }
}

proof fn lemma_block_count_grows(rx: Seq<Pin>, block_a: bool, n: nat, upto: nat)
    requires
        n <= upto <= rx.len(),
    ensures
        block_count(rx, block_a, n) <= block_count(rx, block_a, upto),
    decreases upto - n,
{
    if n < upto {
        lemma_block_count_grows(rx, block_a, n, (upto - 1) as nat);
    }
}

proof fn lemma_scale(k: int, a: int, b: int)
    requires
        0 <= k,
        0 <= a <= b,
    ensures
        k * a <= k * b,
        (k + 1) * a == k * a + a,
        (k + 1) * b == k * b + b,
{
    assert(k * a <= k * b && (k + 1) * a == k * a + a && (k + 1) * b == k * b + b)
        by (nonlinear_arith)
        requires
            0 <= k,
            0 <= a <= b,
    ;
}

/// The size of the larger block times a number of rows is the larger of
/// the two sizes times it.
proof fn lemma_rows_of_larger(rx: Seq<Pin>, k: nat)
    ensures
        larger((k * block_size(rx, true)) as int, (k * block_size(rx, false)) as int) == k
            * larger_block(rx),
        k * block_size(rx, true) <= k * larger_block(rx),
        k * block_size(rx, false) <= k * larger_block(rx),
        (k + 1) * block_size(rx, true) == k * block_size(rx, true) + block_size(rx, true),
        (k + 1) * block_size(rx, false) == k * block_size(rx, false) + block_size(rx, false),
        (k + 1) * larger_block(rx) == k * larger_block(rx) + larger_block(rx),
{
    let a = block_size(rx, true) as int;
    let b = block_size(rx, false) as int;
    if a <= b {
        lemma_scale(k as int, a, b);
    } else {
        lemma_scale(k as int, b, a);
    }
}

/// One more pair of a row: what was tracked stays tracked.
proof fn lemma_row_step(rx: Seq<Pin>, tx: Seq<Pin>, st: Allocation, m: nat, n: nat)
    requires
        m < tx.len(),
        n < rx.len(),
        st.cycles.len() <= MAX_CYCLES,
        full(st.cycles, rx, tx) || within(st.cycles, rx, tx, m, n),
    ensures
        place(st, tx[m as int], rx[n as int]).cycles.len() <= MAX_CYCLES,
        full(place(st, tx[m as int], rx[n as int]).cycles, rx, tx) || within(
            place(st, tx[m as int], rx[n as int]).cycles,
            rx,
            tx,
            m,
            (n + 1) as nat,
        ),
{
    let pin = rx[n as int];
    let after = place(st, tx[m as int], pin).cycles;
    let line = tx[m as int].index();
    let before = rows_of(tx, line, m);
    let big = larger_block(rx);
    if !pin.is_a() && !pin.is_b() {
        assert(after == st.cycles);
    } else {
        let block_a = pin.is_a();
        lemma_place_counts(st, tx[m as int], pin);
        if full(st.cycles, rx, tx) {
            assert(after.len() == MAX_CYCLES);
        } else {
            let free = total(st.cycles, line, Some(block_a)) < total(st.cycles, line, None);
            if !free && st.cycles.len() >= MAX_CYCLES {
                // An electrode is left out only where its line alone asks
                // for more cycles than it has; the layout then asks for
                // more than all timeslots, and these were taken already.
                lemma_block_count_grows(rx, block_a, (n + 1) as nat, rx.len());
                lemma_rows_of_larger(rx, before);
                lemma_rows_of_larger(rx, m);
                assert((m + 1) * big <= tx.len() * big) by (nonlinear_arith)
                    requires
                        m + 1 <= tx.len(),
                        0 <= big,
                ;
                assert(full(st.cycles, rx, tx));
            } else {
                assert forall|l: u8| l != line implies {
                    let rows = #[trigger] rows_of(tx, l, m);
                    &&& total(after, l, Some(true)) == rows * block_size(rx, true)
                    &&& total(after, l, Some(false)) == rows * block_size(rx, false)
                    &&& total(after, l, None) == rows * big
                } by {
                    assert(total(after, l, Some(true)) == total(st.cycles, l, Some(true)));
                    assert(total(after, l, Some(false)) == total(st.cycles, l, Some(false)));
                    assert(total(after, l, None) == total(st.cycles, l, None));
                }
                assert(total(after, line, Some(block_a)) == total(st.cycles, line, Some(block_a))
                    + 1);
                assert(total(after, line, Some(!block_a)) == total(
                    st.cycles,
                    line,
                    Some(!block_a),
                ));
                assert(total(after, line, None) == total(st.cycles, line, None) + if free {
                    0nat
                } else {
                    1nat
                });
            }
        }
    }
}

/// A row, pin by pin.
proof fn lemma_row(rx: Seq<Pin>, tx: Seq<Pin>, st: Allocation, m: nat, n: nat)
    requires
        m < tx.len(),
        n <= rx.len(),
        st.cycles.len() <= MAX_CYCLES,
        full(st.cycles, rx, tx) || within(st.cycles, rx, tx, m, 0),
    ensures
        place_row(st, tx[m as int], rx, n).cycles.len() <= MAX_CYCLES,
        full(place_row(st, tx[m as int], rx, n).cycles, rx, tx) || within(
            place_row(st, tx[m as int], rx, n).cycles,
            rx,
            tx,
            m,
            n,
        ),
    decreases n,
{
    if n > 0 {
        lemma_row(rx, tx, st, m, (n - 1) as nat);
        lemma_row_step(rx, tx, place_row(st, tx[m as int], rx, (n - 1) as nat), m, (n - 1) as nat);
    }
}

/// The rows, one by one.
proof fn lemma_rows(rx: Seq<Pin>, tx: Seq<Pin>, m: nat)
    requires
        m <= tx.len(),
    ensures
        place_rows(rx, tx, m).cycles.len() <= MAX_CYCLES,
        full(place_rows(rx, tx, m).cycles, rx, tx) || settled(
            place_rows(rx, tx, m).cycles,
            rx,
            tx,
            m,
        ),
    decreases m,
{
    let big = larger_block(rx);
    if m == 0 {
        let none = place_rows(rx, tx, 0).cycles;
        assert(none.len() == 0);
        assert(0 * big == 0) by (nonlinear_arith);
        assert forall|l: u8|
            {
                let rows = #[trigger] rows_of(tx, l, 0);
                &&& total(none, l, Some(true)) == rows * block_size(rx, true)
                &&& total(none, l, Some(false)) == rows * block_size(rx, false)
                &&& total(none, l, None) == rows * big
            } by {
            assert(0 * block_size(rx, true) == 0 && 0 * block_size(rx, false) == 0) by (nonlinear_arith);
        }
    } else {
        let row = (m - 1) as nat;
        let start = place_rows(rx, tx, row);
        let line = tx[row as int].index();
        let before = rows_of(tx, line, row);
        lemma_rows(rx, tx, row);
        lemma_rows_of_larger(rx, before);
        lemma_rows_of_larger(rx, row);
        if !full(start.cycles, rx, tx) {
            // The row begins where the rows before it ended.
            assert(rows_of(tx, line, row) == before);
            assert(within(start.cycles, rx, tx, row, 0));
        }
        lemma_row(rx, tx, start, row, rx.len());
        let end = place_rows(rx, tx, m).cycles;
        if !full(end, rx, tx) {
            // The rows end where this row ended.
            assert(within(end, rx, tx, row, rx.len()));
            assert forall|l: u8|
                {
                    let rows = #[trigger] rows_of(tx, l, m);
                    &&& total(end, l, Some(true)) == rows * block_size(rx, true)
                    &&& total(end, l, Some(false)) == rows * block_size(rx, false)
                    &&& total(end, l, None) == rows * big
                } by {
                if l != line {
                    assert(rows_of(tx, l, m) == rows_of(tx, l, row));
                } else {
                    assert(rows_of(tx, l, m) == before + 1);
                    lemma_rows_of_larger(rx, before + 1);
                }
            }
        }
    }
}

/// The number of cycles that a layout takes is the number of Tx pins times
/// the size of the larger block of Rx pins, or the number of timeslots
/// where that is less: no electrode is left out while a timeslot is free,
/// and no packing with one Tx line per cycle takes fewer cycles.
pub proof fn lemma_used_cycles(rx: Seq<Pin>, tx: Seq<Pin>)
    ensures
        used_cycles(rx, tx) == if tx.len() * larger_block(rx) <= MAX_CYCLES {
            tx.len() * larger_block(rx)
        } else {
            MAX_CYCLES as nat
        },
{
    lemma_rows(rx, tx, tx.len());
}

} // verus!
