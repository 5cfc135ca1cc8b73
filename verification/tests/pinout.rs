use iqs7211e::config::pinout::{
    Cycle, Pin, Pinout, Pins, CYCLE_HEADER, CYCLE_TERMINATOR, MAX_CYCLES, UNUSED_CYCLE,
};

fn decoded_cycles(layout: &Pinout) -> [(u8, u8); MAX_CYCLES] {
    let bytes = layout.cycles();
    let mut out = [(UNUSED_CYCLE, UNUSED_CYCLE); MAX_CYCLES];
    let mut i = 0usize;
    while i < MAX_CYCLES {
        let base = i * 3;
        out[i] = (bytes[base + 1], bytes[base + 2]);
        i += 1;
    }
    out
}

// Counts how many cycles carry at least one channel.
fn count_non_empty(layout: &Pinout) -> usize {
    let mut n = 0usize;
    let cycles = decoded_cycles(layout);
    let mut i = 0;
    while i < cycles.len() {
        let (prox_a, prox_b) = cycles[i];
        if !(prox_a == UNUSED_CYCLE && prox_b == UNUSED_CYCLE) {
            n += 1;
        }
        i += 1;
    }
    n
}

#[test]
fn pin_group_helpers_work() {
    assert!(Pin::RxTx0.is_a());
    assert!(Pin::RxTx3.is_a());
    assert!(!Pin::RxTx4.is_a());
    assert!(Pin::RxTx4.is_b());
    assert!(Pin::RxTx7.is_b());
    assert!(!Pin::Tx8.is_a());
    assert!(!Pin::Tx8.is_b());
}

#[test]
fn pins_contains_and_subset() {
    let a = Pins::new([Pin::RxTx0, Pin::RxTx2, Pin::RxTx4]);
    let b = Pins::new([Pin::RxTx0, Pin::RxTx2, Pin::RxTx4, Pin::Tx8]);

    assert!(a.contains(Pin::RxTx0));
    assert!(!a.contains(Pin::RxTx1));

    assert!(a.is_subset_of(b)); // a is within b
    assert!(!b.is_subset_of(a)); // b is not within a
}

#[test]
fn mapping_places_rx_before_tx() {
    let layout = Pinout::new(
        [Pin::RxTx0, Pin::RxTx2, Pin::RxTx4, Pin::RxTx6],
        [Pin::Tx8, Pin::Tx9, Pin::Tx10],
        [],
        [],
    );

    let m = layout.mapping();

    assert_eq!(m[0..4], [0u8, 2u8, 4u8, 6u8]);
    assert_eq!(m[4..7], [8u8, 9u8, 10u8]);
}

#[test]
fn alp_subset_ok() {
    let layout_ok = Pinout::new(
        [Pin::RxTx0, Pin::RxTx2, Pin::RxTx4, Pin::RxTx6],
        [Pin::Tx8, Pin::Tx9, Pin::Tx10],
        [],
        [],
    )
    .with_alp_rxtx([Pin::RxTx0, Pin::RxTx4], [Pin::Tx8]);

    let m = layout_ok.mapping();
    assert_eq!(m[0], Pin::RxTx0.index());
}

#[test]
fn cycles_pair_a_and_b_same_tx_simple() {
    let layout = Pinout::new(
        [Pin::RxTx0, Pin::RxTx4], // A then B
        [Pin::Tx8, Pin::Tx9],
        [],
        [],
    );

    let cycles = decoded_cycles(&layout);

    // Only the first two cycles are in use, one for each Tx.
    assert_eq!(count_non_empty(&layout), 2);

    // tx8/rx0 -> ch0 (A) starts cycle 0
    // tx8/rx4 -> ch1 (B) backfills cycle 0
    // tx9/rx0 -> ch2 (A) starts cycle 1
    // tx9/rx4 -> ch3 (B) backfills cycle 1

    assert_eq!(cycles[0].0, 0);
    assert_eq!(cycles[0].1, 1);

    assert_eq!(cycles[1].0, 2);
    assert_eq!(cycles[1].1, 3);
}

#[test]
fn cycles_bytes_are_register_ready() {
    let layout = Pinout::new([Pin::RxTx0, Pin::RxTx4], [Pin::Tx8, Pin::Tx9], [], []);

    let bytes = layout.cycles();

    let separator = 0x05;
    assert_eq!(separator, bytes[3]);

    // Cycle 0 bytes (prox A channel 0, prox B channel 1)
    assert_eq!(bytes[1], 0);
    assert_eq!(bytes[2], 1);

    // Cycle 1 bytes (prox A channel 2, prox B channel 3)
    assert_eq!(bytes[4], 2);
    assert_eq!(bytes[5], 3);

    // Unused cycles keep the header and hold the unused mark in both slots.
    assert_eq!(bytes[6], separator);
    assert_eq!(bytes[7], UNUSED_CYCLE);
    assert_eq!(bytes[8], UNUSED_CYCLE);

    // The terminator closes the table.
    assert_eq!(bytes[MAX_CYCLES * 3], 0x01);
}

#[test]
fn cycles_backfill_regardless_of_rx_order() {
    let layout = Pinout::new(
        [Pin::RxTx4, Pin::RxTx0], // B then A
        [Pin::Tx8],
        [],
        [],
    );

    let cycles = decoded_cycles(&layout);
    assert_eq!(count_non_empty(&layout), 1);

    // tx8/rx4 -> ch0 (B) opens a cycle with A unused
    // tx8/rx0 -> ch1 (A) backfills the same cycle
    let c0 = cycles[0];
    assert_eq!(c0.0, 1);
    assert_eq!(c0.1, 0);
}

#[test]
fn cycles_multiple_pairs_for_single_tx_are_packed() {
    let layout = Pinout::new(
        [Pin::RxTx0, Pin::RxTx4, Pin::RxTx2, Pin::RxTx6], // A0, B0, A1, B1
        [Pin::Tx8],
        [],
        [],
    );

    let cycles = decoded_cycles(&layout);
    assert_eq!(count_non_empty(&layout), 2);

    // cycle 0: A(ch0), B(ch1)
    assert_eq!(cycles[0].0, 0);
    assert_eq!(cycles[0].1, 1);

    // cycle 1: A(ch2), B(ch3)
    assert_eq!(cycles[1].0, 2);
    assert_eq!(cycles[1].1, 3);
}

#[test]
fn cycles_with_only_a_side_create_distinct_cycles() {
    let layout = Pinout::new(
        [Pin::RxTx0, Pin::RxTx2, Pin::RxTx3], // all in block A
        [Pin::Tx8],
        [],
        [],
    );

    let cycles = decoded_cycles(&layout);
    assert_eq!(count_non_empty(&layout), 3);

    assert_eq!(cycles[0].0, 0);
    assert_eq!(cycles[0].1, UNUSED_CYCLE);

    assert_eq!(cycles[1].0, 1);
    assert_eq!(cycles[1].1, UNUSED_CYCLE);

    assert_eq!(cycles[2].0, 2);
    assert_eq!(cycles[2].1, UNUSED_CYCLE);
}

#[test]
fn cycles_span_multiple_txs_and_preserve_channel_indexing() {
    // A0, B0, A1 across two Tx lines.
    let layout = Pinout::new([Pin::RxTx0, Pin::RxTx4, Pin::RxTx2], [Pin::Tx8, Pin::Tx9], [], []);

    let cycles = decoded_cycles(&layout);

    // TX8: (A0,B0) -> cycle 0, then (A1,unused) -> cycle 1
    // TX9: (A0,B0) -> cycle 2, then (A1,unused) -> cycle 3
    assert!(count_non_empty(&layout) >= 4);

    assert_eq!(cycles[0].0, 0);
    assert_eq!(cycles[0].1, 1);

    assert_eq!(cycles[1].0, 2);
    assert_eq!(cycles[1].1, UNUSED_CYCLE);

    assert_eq!(cycles[2].0, 3);
    assert_eq!(cycles[2].1, 4);
}

#[test]
fn cycle_table_pairs_both_blocks_on_each_tx() {
    let layout = Pinout::new([Pin::RxTx0, Pin::RxTx4], [Pin::Tx8, Pin::Tx9], [], []);

    let table = layout.cycle_table();
    assert_eq!(
        table[0],
        Cycle { tx_line: 8, prox_a_channel: Some(0), prox_b_channel: Some(1) }
    );
    assert_eq!(
        table[1],
        Cycle { tx_line: 9, prox_a_channel: Some(2), prox_b_channel: Some(3) }
    );
    for k in 2..MAX_CYCLES {
        assert_eq!(table[k], Cycle::unused());
        assert!(table[k].is_empty());
    }

    let bytes = layout.cycles();
    assert_eq!(&bytes[0..6], &[0x05, 0, 1, 0x05, 2, 3]);
    for k in 0..MAX_CYCLES {
        assert_eq!(bytes[3 * k], CYCLE_HEADER);
    }
    for k in 2..MAX_CYCLES {
        assert_eq!(bytes[3 * k + 1], 0xFF);
        assert_eq!(bytes[3 * k + 2], 0xFF);
    }
    assert_eq!(bytes[63], CYCLE_TERMINATOR);
    assert_eq!(bytes[63], 0x01);
}

#[test]
fn electrodes_of_neither_block_take_an_index_but_no_cycle() {
    // Tx8 as an Rx electrode lies in neither block.
    let layout = Pinout::new([Pin::Tx8, Pin::RxTx0], [Pin::Tx9, Pin::Tx10], [], []);
    let table = layout.cycle_table();
    // tx9/rx8 -> ch0 (none), tx9/rx0 -> ch1 (A), tx10/rx8 -> ch2 (none), tx10/rx0 -> ch3 (A)
    assert_eq!(
        table[0],
        Cycle { tx_line: 9, prox_a_channel: Some(1), prox_b_channel: None }
    );
    assert_eq!(
        table[1],
        Cycle { tx_line: 10, prox_a_channel: Some(3), prox_b_channel: None }
    );
    assert_eq!(table[2], Cycle::unused());
}

#[test]
fn allocation_stops_at_the_last_timeslot() {
    // Four block A electrodes on nine Tx lines ask for 36 cycles.
    let layout = Pinout::new(
        [Pin::RxTx0, Pin::RxTx1, Pin::RxTx2, Pin::RxTx3],
        [
            Pin::RxTx4,
            Pin::RxTx5,
            Pin::RxTx6,
            Pin::RxTx7,
            Pin::Tx8,
            Pin::Tx9,
            Pin::Tx10,
            Pin::Tx11,
            Pin::Tx12,
        ],
        [],
        [],
    );
    let table = layout.cycle_table();
    let tx = [4u8, 5, 6, 7, 8, 9, 10, 11, 12];
    for k in 0..MAX_CYCLES {
        // Cycle k holds pair k: Tx line k / 4, Rx electrode k % 4.
        assert_eq!(
            table[k],
            Cycle { tx_line: tx[k / 4], prox_a_channel: Some(k as u8), prox_b_channel: None }
        );
    }
    assert_eq!(count_non_empty(&layout), 21);
}

#[test]
fn a_full_table_still_takes_backfills() {
    // Five Tx lines with four block A electrodes fill 20 cycles; the sixth
    // line opens the last one, and its block B electrode still joins it.
    let layout = Pinout::new(
        [Pin::RxTx0, Pin::RxTx1, Pin::RxTx2, Pin::RxTx3, Pin::RxTx4],
        [Pin::RxTx5, Pin::RxTx6, Pin::RxTx7, Pin::Tx8, Pin::Tx9, Pin::Tx10],
        [],
        [],
    );
    let table = layout.cycle_table();
    // Line 0 (pad 5): channels 0..3 open cycles 0..3, channel 4 (B) joins cycle 0.
    assert_eq!(
        table[0],
        Cycle { tx_line: 5, prox_a_channel: Some(0), prox_b_channel: Some(4) }
    );
    assert_eq!(
        table[1],
        Cycle { tx_line: 5, prox_a_channel: Some(1), prox_b_channel: None }
    );
    // Line 5 (pad 10): channel 25 opens cycle 20, channels 26..28 are left
    // out, channel 29 (B) joins cycle 20.
    assert_eq!(
        table[20],
        Cycle { tx_line: 10, prox_a_channel: Some(25), prox_b_channel: Some(29) }
    );
}

#[test]
fn every_channel_sits_on_its_own_tx_line() {
    let rx = [Pin::RxTx0, Pin::RxTx4, Pin::RxTx1, Pin::RxTx5, Pin::Tx12];
    let tx = [Pin::Tx8, Pin::Tx9, Pin::Tx10];
    let layout = Pinout::new(rx, tx, [], []);
    let table = layout.cycle_table();
    let mut used = 0;
    for c in table.iter() {
        if let Some(a) = c.prox_a_channel {
            assert_eq!(tx[a as usize / rx.len()].index(), c.tx_line);
            assert!(rx[a as usize % rx.len()].is_a());
        }
        if let Some(b) = c.prox_b_channel {
            assert_eq!(tx[b as usize / rx.len()].index(), c.tx_line);
            assert!(rx[b as usize % rx.len()].is_b());
        }
        if !c.is_empty() {
            used += 1;
        }
    }
    assert_eq!(used, 6);
}

#[test]
fn low_power_masks_have_one_bit_for_each_pad() {
    let layout = Pinout::new(
        [Pin::RxTx0, Pin::RxTx2, Pin::RxTx7],
        [Pin::RxTx1, Pin::Tx8, Pin::Tx12],
        [Pin::RxTx0, Pin::RxTx7],
        [Pin::RxTx1, Pin::Tx12],
    );
    assert_eq!(layout.alp_rx(), 0b1000_0001);
    assert_eq!(layout.alp_tx(), 0b0001_0000_0000_0010);
    assert_eq!(layout.low_power_rx().len(), 2);
    assert_eq!(layout.low_power_tx().get(1), Pin::Tx12);
}

#[test]
fn layout_validity_is_checked_before_construction() {
    assert!(Pinout::is_valid([Pin::RxTx0, Pin::RxTx2], [Pin::Tx8, Pin::Tx9], [Pin::RxTx0], [Pin::Tx8]));
    // The low-power Rx electrode is no trackpad Rx electrode.
    assert!(!Pinout::is_valid([Pin::RxTx0, Pin::RxTx2], [Pin::Tx8, Pin::Tx9], [Pin::RxTx4], [Pin::Tx8]));
    // The low-power Tx electrode is no trackpad Tx electrode.
    assert!(!Pinout::is_valid([Pin::RxTx0, Pin::RxTx2], [Pin::Tx8], [Pin::RxTx0], [Pin::Tx9]));
    // Fourteen pads.
    assert!(!Pinout::is_valid([Pin::RxTx0; 7], [Pin::Tx8; 7], [], []));
    assert!(Pinout::is_valid([Pin::RxTx0; 6], [Pin::Tx8; 7], [], []));
}

#[test]
fn only_valid_layouts_are_made() {
    let layout = Pinout::try_new([Pin::RxTx0, Pin::RxTx4], [Pin::Tx8], [Pin::RxTx4], []).unwrap();
    assert_eq!(layout.rx().len(), 2);
    assert_eq!(layout.rx().get(1), Pin::RxTx4);
    assert_eq!(layout.tx().get(0), Pin::Tx8);
    assert_eq!(layout.alp_rx(), 0x10);
    assert!(Pinout::try_new([Pin::RxTx0], [Pin::Tx8], [Pin::RxTx1], []).is_none());
    assert!(Pinout::try_new([Pin::RxTx0], [Pin::Tx8], [], [Pin::Tx9]).is_none());
    assert!(Pinout::try_new([Pin::RxTx0; 10], [Pin::Tx8; 4], [], []).is_none());
    assert!(Pinout::try_new([Pin::RxTx0; 14], [], [], []).is_none());
    assert!(Pinout::try_new([Pin::RxTx0; 13], [], [], []).is_some());
}

#[test]
fn default_layout_has_no_electrode() {
    let layout = Pinout::default();
    assert_eq!(layout.rx().len(), 0);
    assert_eq!(layout.tx().len(), 0);
    assert_eq!(layout.mapping(), [0u8; 14]);
    assert_eq!(count_non_empty(&layout), 0);
}

#[test]
fn a_layout_takes_the_larger_block_times_the_tx_lines() {
    // Three of block A, one of block B, one of neither, on two lines.
    let layout = Pinout::new(
        [Pin::RxTx0, Pin::RxTx5, Pin::RxTx1, Pin::Tx12, Pin::RxTx2],
        [Pin::Tx8, Pin::Tx9],
        [],
        [],
    );
    assert_eq!(count_non_empty(&layout), 2 * 3);
    // Two of block B, none of block A, on three lines.
    let layout =
        Pinout::new([Pin::RxTx4, Pin::RxTx7], [Pin::Tx8, Pin::Tx9, Pin::Tx10], [], []);
    assert_eq!(count_non_empty(&layout), 3 * 2);
    // A Tx pin that is listed twice counts twice.
    let layout = Pinout::new([Pin::RxTx0, Pin::RxTx4, Pin::RxTx1], [Pin::Tx8, Pin::Tx8], [], []);
    assert_eq!(count_non_empty(&layout), 2 * 2);
    // Nothing of either block: no cycle.
    let layout = Pinout::new([Pin::Tx10, Pin::Tx11], [Pin::Tx8, Pin::Tx9], [], []);
    assert_eq!(count_non_empty(&layout), 0);
    // Three of each block on seven lines ask for exactly all timeslots.
    let layout = Pinout::new(
        [Pin::RxTx0, Pin::RxTx1, Pin::RxTx2, Pin::RxTx4, Pin::RxTx5, Pin::RxTx6],
        [Pin::RxTx7, Pin::Tx8, Pin::Tx9, Pin::Tx10, Pin::Tx11, Pin::Tx12, Pin::RxTx3],
        [],
        [],
    );
    assert_eq!(count_non_empty(&layout), 21);
    // Four of block A on six lines ask for 24: all timeslots are taken.
    let layout = Pinout::new(
        [Pin::RxTx0, Pin::RxTx1, Pin::RxTx2, Pin::RxTx3],
        [Pin::RxTx4, Pin::Tx8, Pin::Tx9, Pin::Tx10, Pin::Tx11, Pin::Tx12],
        [],
        [],
    );
    assert_eq!(count_non_empty(&layout), 21);
    // The cycles in use come first.
    let cycles = decoded_cycles(&layout);
    assert!(cycles.iter().all(|c| *c != (UNUSED_CYCLE, UNUSED_CYCLE)));
}
