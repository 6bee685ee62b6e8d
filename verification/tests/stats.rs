use vidi::stats::{
    axis_label, clamp_bin, heatmap_cell, histogram_counts, histogram_tick_edges, max_count,
    palette_index, quartile_positions, radar_axis_count, PALETTE_SIZE, PIE_SEGMENTS,
};
use vidi::text::{decimal, prefixed_decimal};

#[test]
fn clamp_bin_sends_the_maximum_to_the_last_bin() {
    assert_eq!(clamp_bin(0, 5), 0);
    assert_eq!(clamp_bin(4, 5), 4);
    assert_eq!(clamp_bin(5, 5), 4);
    assert_eq!(clamp_bin(99, 5), 4);
}

#[test]
fn histogram_counts_per_bin() {
    assert_eq!(histogram_counts(&[0, 1, 1, 3, 4, 9], 4), vec![1, 2, 0, 3]);
    assert_eq!(histogram_counts(&[], 3), vec![0, 0, 0]);
    assert_eq!(histogram_counts(&[7, 7], 1), vec![2]);
}

#[test]
fn histogram_counts_add_up() {
    let raw: Vec<usize> = (0..200).map(|i| (i * 37) % 23).collect();
    for bins in 1..25 {
        let counts = histogram_counts(&raw, bins);
        assert_eq!(counts.len(), bins);
        assert_eq!(counts.iter().sum::<usize>(), raw.len());
    }
}

#[test]
fn max_count_values() {
    assert_eq!(max_count(&[]), 1);
    assert_eq!(max_count(&[0, 0]), 0);
    assert_eq!(max_count(&[3, 9, 2]), 9);
}

#[test]
fn tick_edges() {
    assert_eq!(histogram_tick_edges(1), vec![0, 1]);
    assert_eq!(histogram_tick_edges(4), vec![0, 1, 2, 3, 4]);
    assert_eq!(histogram_tick_edges(8), vec![0, 1, 2, 3, 4, 5, 6, 7, 8]);
    assert_eq!(histogram_tick_edges(30), vec![0, 3, 6, 9, 12, 15, 18, 21, 24, 27, 30]);
    assert_eq!(histogram_tick_edges(16), vec![0, 2, 4, 6, 8, 10, 12, 14, 16]);
}

#[test]
fn quartiles() {
    assert_eq!(quartile_positions(1), (0, 0, 0, 0));
    assert_eq!(quartile_positions(2), (0, 1, 0, 1));
    assert_eq!(quartile_positions(4), (1, 2, 1, 3));
    assert_eq!(quartile_positions(5), (2, 2, 1, 3));
    assert_eq!(quartile_positions(10), (4, 5, 2, 7));
}

#[test]
fn quartiles_are_ordered() {
    for n in 1..500 {
        let (lo, hi, q1, q3) = quartile_positions(n);
        assert!(q1 <= lo && lo <= hi && hi <= q3 && q3 < n);
    }
}

#[test]
fn heatmap_cells() {
    assert_eq!(heatmap_cell(0, 0, 2, 3, 6), Some((1, 0, 3)));
    assert_eq!(heatmap_cell(2, 1, 2, 3, 6), Some((0, 2, 2)));
    assert_eq!(heatmap_cell(9, 9, 2, 3, 6), Some((0, 2, 2)));
    assert_eq!(heatmap_cell(0, 0, 2, 3, 3), None);
}

#[test]
fn axis_labels_fall_back_to_positions() {
    let labels = Some(vec!["north".to_string(), "south".to_string()]);
    assert_eq!(axis_label(&labels, 1, "Row "), "south");
    assert_eq!(axis_label(&labels, 2, "Row "), "Row 2");
    assert_eq!(axis_label(&None, 0, "Col "), "Col 0");
    assert_eq!(axis_label(&None, 12, "Col "), "Col 12");
}

#[test]
fn radar_axes() {
    assert_eq!(radar_axis_count(5, 4), Some(4));
    assert_eq!(radar_axis_count(3, 3), Some(3));
    assert_eq!(radar_axis_count(2, 9), None);
    assert_eq!(radar_axis_count(0, 0), None);
}

#[test]
fn palette_repeats() {
    assert_eq!(PALETTE_SIZE, 8);
    assert_eq!(PIE_SEGMENTS, 32);
    assert_eq!(palette_index(3), 3);
    assert_eq!(palette_index(8), 0);
    assert_eq!(palette_index(13), 5);
}

#[test]
fn decimals() {
    assert_eq!(decimal(0), "0");
    assert_eq!(decimal(7), "7");
    assert_eq!(decimal(42), "42");
    assert_eq!(decimal(1005), "1005");
    assert_eq!(decimal(usize::MAX), usize::MAX.to_string());
    assert_eq!(prefixed_decimal("Row ", 3), "Row 3");
}
