use vidi::mesh::{band_indices, fan_indices, rect_indices, ring_indices, surface_indices};

#[test]
fn band_between_two_polylines() {
    assert_eq!(band_indices(2), vec![0, 3, 2, 0, 1, 3]);
    assert_eq!(band_indices(3), vec![0, 4, 3, 0, 1, 4, 1, 5, 4, 1, 2, 5]);
}

#[test]
fn band_indices_stay_in_range() {
    for n in 2..40usize {
        let idx = band_indices(n);
        assert_eq!(idx.len(), 6 * (n - 1));
        assert!(idx.iter().all(|&i| (i as usize) < 2 * n));
    }
}

#[test]
fn surface_over_a_grid() {
    assert_eq!(surface_indices(2, 2), vec![0, 2, 1, 1, 2, 3]);
    assert_eq!(surface_indices(3, 2), vec![0, 3, 1, 1, 3, 4, 1, 4, 2, 2, 4, 5]);
    assert!(surface_indices(0, 5).is_empty());
    assert!(surface_indices(4, 1).is_empty());
    assert!(surface_indices(1, 4).is_empty());
}

#[test]
fn surface_indices_stay_in_range() {
    for w in 0..12u32 {
        for h in 0..12u32 {
            let idx = surface_indices(w, h);
            let cells = (w.saturating_sub(1) * h.saturating_sub(1)) as usize;
            assert_eq!(idx.len(), 6 * cells);
            assert!(idx.iter().all(|&i| i < w * h));
        }
    }
}

#[test]
fn pie_slice_fan() {
    assert_eq!(fan_indices(0), Vec::<u32>::new());
    assert_eq!(fan_indices(3), vec![0, 1, 2, 0, 2, 3, 0, 3, 4]);
    let idx = fan_indices(32);
    assert_eq!(idx.len(), 96);
    assert!(idx.iter().all(|&i| i < 34));
}

#[test]
fn radar_ring_closes() {
    assert_eq!(ring_indices(3), vec![0, 1, 2, 0, 2, 3, 0, 3, 1]);
    assert_eq!(ring_indices(1), vec![0, 1, 1]);
    for n in 1..30usize {
        let idx = ring_indices(n);
        assert_eq!(idx.len(), 3 * n);
        assert!(idx.iter().all(|&i| (i as usize) <= n));
    }
}

#[test]
fn rectangle() {
    assert_eq!(rect_indices(), vec![0, 2, 1, 1, 2, 3]);
}
