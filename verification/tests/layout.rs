use vidi::dash::dash;
use vidi::layout::{
    camera_order, ceil_sqrt_exec, grid_dims, overlay_layer, plot_kind, stale_tiles, tab_change,
    tile_cell, tile_layer, PlotKind, TileRegistry, LAYER_COUNT,
};
use vidi::model::PlotId;

#[test]
fn grid_for_few_plots() {
    assert_eq!(grid_dims(0, true, None), (0, 0));
    assert_eq!(grid_dims(1, true, None), (1, 1));
    assert_eq!(grid_dims(1, false, None), (1, 1));
    assert_eq!(grid_dims(2, true, None), (2, 1));
    assert_eq!(grid_dims(2, false, None), (1, 2));
    assert_eq!(grid_dims(3, true, None), (3, 1));
    assert_eq!(grid_dims(3, false, None), (2, 2));
}

#[test]
fn grid_for_many_plots_is_square_rooted() {
    assert_eq!(grid_dims(4, true, None), (2, 2));
    assert_eq!(grid_dims(5, false, None), (3, 2));
    assert_eq!(grid_dims(9, true, None), (3, 3));
    assert_eq!(grid_dims(10, true, None), (4, 3));
    assert_eq!(grid_dims(17, false, None), (5, 4));
}

#[test]
fn grid_with_configured_columns() {
    assert_eq!(grid_dims(5, true, Some(2)), (2, 3));
    assert_eq!(grid_dims(4, true, Some(2)), (2, 2));
    assert_eq!(grid_dims(7, false, Some(0)), (1, 7));
    assert_eq!(grid_dims(0, false, Some(3)), (3, 0));
}

#[test]
fn grid_holds_every_plot_on_examples() {
    for n in 1..60usize {
        for wide in [false, true] {
            for cfg in [None, Some(0), Some(1), Some(4)] {
                let (cols, rows) = grid_dims(n, wide, cfg);
                assert!(cols >= 1);
                for i in 0..n {
                    assert!(i / cols < rows);
                }
                assert!((rows - 1) * cols < n);
                if cfg.is_none() && n >= 4 {
                    assert!(rows <= cols);
                }
            }
        }
    }
}

#[test]
fn ceil_sqrt_values() {
    assert_eq!(ceil_sqrt_exec(0), 0);
    assert_eq!(ceil_sqrt_exec(1), 1);
    assert_eq!(ceil_sqrt_exec(4), 2);
    assert_eq!(ceil_sqrt_exec(5), 3);
    assert_eq!(ceil_sqrt_exec(16), 4);
    assert_eq!(ceil_sqrt_exec(17), 5);
}

#[test]
fn tile_cells_are_row_major() {
    assert_eq!(tile_cell(0, 3), (0, 0));
    assert_eq!(tile_cell(2, 3), (2, 0));
    assert_eq!(tile_cell(3, 3), (0, 1));
    assert_eq!(tile_cell(7, 3), (1, 2));
}

#[test]
fn tile_cells_are_distinct() {
    let cols = 4;
    let cells: Vec<(usize, usize)> = (0..20).map(|i| tile_cell(i, cols)).collect();
    for i in 0..cells.len() {
        for j in 0..cells.len() {
            if i != j {
                assert_ne!(cells[i], cells[j]);
            }
        }
    }
}

#[test]
fn render_layers() {
    assert_eq!(LAYER_COUNT, 32);
    assert_eq!(tile_layer(0), 0);
    assert_eq!(tile_layer(33), 1);
    assert_eq!(overlay_layer(0), 16);
    assert_eq!(overlay_layer(20), 4);
    for i in 0..100 {
        assert_ne!(tile_layer(i), overlay_layer(i));
    }
}

#[test]
fn camera_orders() {
    assert_eq!(camera_order(0, false), 10);
    assert_eq!(camera_order(3, false), 13);
    assert_eq!(camera_order(3, true), 53);
}

#[test]
fn tab_changes() {
    assert_eq!(tab_change(false, 3, 0), (0, false));
    assert_eq!(tab_change(true, 0, 0), (0, false));
    assert_eq!(tab_change(true, 2, 0), (2, true));
}

#[test]
fn stale_tiles_are_those_past_the_plots_on_show() {
    let tiles = vec![PlotId(0), PlotId(4), PlotId(1), PlotId(2)];
    assert_eq!(stale_tiles(&tiles, 2), vec![1, 3]);
    assert_eq!(stale_tiles(&tiles, 5), Vec::<usize>::new());
    assert_eq!(stale_tiles(&tiles, 0), vec![0, 1, 2, 3]);
}

#[test]
fn plot_kinds() {
    let d = dash().add_2d(|p| p).add_3d(|p| p).add_distribution(|dd| dd).into_dashboard();
    assert_eq!(plot_kind(&d.plots[0]), PlotKind::TwoD);
    assert_eq!(plot_kind(&d.plots[1]), PlotKind::ThreeD);
    assert_eq!(plot_kind(&d.plots[2]), PlotKind::TwoD);
}

#[test]
fn registry_creates_missing_tiles_and_drops_stale_ones() {
    let mut reg: TileRegistry<u32> = TileRegistry::new();
    assert_eq!(reg.missing_tiles(3), vec![0, 1, 2]);
    reg.register(PlotId(0), 100);
    reg.register(PlotId(2), 102);
    assert_eq!(reg.missing_tiles(3), vec![1]);
    assert_eq!(reg.tile_of(PlotId(2)), Some(102));
    assert_eq!(reg.tile_of(PlotId(1)), None);
    assert_eq!(reg.next_dirty(), Some(PlotId(0)));
    assert_eq!(reg.next_dirty(), Some(PlotId(2)));
    assert_eq!(reg.next_dirty(), None);
    let cam = reg.camera_or_insert(PlotId(2), 7);
    assert_eq!(cam, 7);
    let again = reg.camera_or_insert(PlotId(2), 9);
    assert_eq!(again, 7);
    let ov = reg.overlay_or_insert(PlotId(2), 11);
    assert_eq!(ov, 11);
    assert_eq!(reg.cleanup(PlotId(2)), (Some(7), Some(11)));
    assert_eq!(reg.tile_of(PlotId(2)), None);
    assert_eq!(reg.cleanup(PlotId(2)), (None, None));
    assert_eq!(reg.missing_tiles(3), vec![1, 2]);
}

#[test]
fn registry_sync_makes_tiles_match_the_plots() {
    let mut reg: TileRegistry<u32> = TileRegistry::new();
    let mut tiles: Vec<PlotId> = Vec::new();
    for i in 0..5u64 {
        reg.register(PlotId(i), i as u32);
        tiles.push(PlotId(i));
    }
    let n = 3;
    let stale = stale_tiles(&tiles, n);
    for p in stale.iter().rev() {
        let id = tiles.remove(*p);
        reg.cleanup(id);
    }
    for i in reg.missing_tiles(n) {
        reg.register(PlotId(i as u64), 0);
    }
    for k in 0..8u64 {
        assert_eq!(reg.tile_of(PlotId(k)).is_some(), k < n as u64);
    }
}

#[test]
fn mark_dirty_queues_in_order() {
    let mut reg: TileRegistry<u8> = TileRegistry::new();
    reg.mark_dirty(PlotId(5));
    reg.mark_dirty(PlotId(3));
    assert_eq!(reg.next_dirty(), Some(PlotId(5)));
    assert_eq!(reg.next_dirty(), Some(PlotId(3)));
}
