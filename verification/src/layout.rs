//! Tile layout and tile bookkeeping: how many columns and rows the plots take,
//! which cell and render layers a tile gets, which tiles to create or drop when
//! the plots on show change, and which tiles wait to be redrawn.
use vstd::prelude::*;
use std::collections::HashMap;
use std::collections::VecDeque;
use crate::model::PlotId;

verus! {

broadcast use vstd::std_specs::hash::group_hash_axioms;

/// The least `c >= from` with `c * c >= n` (searching upwards from `from`).
pub open spec fn ceil_sqrt_from(n: nat, from: nat) -> nat
    decreases n - from,
{
    if from * from >= n || from >= n {
        from
    } else {
        ceil_sqrt_from(n, from + 1)
    }
}

/// The least `c` with `c * c >= n`.
pub open spec fn ceil_sqrt(n: nat) -> nat {
    ceil_sqrt_from(n, 0)
}

/// `n / d` rounded up.
pub open spec fn ceil_div(n: int, d: int) -> int {
    if n % d == 0 {
        n / d
    } else {
        n / d + 1
    }
}

/// Columns and rows for `n` tiles. `wide` tells whether the window is wider than
/// 1.35 times its height; `configured` is an explicit column count, 0 read as 1.
pub open spec fn grid_dims_spec(n: nat, wide: bool, configured: Option<usize>) -> (int, int) {
    match configured {
        Some(c) => {
            let cols = if c == 0 {
                1int
            } else {
                c as int
            };
            (cols, ceil_div(n as int, cols))
        },
        None => {
            if n == 0 {
                (0, 0)
            } else if n == 1 {
                (1, 1)
            } else if n == 2 {
                if wide {
                    (2, 1)
                } else {
                    (1, 2)
                }
            } else if n == 3 {
                if wide {
                    (3, 1)
                } else {
                    (2, 2)
                }
            } else {
                let cols = ceil_sqrt(n) as int;
                (cols, ceil_div(n as int, cols))
            }
        },
    }
}

proof fn lemma_ceil_sqrt_from(n: nat, from: nat)
    requires
        from <= n || from * from >= n,
        forall|c: nat| c < from ==> #[trigger] (c * c) < n,
    ensures
        ceil_sqrt_from(n, from) * ceil_sqrt_from(n, from) >= n,
        forall|c: nat| c < ceil_sqrt_from(n, from) ==> #[trigger] (c * c) < n,
    decreases n - from,
{
    if from * from >= n {
    } else if from >= n {
        assert(from * from >= n) by (nonlinear_arith)
            requires
                from >= n,
                from <= n,
        ;
    } else {
        assert forall|c: nat| c < from + 1 implies #[trigger] (c * c) < n by {
            if c < from {
            } else {
                assert(c == from);
            }
        }
        lemma_ceil_sqrt_from(n, from + 1);
    }
}

/// `ceil_sqrt(n)` is the least number whose square reaches `n`.
pub proof fn lemma_ceil_sqrt(n: nat)
    ensures
        ceil_sqrt(n) * ceil_sqrt(n) >= n,
        forall|c: nat| c < ceil_sqrt(n) ==> #[trigger] (c * c) < n,
        n >= 1 ==> ceil_sqrt(n) >= 1,
        ceil_sqrt(n) <= n,
{
    lemma_ceil_sqrt_from(n, 0);
    lemma_ceil_sqrt_bound(n, 0);
}

proof fn lemma_ceil_sqrt_bound(n: nat, from: nat)
    requires
        from <= n,
    ensures
        ceil_sqrt_from(n, from) <= n,
    decreases n - from,
{
    if !(from * from >= n || from >= n) {
        lemma_ceil_sqrt_bound(n, from + 1);
    }
}

/// The least `c` with `c * c >= n`, computed by counting up.
pub fn ceil_sqrt_exec(n: usize) -> (c: usize)
    ensures
        c == ceil_sqrt(n as nat),
{
    let mut c: usize = 0;
    while !(c >= n || (c as u128) * (c as u128) >= n as u128)
        invariant
            c <= n,
            (c as int) * (c as int) <= u128::MAX,
            ceil_sqrt(n as nat) == ceil_sqrt_from(n as nat, c as nat),
        decreases n - c,
    {
        assert((c as u128) * (c as u128) == (c * c));
        c = c + 1;
        assert((c as int) * (c as int) <= u128::MAX) by (nonlinear_arith)
            requires
                c <= usize::MAX,
        ;
    }
    assert(c >= n || (c as u128) * (c as u128) == (c * c));
    c
}

fn ceil_div_exec(n: usize, d: usize) -> (r: usize)
    requires
        d >= 1,
    ensures
        r == ceil_div(n as int, d as int),
{
    if n % d == 0 {
        n / d
    } else {
        assert(n / d < n) by (nonlinear_arith)
            requires
                d >= 1,
                n % d != 0,
        ;
        n / d + 1
    }
}

/// Columns and rows of the tile grid for `n` plots. An explicit column count wins
/// (0 is read as 1) and the rows follow; otherwise one plot takes the whole
/// window, two or three sit side by side in a wide window and stack otherwise,
/// and more plots take `ceil(sqrt(n))` columns.
pub fn grid_dims(n: usize, wide: bool, configured_cols: Option<usize>) -> (r: (usize, usize))
    ensures
        (r.0 as int, r.1 as int) == grid_dims_spec(n as nat, wide, configured_cols),
{
    match configured_cols {
        Some(c) => {
            let cols = if c == 0 {
                1
            } else {
                c
            };
            let rows = ceil_div_exec(n, cols);
            (cols, rows)
        },
        None => {
            if n == 0 {
                (0, 0)
            } else if n == 1 {
                (1, 1)
            } else if n == 2 {
                if wide {
                    (2, 1)
                } else {
                    (1, 2)
                }
            } else if n == 3 {
                if wide {
                    (3, 1)
                } else {
                    (2, 2)
                }
            } else {
                let cols = ceil_sqrt_exec(n);
                proof {
                    lemma_ceil_sqrt(n as nat);
                }
                let rows = ceil_div_exec(n, cols);
                (cols, rows)
            }
        },
    }
}

/// Every one of `n >= 1` plots has a cell: the grid has at least one column, each
/// index below `n` falls in a row below the row count, the last row is not empty,
/// and an automatic grid of four or more plots is never taller than it is wide.
pub proof fn law_grid_holds_every_plot(n: nat, wide: bool, configured: Option<usize>)
    requires
        n >= 1,
    ensures
        ({
            let (cols, rows) = grid_dims_spec(n, wide, configured);
            &&& cols >= 1
            &&& forall|i: int| 0 <= i < n ==> #[trigger] (i / cols) < rows
            &&& (rows - 1) * cols < n
            &&& (configured is None && n >= 4) ==> rows <= cols
        }),
{
    let (cols, rows) = grid_dims_spec(n, wide, configured);
    lemma_ceil_sqrt(n);
    assert(cols >= 1);
    lemma_ceil_div(n as int, cols);
    assert forall|i: int| 0 <= i < n implies #[trigger] (i / cols) < rows by {
        lemma_div_below(i, n as int, cols, rows);
    }
    if configured is None && n >= 4 {
        let c = ceil_sqrt(n) as int;
        assert(c * c >= n);
        assert(ceil_div(n as int, c) <= c) by {
            lemma_ceil_div_le(n as int, c);
        }
    }
}

proof fn lemma_ceil_div(n: int, d: int)
    requires
        n >= 1,
        d >= 1,
    ensures
        ceil_div(n, d) * d >= n,
        (ceil_div(n, d) - 1) * d < n,
{
    let q = n / d;
    let r = n % d;
    assert(n == d * q + r && 0 <= r < d) by (nonlinear_arith)
        requires
            d >= 1,
            q == n / d,
            r == n % d,
    ;
    if r == 0 {
        assert(q * d == n) by (nonlinear_arith)
            requires
                n == d * q + r,
                r == 0,
        ;
        assert((q - 1) * d < n) by (nonlinear_arith)
            requires
                q * d == n,
                d >= 1,
        ;
    } else {
        assert((q + 1) * d >= n) by (nonlinear_arith)
            requires
                n == d * q + r,
                r < d,
        ;
        assert(q * d < n) by (nonlinear_arith)
            requires
                n == d * q + r,
                r > 0,
        ;
    }
}

proof fn lemma_div_below(i: int, n: int, d: int, rows: int)
    requires
        0 <= i < n,
        d >= 1,
        rows * d >= n,
    ensures
        i / d < rows,
{
    let q = i / d;
    assert(d * q <= i) by (nonlinear_arith)
        requires
            d >= 1,
            q == i / d,
            i >= 0,
    ;
    if q >= rows {
        assert(d * q >= rows * d) by (nonlinear_arith)
            requires
                q >= rows,
                d >= 1,
        ;
        assert(false);
    }
}

proof fn lemma_ceil_div_le(n: int, c: int)
    requires
        n >= 1,
        c >= 1,
        c * c >= n,
    ensures
        ceil_div(n, c) <= c,
{
    lemma_ceil_div(n, c);
    if ceil_div(n, c) > c {
        assert((ceil_div(n, c) - 1) * c >= c * c) by (nonlinear_arith)
            requires
                ceil_div(n, c) - 1 >= c,
                c >= 1,
        ;
    }
}

/// A configured column count is kept: `c` columns (0 read as 1), and just enough
/// rows for `n` plots, whether the window is wide or not.
pub proof fn law_configured_columns(n: nat, wide: bool, c: usize)
    ensures
        ({
            let (cols, rows) = grid_dims_spec(n, wide, Some(c));
            &&& cols == (if c == 0 {
                1int
            } else {
                c as int
            })
            &&& rows >= 0
            &&& rows * cols >= n
            &&& (rows - 1) * cols < n
        }),
{
    let (cols, rows) = grid_dims_spec(n, wide, Some(c));
    if n >= 1 {
        lemma_ceil_div(n as int, cols);
        assert(rows >= 1) by (nonlinear_arith)
            requires
                rows * cols >= n,
                n >= 1,
                cols >= 1,
        ;
    } else {
        assert(0int % cols == 0 && 0int / cols == 0) by (nonlinear_arith)
            requires
                cols >= 1,
        ;
        assert(rows == 0);
        assert(rows * cols == 0 && (rows - 1) * cols < 0) by (nonlinear_arith)
            requires
                rows == 0,
                cols >= 1,
        ;
    }
}

/// Without a configured count, four or more plots take the fewest columns whose
/// square holds them all, and just enough rows.
pub proof fn law_automatic_columns(n: nat, wide: bool)
    requires
        n >= 4,
    ensures
        ({
            let (cols, rows) = grid_dims_spec(n, wide, None);
            &&& cols * cols >= n
            &&& (cols - 1) * (cols - 1) < n
            &&& rows * cols >= n
            &&& (rows - 1) * cols < n
        }),
{
    lemma_ceil_sqrt(n);
    let c = ceil_sqrt(n);
    assert((c - 1) * (c - 1) < n) by {
        let d = (c - 1) as nat;
        assert(d < c);
        assert(d * d < n);
    }
    lemma_ceil_div(n as int, c as int);
}

/// The grid cell `(column, row)` of the tile at `index` in a grid `cols` wide.
pub fn tile_cell(index: usize, cols: usize) -> (r: (usize, usize))
    requires
        cols >= 1,
    ensures
        r.0 == index % cols,
        r.1 == index / cols,
        r.1 * cols + r.0 == index,
{
    let col = index % cols;
    let row = index / cols;
    assert(row * cols + col == index) by (nonlinear_arith)
        requires
            cols >= 1,
            col == index % cols,
            row == index / cols,
    ;
    (col, row)
}

/// Two different tiles never share a cell.
pub proof fn law_cells_distinct(i: nat, j: nat, cols: nat)
    requires
        cols >= 1,
        i != j,
    ensures
        (i % cols, i / cols) != (j % cols, j / cols),
{
    if i % cols == j % cols && i / cols == j / cols {
        assert(i == cols * (i / cols) + i % cols) by (nonlinear_arith)
            requires
                cols >= 1,
        ;
        assert(j == cols * (j / cols) + j % cols) by (nonlinear_arith)
            requires
                cols >= 1,
        ;
    }
}

/// Number of render layers a tile's drawings can be put on.
pub const LAYER_COUNT: usize = 32;

/// The render layer of the tile at `index`.
pub fn tile_layer(index: usize) -> (r: usize)
    ensures
        r == index % 32,
        r < 32,
{
    index % LAYER_COUNT
}

/// The render layer of the overlay (titles, borders, 3D tooltips) of the tile at
/// `index`: half the layer range away from its own layer.
pub fn overlay_layer(index: usize) -> (r: usize)
    ensures
        r == (index as int + 16) % 32,
        r < 32,
{
    (index % LAYER_COUNT + 16) % LAYER_COUNT
}

/// A tile's drawings and its overlay never land on the same render layer.
pub proof fn law_overlay_apart(index: nat)
    ensures
        index % 32 != (index + 16) % 32,
{
}

/// Drawing order of the camera of the tile at `index`; the overlay camera of a 3D
/// tile draws after every tile camera.
pub fn camera_order(index: usize, overlay: bool) -> (r: isize)
    requires
        index as int + 50 <= isize::MAX,
    ensures
        r == (if overlay {
            50 + index as int
        } else {
            10 + index as int
        }),
{
    if overlay {
        50 + index as isize
    } else {
        10 + index as isize
    }
}

/// The tab to remember and whether to rebuild every tile, when the dashboard has
/// tabs or not, the tab on show is `active_tab` and `previous` was last seen.
pub open spec fn tab_change_spec(has_tabs: bool, active_tab: usize, previous: usize) -> (
    usize,
    bool,
) {
    (
        if has_tabs {
            active_tab
        } else {
            previous
        },
        has_tabs && active_tab != previous,
    )
}

/// Whether a tab switch must rebuild the tiles: only when the dashboard has tabs
/// and the active tab differs from the one last seen. Answers the tab to remember
/// and whether to clear every tile.
pub fn tab_change(has_tabs: bool, active_tab: usize, previous: usize) -> (r: (usize, bool))
    ensures
        r == tab_change_spec(has_tabs, active_tab, previous),
{
    if !has_tabs {
        return (previous, false);
    }
    if active_tab != previous {
        (active_tab, true)
    } else {
        (previous, false)
    }
}

/// A tab switch is acted on once: asking again with the tab it answered to
/// remember finds nothing to rebuild.
pub proof fn law_tab_change_settles(has_tabs: bool, active_tab: usize, previous: usize)
    ensures
        !tab_change_spec(has_tabs, active_tab, tab_change_spec(has_tabs, active_tab, previous).0).1,
{
}

/// With tabs, a switch to any other tab (earlier or later) is remembered and
/// rebuilds the tiles; staying on the same tab rebuilds nothing. Without tabs
/// nothing is rebuilt and the remembered tab is kept.
pub proof fn law_tab_change_on_switch(active_tab: usize, previous: usize)
    ensures
        active_tab != previous ==> tab_change_spec(true, active_tab, previous) == (active_tab, true),
        tab_change_spec(true, active_tab, active_tab) == (active_tab, false),
        tab_change_spec(true, active_tab, previous).1 == tab_change_spec(true, previous, active_tab).1,
        tab_change_spec(false, active_tab, previous) == (previous, false),
{
}

/// Positions in `tiles` whose plot is no longer on show when `n` plots are (the
/// plot identities on show are `0..n`).
pub open spec fn stale_spec(tiles: Seq<PlotId>, n: nat, upto: nat) -> Seq<usize>
    decreases upto,
{
    if upto == 0 {
        Seq::empty()
    } else {
        let rest = stale_spec(tiles, n, (upto - 1) as nat);
        if tiles[upto - 1].0 >= n {
            rest.push((upto - 1) as usize)
        } else {
            rest
        }
    }
}

/// The indices `0..upto` that have no tile in `keys`.
pub open spec fn missing_spec(keys: Set<u64>, upto: nat) -> Seq<usize>
    decreases upto,
{
    if upto == 0 {
        Seq::empty()
    } else {
        let rest = missing_spec(keys, (upto - 1) as nat);
        if keys.contains((upto - 1) as u64) {
            rest
        } else {
            rest.push((upto - 1) as usize)
        }
    }
}

/// The positions of the tiles to drop when `n` plots are on show, in order.
pub fn stale_tiles(tiles: &[PlotId], n: usize) -> (r: Vec<usize>)
    ensures
        r@ == stale_spec(tiles@, n as nat, tiles@.len()),
{
    let mut r: Vec<usize> = Vec::new();
    let len = tiles.len();
    let mut p: usize = 0;
    while p < len
        invariant
            len == tiles@.len(),
            p <= len,
            r@ == stale_spec(tiles@, n as nat, p as nat),
        decreases len - p,
    {
        if tiles[p].0 >= n as u64 {
            r.push(p);
        }
        p = p + 1;
    }
    r
}

/// `stale_spec` lists, in increasing order, exactly the positions below `upto`
/// whose plot identity is `n` or more.
pub proof fn lemma_stale_spec(tiles: Seq<PlotId>, n: nat, upto: nat)
    requires
        upto <= tiles.len(),
        upto <= usize::MAX + 1,
    ensures
        forall|i: int|
            0 <= i < stale_spec(tiles, n, upto).len() ==> (#[trigger] stale_spec(tiles, n, upto)[i])
                < upto && tiles[stale_spec(tiles, n, upto)[i] as int].0 >= n,
        forall|p: nat|
            p < upto && tiles[p as int].0 >= n ==> #[trigger] stale_spec(tiles, n, upto).contains(
                p as usize,
            ),
    decreases upto,
{
    if upto > 0 {
        lemma_stale_spec(tiles, n, (upto - 1) as nat);
        let rest = stale_spec(tiles, n, (upto - 1) as nat);
        let s = stale_spec(tiles, n, upto);
        assert forall|p: nat| p < upto && tiles[p as int].0 >= n implies #[trigger] s.contains(
            p as usize,
        ) by {
            if p < upto - 1 {
                assert(rest.contains(p as usize));
                let k = choose|k: int| 0 <= k < rest.len() && rest[k] == p as usize;
                assert(s[k] == rest[k]);
            } else {
                assert(s[s.len() - 1] == p as usize);
            }
        }
    }
}

/// `missing_spec` lists exactly the indices below `upto` that are not keys.
pub proof fn lemma_missing_spec(keys: Set<u64>, upto: nat)
    requires
        upto <= usize::MAX + 1,
        upto <= u64::MAX + 1,
    ensures
        forall|i: int|
            0 <= i < missing_spec(keys, upto).len() ==> (#[trigger] missing_spec(keys, upto)[i])
                < upto && !keys.contains(missing_spec(keys, upto)[i] as u64),
        forall|k: nat|
            k < upto && !keys.contains(k as u64) ==> #[trigger] missing_spec(keys, upto).contains(
                k as usize,
            ),
    decreases upto,
{
    if upto > 0 {
        lemma_missing_spec(keys, (upto - 1) as nat);
        let rest = missing_spec(keys, (upto - 1) as nat);
        let s = missing_spec(keys, upto);
        assert forall|k: nat| k < upto && !keys.contains(k as u64) implies #[trigger] s.contains(
            k as usize,
        ) by {
            if k < upto - 1 {
                assert(rest.contains(k as usize));
                let j = choose|j: int| 0 <= j < rest.len() && rest[j] == k as usize;
                assert(s[j] == rest[j]);
            } else {
                assert(s[s.len() - 1] == k as usize);
            }
        }
    }
}

/// The plot identities of the stale tiles.
pub open spec fn dropped_ids(tiles: Seq<PlotId>, n: nat) -> Set<u64> {
    let stale = stale_spec(tiles, n, tiles.len());
    Set::new(|k: u64| exists|i: int| 0 <= i < stale.len() && tiles[stale[i] as int].0 == k)
}

/// The indices of `s` as plot identities.
pub open spec fn as_ids(s: Seq<usize>) -> Seq<u64> {
    s.map_values(|i: usize| i as u64)
}

/// After a sync, exactly the plots on show have a tile. The sync first forgets the
/// tile of every plot whose identity is `n` or more (the stale tiles), then
/// registers a tile for each index below `n` that has none (the missing tiles).
/// This holds when every registered plot had a tile among `tiles`.
pub proof fn law_sync_registers_exactly(keys: Set<u64>, tiles: Seq<PlotId>, n: nat)
    requires
        n <= usize::MAX,
        n <= u64::MAX,
        tiles.len() <= usize::MAX,
        forall|k: u64| #[trigger] keys.contains(k) ==> exists|p: int| 0 <= p < tiles.len() && tiles[p].0 == k,
    ensures
        ({
            let kept = keys.difference(dropped_ids(tiles, n));
            let added = as_ids(missing_spec(kept, n));
            forall|k: u64| (kept.contains(k) || #[trigger] added.contains(k)) <==> k < n
        }),
{
    let stale = stale_spec(tiles, n, tiles.len());
    let dropped = dropped_ids(tiles, n);
    let kept = keys.difference(dropped);
    let missing = missing_spec(kept, n);
    let added = as_ids(missing);
    lemma_stale_spec(tiles, n, tiles.len());
    lemma_missing_spec(kept, n);
    assert forall|k: u64| (kept.contains(k) || added.contains(k)) <==> k < n by {
        if kept.contains(k) {
            let p = choose|p: int| 0 <= p < tiles.len() && tiles[p].0 == k;
            if k >= n {
                assert(stale.contains(p as usize));
                let i = choose|i: int| 0 <= i < stale.len() && stale[i] == p as usize;
                assert(tiles[stale[i] as int].0 == k);
                assert(dropped.contains(k));
            }
        }
        if added.contains(k) {
            let j = choose|j: int| 0 <= j < added.len() && added[j] == k;
            assert(missing[j] < n);
        }
        if k < n && !kept.contains(k) {
            assert(missing.contains((k as nat) as usize));
            let j = choose|j: int| 0 <= j < missing.len() && missing[j] == (k as nat) as usize;
            assert(added[j] == k);
        }
    }
    assert(forall|k: u64|
        (keys.difference(dropped_ids(tiles, n)).contains(k) || #[trigger] as_ids(
            missing_spec(keys.difference(dropped_ids(tiles, n)), n),
        ).contains(k)) <==> k < n);
}

/// What a tile shows: a 2D scene, a 3D scene, or a placeholder.
#[derive(Clone, Copy, Debug, PartialEq, Eq, Structural)]
pub enum PlotKind {
    TwoD,
    ThreeD,
    Placeholder,
}

/// The kind of tile a plot gets: 3D graphs get a 3D scene, every other plot a 2D
/// one.
pub fn plot_kind(plot: &crate::model::Plot) -> (k: PlotKind)
    ensures
        k == (if plot is Graph3D {
            PlotKind::ThreeD
        } else {
            PlotKind::TwoD
        }),
{
    match plot {
        crate::model::Plot::Graph3D(_) => PlotKind::ThreeD,
        _ => PlotKind::TwoD,
    }
}

/// Which tile entity, camera and overlay camera belong to each plot, and which
/// plots wait to be drawn.
pub struct TileRegistry<E> {
    pub by_plot: HashMap<u64, E>,
    pub camera_of: HashMap<u64, E>,
    /// Overlay cameras of 3D tiles (titles and borders).
    pub overlay_of: HashMap<u64, E>,
    pub dirty: VecDeque<PlotId>,
}

impl<E: Copy> TileRegistry<E> {
    /// An empty registry.
    pub fn new() -> (r: Self)
        ensures
            r.by_plot@ == Map::<u64, E>::empty(),
            r.camera_of@ == Map::<u64, E>::empty(),
            r.overlay_of@ == Map::<u64, E>::empty(),
            r.dirty@ == Seq::<PlotId>::empty(),
    {
        TileRegistry {
            by_plot: HashMap::new(),
            camera_of: HashMap::new(),
            overlay_of: HashMap::new(),
            dirty: VecDeque::new(),
        }
    }

    /// The plot indices below `n` that have no tile yet, ascending: the tiles to
    /// create.
    pub fn missing_tiles(&self, n: usize) -> (r: Vec<usize>)
        requires
            n as int <= u64::MAX,
        ensures
            r@ == missing_spec(self.by_plot@.dom(), n as nat),
    {
        let mut r: Vec<usize> = Vec::new();
        let mut i: usize = 0;
        while i < n
            invariant
                i <= n,
                n as int <= u64::MAX,
                r@ == missing_spec(self.by_plot@.dom(), i as nat),
            decreases n - i,
        {
            let key: u64 = i as u64;
            if !self.by_plot.contains_key(&key) {
                r.push(i);
            }
            i = i + 1;
        }
        r
    }

    /// Records the new tile of plot `id` and queues the plot for drawing.
    pub fn register(&mut self, id: PlotId, tile: E)
        ensures
            final(self).by_plot@ == old(self).by_plot@.insert(id.0, tile),
            final(self).camera_of@ == old(self).camera_of@,
            final(self).overlay_of@ == old(self).overlay_of@,
            final(self).dirty@ == old(self).dirty@.push(id),
    {
        self.by_plot.insert(id.0, tile);
        self.dirty.push_back(id);
    }

    /// Forgets the tile of plot `id`; answers its camera and overlay camera, which
    /// the caller despawns with the tile.
    pub fn cleanup(&mut self, id: PlotId) -> (r: (Option<E>, Option<E>))
        ensures
            final(self).by_plot@ == old(self).by_plot@.remove(id.0),
            final(self).camera_of@ == old(self).camera_of@.remove(id.0),
            final(self).overlay_of@ == old(self).overlay_of@.remove(id.0),
            final(self).dirty@ == old(self).dirty@,
            r.0 == (if old(self).camera_of@.contains_key(id.0) {
                Some(old(self).camera_of@[id.0])
            } else {
                None
            }),
            r.1 == (if old(self).overlay_of@.contains_key(id.0) {
                Some(old(self).overlay_of@[id.0])
            } else {
                None
            }),
    {
        let key = id.0;
        let _ = self.by_plot.remove(&key);
        let cam = self.camera_of.remove(&key);
        let overlay = self.overlay_of.remove(&key);
        (cam, overlay)
    }

    /// The camera of plot `id`, creating it with `fresh` when there is none yet.
    pub fn camera_or_insert(&mut self, id: PlotId, fresh: E) -> (r: E)
        ensures
            old(self).camera_of@.contains_key(id.0) ==> r == old(self).camera_of@[id.0]
                && final(self).camera_of@ == old(self).camera_of@,
            !old(self).camera_of@.contains_key(id.0) ==> r == fresh && final(self).camera_of@
                == old(self).camera_of@.insert(id.0, fresh),
            final(self).by_plot@ == old(self).by_plot@,
            final(self).overlay_of@ == old(self).overlay_of@,
            final(self).dirty@ == old(self).dirty@,
    {
        let key = id.0;
        match self.camera_of.get(&key) {
            Some(c) => *c,
            None => {
                self.camera_of.insert(key, fresh);
                fresh
            },
        }
    }

    /// The overlay camera of plot `id`, creating it with `fresh` when there is none.
    pub fn overlay_or_insert(&mut self, id: PlotId, fresh: E) -> (r: E)
        ensures
            old(self).overlay_of@.contains_key(id.0) ==> r == old(self).overlay_of@[id.0]
                && final(self).overlay_of@ == old(self).overlay_of@,
            !old(self).overlay_of@.contains_key(id.0) ==> r == fresh && final(self).overlay_of@
                == old(self).overlay_of@.insert(id.0, fresh),
            final(self).by_plot@ == old(self).by_plot@,
            final(self).camera_of@ == old(self).camera_of@,
            final(self).dirty@ == old(self).dirty@,
    {
        let key = id.0;
        match self.overlay_of.get(&key) {
            Some(c) => *c,
            None => {
                self.overlay_of.insert(key, fresh);
                fresh
            },
        }
    }

    /// Queues plot `id` for drawing.
    pub fn mark_dirty(&mut self, id: PlotId)
        ensures
            final(self).dirty@ == old(self).dirty@.push(id),
            final(self).by_plot@ == old(self).by_plot@,
            final(self).camera_of@ == old(self).camera_of@,
            final(self).overlay_of@ == old(self).overlay_of@,
    {
        self.dirty.push_back(id);
    }

    /// The next plot waiting to be drawn, oldest first.
    pub fn next_dirty(&mut self) -> (r: Option<PlotId>)
        ensures
            old(self).dirty@.len() == 0 ==> r is None && final(self).dirty@ == old(self).dirty@,
            old(self).dirty@.len() > 0 ==> r == Some(old(self).dirty@[0]) && final(self).dirty@
                == old(self).dirty@.drop_first(),
            final(self).by_plot@ == old(self).by_plot@,
            final(self).camera_of@ == old(self).camera_of@,
            final(self).overlay_of@ == old(self).overlay_of@,
    {
        self.dirty.pop_front()
    }

    /// The tile of plot `id`.
    pub fn tile_of(&self, id: PlotId) -> (r: Option<E>)
        ensures
            r == (if self.by_plot@.contains_key(id.0) {
                Some(self.by_plot@[id.0])
            } else {
                None
            }),
    {
        let key = id.0;
        match self.by_plot.get(&key) {
            Some(e) => Some(*e),
            None => None,
        }
    }
}

} // verus!
