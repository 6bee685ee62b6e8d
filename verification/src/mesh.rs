//! Triangle index lists for the meshes the charts are drawn with.
//!
//! Each builder returns the indices of a triangle list, three per triangle, into a
//! vertex array whose layout the caller fills in. Every builder is proved to emit
//! exactly the triangles described by its spec function, and every index it emits
//! is proved to address a vertex of that layout.
use vstd::prelude::*;

verus! {

/// The two triangles joining segment `i` of an upper polyline (vertices `0..n`)
/// to the matching segment of a lower polyline (vertices `n..2n`).
pub open spec fn band_quad(n: int, i: int) -> Seq<int> {
    seq![i, n + i + 1, n + i, i, i + 1, n + i + 1]
}

/// The triangles of the first `m` segments of a band over `n` upper and `n` lower
/// vertices.
pub open spec fn band_spec(n: int, m: nat) -> Seq<int>
    decreases m,
{
    if m == 0 {
        Seq::empty()
    } else {
        band_spec(n, (m - 1) as nat) + band_quad(n, m - 1)
    }
}

/// The values of a `u32` index list, as integers.
pub open spec fn as_ints(s: Seq<u32>) -> Seq<int> {
    s.map_values(|v: u32| v as int)
}

/// Every index of `s` is below `bound`.
pub open spec fn all_below(s: Seq<int>, bound: int) -> bool {
    forall|k: int| 0 <= k < s.len() ==> 0 <= #[trigger] s[k] < bound
}

/// The band of `m` segments has six indices per segment, each below `2n`, when
/// `m < n`.
pub proof fn lemma_band_spec(n: int, m: nat)
    requires
        m < n,
    ensures
        band_spec(n, m).len() == 6 * m,
        all_below(band_spec(n, m), 2 * n),
    decreases m,
{
    if m > 0 {
        lemma_band_spec(n, (m - 1) as nat);
        let prev = band_spec(n, (m - 1) as nat);
        let q = band_quad(n, m - 1);
        assert forall|k: int| 0 <= k < band_spec(n, m).len() implies 0 <= #[trigger] band_spec(
            n,
            m,
        )[k] < 2 * n by {
            if k < prev.len() {
                assert(band_spec(n, m)[k] == prev[k]);
            } else {
                assert(band_spec(n, m)[k] == q[k - prev.len()]);
            }
        }
    }
}

/// Segment `j` of a band is two triangles over the upper vertices `j`, `j + 1` and
/// the lower vertices `n + j`, `n + j + 1` below them: `(j, n + j + 1, n + j)` and
/// `(j, j + 1, n + j + 1)`.
pub proof fn law_band_triangles(n: int, m: nat)
    ensures
        band_spec(n, m).len() == 6 * m,
        forall|j: int|
            0 <= j < m ==> #[trigger] triangle(band_spec(n, m), 2 * j) == seq![j, n + j + 1, n + j],
        forall|j: int|
            0 <= j < m ==> #[trigger] triangle(band_spec(n, m), 2 * j + 1) == seq![
                j,
                j + 1,
                n + j + 1,
            ],
    decreases m,
{
    if m > 0 {
        law_band_triangles(n, (m - 1) as nat);
        let prev = band_spec(n, (m - 1) as nat);
        let s = band_spec(n, m);
        let q = band_quad(n, m - 1);
        assert(s == prev + q);
        assert forall|j: int| 0 <= j < m implies #[trigger] triangle(s, 2 * j) == seq![
            j,
            n + j + 1,
            n + j,
        ] by {
            if j < m - 1 {
                assert(triangle(s, 2 * j) =~= triangle(prev, 2 * j));
            } else {
                assert(triangle(s, 2 * j) =~= q.subrange(0, 3));
            }
        }
        assert forall|j: int| 0 <= j < m implies #[trigger] triangle(s, 2 * j + 1) == seq![
            j,
            j + 1,
            n + j + 1,
        ] by {
            if j < m - 1 {
                assert(triangle(s, 2 * j + 1) =~= triangle(prev, 2 * j + 1));
            } else {
                assert(triangle(s, 2 * j + 1) =~= q.subrange(3, 6));
            }
        }
    }
}

/// Indices of the triangle strip between an upper and a lower polyline of `n`
/// points each, with the upper points stored first (used for fill-between areas,
/// the area under a density curve and the area under an ECDF).
pub fn band_indices(n: usize) -> (r: Vec<u32>)
    requires
        n >= 2,
        2 * n <= u32::MAX as int + 1,
    ensures
        as_ints(r@) == band_spec(n as int, (n - 1) as nat),
        r@.len() == 6 * (n - 1),
        all_below(as_ints(r@), 2 * n),
{
    let mut r: Vec<u32> = Vec::new();
    let mut i: usize = 0;
    while i < n - 1
        invariant
            n >= 2,
            2 * n <= u32::MAX as int + 1,
            i <= n - 1,
            as_ints(r@) == band_spec(n as int, i as nat),
        decreases n - 1 - i,
    {
        let u0 = i as u32;
        let u1 = (i + 1) as u32;
        let l0 = (n + i) as u32;
        let l1 = (n + i + 1) as u32;
        let ghost before = r@;
        r.push(u0);
        r.push(l1);
        r.push(l0);
        r.push(u0);
        r.push(u1);
        r.push(l1);
        assert(as_ints(r@) =~= as_ints(before) + band_quad(n as int, i as int));
        i = i + 1;
    }
    proof {
        lemma_band_spec(n as int, (n - 1) as nat);
    }
    r
}

/// The two triangles of the grid cell whose lower-left corner is vertex
/// `y * w + x` of a row-major grid `w` points wide.
pub open spec fn cell_quad(w: int, y: int, x: int) -> Seq<int> {
    let i0 = y * w + x;
    seq![i0, i0 + w, i0 + 1, i0 + 1, i0 + w, i0 + w + 1]
}

/// The triangles of the first `m` cells of row `y`.
pub open spec fn grid_row_spec(w: int, y: int, m: nat) -> Seq<int>
    decreases m,
{
    if m == 0 {
        Seq::empty()
    } else {
        grid_row_spec(w, y, (m - 1) as nat) + cell_quad(w, y, m - 1)
    }
}

/// The triangles of the first `rows` rows of cells of a grid `w` points wide.
pub open spec fn grid_spec(w: int, rows: nat) -> Seq<int>
    decreases rows,
{
    if rows == 0 {
        Seq::empty()
    } else {
        grid_spec(w, (rows - 1) as nat) + grid_row_spec(w, rows - 1, (w - 1) as nat)
    }
}

/// Truncating subtraction of one.
pub open spec fn dec(v: int) -> int {
    if v > 0 {
        v - 1
    } else {
        0
    }
}

/// The triangles of a surface over a `w` by `h` grid of points.
pub open spec fn surface_spec(w: int, h: int) -> Seq<int> {
    if w >= 1 {
        grid_spec(w, dec(h) as nat)
    } else {
        Seq::empty()
    }
}

proof fn lemma_grid_row(w: int, y: int, m: nat, bound: int)
    requires
        w >= 1,
        m <= w - 1,
        0 <= y,
        (y + 1) * w + w <= bound,
    ensures
        grid_row_spec(w, y, m).len() == 6 * m,
        all_below(grid_row_spec(w, y, m), bound),
    decreases m,
{
    if m > 0 {
        lemma_grid_row(w, y, (m - 1) as nat, bound);
        let prev = grid_row_spec(w, y, (m - 1) as nat);
        let q = cell_quad(w, y, m - 1);
        let s = grid_row_spec(w, y, m);
        assert(y * w >= 0) by (nonlinear_arith)
            requires
                y >= 0,
                w >= 1,
        ;
        assert((y + 1) * w == y * w + w) by (nonlinear_arith);
        assert forall|k: int| 0 <= k < s.len() implies 0 <= #[trigger] s[k] < bound by {
            if k < prev.len() {
                assert(s[k] == prev[k]);
            } else {
                assert(s[k] == q[k - prev.len()]);
            }
        }
    }
}

/// The first `rows` rows of a grid `w` wide have `6 (w - 1)` indices each, all
/// below `(rows + 1) w`.
pub proof fn lemma_grid_spec(w: int, rows: nat)
    requires
        w >= 1,
    ensures
        grid_spec(w, rows).len() == 6 * (w - 1) * rows,
        all_below(grid_spec(w, rows), (rows + 1) * w),
    decreases rows,
{
    if rows > 0 {
        lemma_grid_spec(w, (rows - 1) as nat);
        let prev = grid_spec(w, (rows - 1) as nat);
        assert(((rows - 1) + 1) * w + w == (rows + 1) * w) by (nonlinear_arith);
        lemma_grid_row(w, rows - 1, (w - 1) as nat, (rows + 1) * w);
        let row = grid_row_spec(w, rows - 1, (w - 1) as nat);
        let s = grid_spec(w, rows);
        assert(rows * w <= (rows + 1) * w) by (nonlinear_arith)
            requires
                w >= 1,
        ;
        assert(6 * (w - 1) * (rows - 1) + 6 * (w - 1) == 6 * (w - 1) * rows) by (nonlinear_arith);
        assert(s.len() == prev.len() + row.len());
        assert forall|k: int| 0 <= k < s.len() implies 0 <= #[trigger] s[k] < (rows + 1) * w by {
            if k < prev.len() {
                assert(s[k] == prev[k]);
            } else {
                assert(s[k] == row[k - prev.len()]);
            }
        }
    } else {
        assert(6 * (w - 1) * rows == 0) by (nonlinear_arith)
            requires
                rows == 0,
        ;
    }
}

/// Indices of a surface mesh over a row-major grid of `grid.x` by `grid.y` points:
/// two triangles for every cell of the grid.
pub fn surface_indices(grid_x: u32, grid_y: u32) -> (r: Vec<u32>)
    requires
        grid_x as int * grid_y as int <= u32::MAX as int + 1,
    ensures
        as_ints(r@) == surface_spec(grid_x as int, grid_y as int),
        r@.len() == 6 * dec(grid_x as int) * dec(grid_y as int),
        all_below(as_ints(r@), grid_x as int * grid_y as int),
{
    let w = grid_x as usize;
    let h = grid_y as usize;
    let mut r: Vec<u32> = Vec::new();
    let rows = if h > 0 { h - 1 } else { 0 };
    let cols = if w > 0 { w - 1 } else { 0 };
    if w == 0 {
        proof {
            assert(as_ints(r@) =~= Seq::<int>::empty());
            assert(dec(grid_x as int) == 0);
            assert(6 * dec(grid_x as int) * dec(grid_y as int) == 0) by (nonlinear_arith)
                requires
                    dec(grid_x as int) == 0,
            ;
        }
        return r;
    }
    let mut y: usize = 0;
    while y < rows
        invariant
            w >= 1,
            w == grid_x,
            h == grid_y,
            rows == dec(h as int),
            cols == w - 1,
            y <= rows,
            w as int * h as int <= u32::MAX as int + 1,
            as_ints(r@) == grid_spec(w as int, y as nat),
        decreases rows - y,
    {
        let mut x: usize = 0;
        let ghost start = as_ints(r@);
        proof {
            assert((y + 2) * w <= w * h) by (nonlinear_arith)
                requires
                    y + 1 <= h - 1,
                    w >= 1,
            ;
        }
        while x < cols
            invariant
                w >= 1,
                w == grid_x,
                h == grid_y,
                cols == w - 1,
                y < rows,
                rows == dec(h as int),
                x <= cols,
                (y + 2) * w <= w * h,
                w as int * h as int <= u32::MAX as int + 1,
                as_ints(r@) == start + grid_row_spec(w as int, y as int, x as nat),
            decreases cols - x,
        {
            proof {
                assert(y * w + x + w + 1 < (y + 2) * w) by (nonlinear_arith)
                    requires
                        x + 1 <= w - 1,
                ;
            }
            let i0 = (y * w + x) as u32;
            let i1 = i0 + 1;
            let i2 = i0 + w as u32;
            let i3 = i2 + 1;
            let ghost before = as_ints(r@);
            r.push(i0);
            r.push(i2);
            r.push(i1);
            r.push(i1);
            r.push(i2);
            r.push(i3);
            assert(as_ints(r@) =~= before + cell_quad(w as int, y as int, x as int));
            assert(grid_row_spec(w as int, y as int, (x + 1) as nat) =~= grid_row_spec(
                w as int,
                y as int,
                x as nat,
            ) + cell_quad(w as int, y as int, x as int));
            x = x + 1;
        }
        assert(as_ints(r@) =~= grid_spec(w as int, (y + 1) as nat));
        y = y + 1;
    }
    proof {
        lemma_grid_spec(w as int, rows as nat);
        if h >= 1 {
            assert((rows + 1) * w == w * h) by (nonlinear_arith)
                requires
                    rows == h - 1,
            ;
        } else {
            assert(grid_spec(w as int, rows as nat) =~= Seq::<int>::empty());
        }
        assert(6 * (w - 1) * rows == 6 * dec(w as int) * dec(h as int));
    }
    r
}

/// The two triangles of the cell whose lower-left corner is vertex `i0` of a grid
/// `w` points wide: `(i0, i0 + w, i0 + 1)` and `(i0 + 1, i0 + w, i0 + w + 1)`.
pub open spec fn cell_triangles_at(s: Seq<int>, k: int, i0: int, w: int) -> bool {
    &&& triangle(s, 2 * k) == seq![i0, i0 + w, i0 + 1]
    &&& triangle(s, 2 * k + 1) == seq![i0 + 1, i0 + w, i0 + w + 1]
}

proof fn lemma_row_triangles(w: int, y: int, m: nat)
    ensures
        grid_row_spec(w, y, m).len() == 6 * m,
        forall|x: int|
            0 <= x < m ==> #[trigger] cell_triangles_at(grid_row_spec(w, y, m), x, y * w + x, w),
    decreases m,
{
    if m > 0 {
        lemma_row_triangles(w, y, (m - 1) as nat);
        let prev = grid_row_spec(w, y, (m - 1) as nat);
        let s = grid_row_spec(w, y, m);
        let q = cell_quad(w, y, m - 1);
        assert(s == prev + q);
        assert forall|x: int| 0 <= x < m implies #[trigger] cell_triangles_at(s, x, y * w + x, w) by {
            if x < m - 1 {
                assert(cell_triangles_at(prev, x, y * w + x, w));
                assert(triangle(s, 2 * x) =~= triangle(prev, 2 * x));
                assert(triangle(s, 2 * x + 1) =~= triangle(prev, 2 * x + 1));
            } else {
                let i0 = y * w + x;
                assert(triangle(s, 2 * x) =~= q.subrange(0, 3));
                assert(triangle(s, 2 * x + 1) =~= q.subrange(3, 6));
                assert(q.subrange(0, 3) =~= seq![i0, i0 + w, i0 + 1]);
                assert(q.subrange(3, 6) =~= seq![i0 + 1, i0 + w, i0 + w + 1]);
            }
        }
    }
}

proof fn lemma_grid_triangles(w: int, rows: nat)
    requires
        w >= 1,
    ensures
        grid_spec(w, rows).len() == 6 * (w - 1) * rows,
        forall|y: int, x: int|
            0 <= y < rows && 0 <= x < w - 1 ==> #[trigger] cell_triangles_at(
                grid_spec(w, rows),
                y * (w - 1) + x,
                y * w + x,
                w,
            ),
    decreases rows,
{
    lemma_grid_spec(w, rows);
    if rows > 0 {
        lemma_grid_triangles(w, (rows - 1) as nat);
        let prev = grid_spec(w, (rows - 1) as nat);
        let row = grid_row_spec(w, rows - 1, (w - 1) as nat);
        let s = grid_spec(w, rows);
        lemma_row_triangles(w, rows - 1, (w - 1) as nat);
        assert(s == prev + row);
        assert forall|y: int, x: int| 0 <= y < rows && 0 <= x < w - 1 implies #[trigger] cell_triangles_at(
            s,
            y * (w - 1) + x,
            y * w + x,
            w,
        ) by {
            let k = y * (w - 1) + x;
            if y < rows - 1 {
                assert(cell_triangles_at(prev, k, y * w + x, w));
                assert(6 * k + 6 <= prev.len()) by (nonlinear_arith)
                    requires
                        prev.len() == 6 * (w - 1) * (rows - 1),
                        k == y * (w - 1) + x,
                        0 <= y < rows - 1,
                        0 <= x < w - 1,
                ;
                assert(triangle(s, 2 * k) =~= triangle(prev, 2 * k));
                assert(triangle(s, 2 * k + 1) =~= triangle(prev, 2 * k + 1));
            } else {
                assert(cell_triangles_at(row, x, (rows - 1) * w + x, w));
                assert(6 * k == prev.len() + 6 * x) by (nonlinear_arith)
                    requires
                        prev.len() == 6 * (w - 1) * (rows - 1),
                        k == y * (w - 1) + x,
                        y == rows - 1,
                ;
                assert(triangle(s, 2 * k) =~= triangle(row, 2 * x));
                assert(triangle(s, 2 * k + 1) =~= triangle(row, 2 * x + 1));
            }
        }
    }
}

/// Cell `(x, y)` of a surface over a `w` by `h` grid, its lower-left corner
/// vertex `y * w + x`, is the two triangles `(i0, i0 + w, i0 + 1)` and
/// `(i0 + 1, i0 + w, i0 + w + 1)`, at position `y * (w - 1) + x` among the cells.
pub proof fn law_surface_triangles(w: int, h: int)
    requires
        w >= 1,
        h >= 1,
    ensures
        surface_spec(w, h).len() == 6 * (w - 1) * (h - 1),
        forall|y: int, x: int|
            0 <= y < h - 1 && 0 <= x < w - 1 ==> #[trigger] cell_triangles_at(
                surface_spec(w, h),
                y * (w - 1) + x,
                y * w + x,
                w,
            ),
{
    lemma_grid_triangles(w, (h - 1) as nat);
}

/// The first `m` triangles of a fan around vertex 0 over rim vertices `1..=m+1`.
pub open spec fn fan_spec(m: nat) -> Seq<int>
    decreases m,
{
    if m == 0 {
        Seq::empty()
    } else {
        fan_spec((m - 1) as nat) + seq![0, m as int, m as int + 1]
    }
}

/// A fan of `m` triangles has `3m` indices, all at most `m + 1`.
pub proof fn lemma_fan_spec(m: nat)
    ensures
        fan_spec(m).len() == 3 * m,
        all_below(fan_spec(m), m as int + 2),
    decreases m,
{
    if m > 0 {
        lemma_fan_spec((m - 1) as nat);
        let prev = fan_spec((m - 1) as nat);
        let s = fan_spec(m);
        assert forall|k: int| 0 <= k < s.len() implies 0 <= #[trigger] s[k] < m as int + 2 by {
            if k < prev.len() {
                assert(s[k] == prev[k]);
            }
        }
    }
}

/// The three indices of triangle `j` of a triangle list.
pub open spec fn triangle(s: Seq<int>, j: int) -> Seq<int> {
    s.subrange(3 * j, 3 * j + 3)
}

/// Triangle `j` of a fan is the centre and the consecutive rim vertices `j + 1`
/// and `j + 2`: the fan never wraps back to its first rim vertex.
pub proof fn law_fan_triangles(m: nat)
    ensures
        fan_spec(m).len() == 3 * m,
        forall|j: int| 0 <= j < m ==> #[trigger] triangle(fan_spec(m), j) == seq![0, j + 1, j + 2],
    decreases m,
{
    lemma_fan_spec(m);
    if m > 0 {
        law_fan_triangles((m - 1) as nat);
        let prev = fan_spec((m - 1) as nat);
        let s = fan_spec(m);
        let t = seq![0int, m as int, m as int + 1];
        assert(s == prev + t);
        assert forall|j: int| 0 <= j < m implies #[trigger] triangle(s, j) == seq![0, j + 1, j + 2] by {
            if j < m - 1 {
                assert(triangle(s, j) =~= triangle(prev, j));
            } else {
                assert(triangle(s, j) =~= t);
            }
        }
    }
}

/// Indices of a pie slice drawn as a fan of `segments` triangles: vertex 0 is the
/// centre and vertices `1..=segments+1` run along the arc.
pub fn fan_indices(segments: usize) -> (r: Vec<u32>)
    requires
        segments + 2 <= u32::MAX as int + 1,
    ensures
        as_ints(r@) == fan_spec(segments as nat),
        r@.len() == 3 * segments,
        all_below(as_ints(r@), segments + 2),
{
    let mut r: Vec<u32> = Vec::new();
    let mut j: usize = 0;
    while j < segments
        invariant
            j <= segments,
            segments + 2 <= u32::MAX as int + 1,
            as_ints(r@) == fan_spec(j as nat),
        decreases segments - j,
    {
        let ghost before = as_ints(r@);
        r.push(0);
        r.push((j + 1) as u32);
        r.push((j + 2) as u32);
        assert(as_ints(r@) =~= before + seq![0, j + 1, j + 2]);
        j = j + 1;
    }
    proof {
        lemma_fan_spec(segments as nat);
    }
    r
}

/// The triangle joining the centre to rim vertices `i + 1` and the next one round a
/// closed polygon of `n` rim vertices.
pub open spec fn ring_tri(n: int, i: int) -> Seq<int> {
    seq![0, i + 1, (i + 1) % n + 1]
}

/// The first `m` triangles of a closed fan over `n` rim vertices.
pub open spec fn ring_spec(n: int, m: nat) -> Seq<int>
    decreases m,
{
    if m == 0 {
        Seq::empty()
    } else {
        ring_spec(n, (m - 1) as nat) + ring_tri(n, m - 1)
    }
}

/// A closed fan of `m <= n` triangles has `3m` indices, each a vertex `0..=n`.
pub proof fn lemma_ring_spec(n: int, m: nat)
    requires
        n >= 1,
        m <= n,
    ensures
        ring_spec(n, m).len() == 3 * m,
        all_below(ring_spec(n, m), n + 1),
    decreases m,
{
    if m > 0 {
        lemma_ring_spec(n, (m - 1) as nat);
        let prev = ring_spec(n, (m - 1) as nat);
        let s = ring_spec(n, m);
        assert(0 <= (m as int) % n < n);
        assert forall|k: int| 0 <= k < s.len() implies 0 <= #[trigger] s[k] < n + 1 by {
            if k < prev.len() {
                assert(s[k] == prev[k]);
            }
        }
    }
}

/// Triangle `i` of a closed fan over `n` rim vertices joins the centre to corners
/// `i + 1` and `i + 2`, and the last one joins corner `n` back to corner 1.
pub proof fn law_ring_triangles(n: int)
    requires
        n >= 1,
    ensures
        ring_spec(n, n as nat).len() == 3 * n,
        forall|i: int| 0 <= i < n - 1 ==> #[trigger] triangle(ring_spec(n, n as nat), i) == seq![0, i + 1, i + 2],
        triangle(ring_spec(n, n as nat), n - 1) == seq![0, n, 1],
{
    lemma_ring_prefix(n, n as nat);
    lemma_ring_spec(n, n as nat);
    let s = ring_spec(n, n as nat);
    assert forall|i: int| 0 <= i < n - 1 implies #[trigger] triangle(s, i) == seq![0, i + 1, i + 2] by {
        assert(triangle(s, i) == ring_tri(n, i));
        vstd::arithmetic::div_mod::lemma_small_mod((i + 1) as nat, n as nat);
    }
    assert(triangle(s, n - 1) == ring_tri(n, n - 1));
    vstd::arithmetic::div_mod::lemma_mod_self_0(n);
}

proof fn lemma_ring_prefix(n: int, m: nat)
    requires
        n >= 1,
    ensures
        ring_spec(n, m).len() == 3 * m,
        forall|i: int| 0 <= i < m ==> #[trigger] triangle(ring_spec(n, m), i) == ring_tri(n, i),
    decreases m,
{
    if m > 0 {
        lemma_ring_prefix(n, (m - 1) as nat);
        let prev = ring_spec(n, (m - 1) as nat);
        let s = ring_spec(n, m);
        assert forall|i: int| 0 <= i < m implies #[trigger] triangle(s, i) == ring_tri(n, i) by {
            if i < m - 1 {
                assert(triangle(s, i) =~= triangle(prev, i));
            } else {
                assert(triangle(s, i) =~= ring_tri(n, i));
            }
        }
    }
}

/// Indices of a filled polygon drawn as a fan: vertex 0 is the centre and
/// vertices `1..=n` its corners, the last corner joined back to the first (the
/// radar chart's data area).
pub fn ring_indices(n: usize) -> (r: Vec<u32>)
    requires
        n >= 1,
        n + 1 <= u32::MAX as int + 1,
    ensures
        as_ints(r@) == ring_spec(n as int, n as nat),
        r@.len() == 3 * n,
        all_below(as_ints(r@), n + 1),
{
    let mut r: Vec<u32> = Vec::new();
    let mut i: usize = 0;
    while i < n
        invariant
            n >= 1,
            i <= n,
            n + 1 <= u32::MAX as int + 1,
            as_ints(r@) == ring_spec(n as int, i as nat),
        decreases n - i,
    {
        let next = (i + 1) % n;
        let ghost before = as_ints(r@);
        r.push(0);
        r.push((i + 1) as u32);
        r.push((next + 1) as u32);
        assert(as_ints(r@) =~= before + ring_tri(n as int, i as int));
        i = i + 1;
    }
    proof {
        lemma_ring_spec(n as int, n as nat);
    }
    r
}

/// Indices of a unit rectangle whose corners are stored bottom-left,
/// bottom-right, top-left, top-right.
pub fn rect_indices() -> (r: Vec<u32>)
    ensures
        as_ints(r@) == seq![0int, 2, 1, 1, 2, 3],
{
    let r: Vec<u32> = vec![0, 2, 1, 1, 2, 3];
    assert(as_ints(r@) =~= seq![0int, 2, 1, 1, 2, 3]);
    r
}

} // verus!
