//! The integer side of the statistical and grid charts: histogram bin counts and
//! tick positions, box-plot order statistics, heatmap cell lookup and labels, and
//! the radar and pie bookkeeping.
use vstd::prelude::*;
use crate::text::{decimal_spec, prefixed_decimal};

verus! {

/// The bin a raw bin number lands in: numbers past the last bin (the maximum value
/// itself) go to the last bin.
pub open spec fn bin_of(raw: usize, bins: usize) -> int {
    if raw < bins {
        raw as int
    } else {
        bins - 1
    }
}

/// The bin a raw bin number lands in.
pub fn clamp_bin(raw: usize, bins: usize) -> (r: usize)
    requires
        bins >= 1,
    ensures
        r == bin_of(raw, bins),
        r < bins,
{
    if raw < bins {
        raw
    } else {
        bins - 1
    }
}

/// Bin counts after the first `m` raw bin numbers of `raw`.
pub open spec fn counts_spec(raw: Seq<usize>, bins: usize, m: nat) -> Seq<int>
    decreases m,
{
    if m == 0 {
        Seq::new(bins as nat, |k: int| 0int)
    } else {
        let c = counts_spec(raw, bins, (m - 1) as nat);
        let b = bin_of(raw[m - 1], bins);
        c.update(b, c[b] + 1)
    }
}

/// The sum of a sequence of integers.
pub open spec fn sum(s: Seq<int>) -> int
    decreases s.len(),
{
    if s.len() == 0 {
        0
    } else {
        sum(s.drop_last()) + s.last()
    }
}

proof fn lemma_sum_zeros(n: nat)
    ensures
        sum(Seq::new(n, |k: int| 0int)) == 0,
    decreases n,
{
    if n > 0 {
        lemma_sum_zeros((n - 1) as nat);
        assert(Seq::new(n, |k: int| 0int).drop_last() =~= Seq::new((n - 1) as nat, |k: int| 0int));
    }
}

proof fn lemma_sum_update(s: Seq<int>, i: int, v: int)
    requires
        0 <= i < s.len(),
    ensures
        sum(s.update(i, v)) == sum(s) - s[i] + v,
    decreases s.len(),
{
    if i == s.len() - 1 {
        assert(s.update(i, v).drop_last() =~= s.drop_last());
    } else {
        lemma_sum_update(s.drop_last(), i, v);
        assert(s.update(i, v).drop_last() =~= s.drop_last().update(i, v));
    }
}

proof fn lemma_counts_shape(raw: Seq<usize>, bins: usize, m: nat)
    requires
        bins >= 1,
        m <= raw.len(),
    ensures
        counts_spec(raw, bins, m).len() == bins,
        forall|k: int| 0 <= k < bins ==> 0 <= #[trigger] counts_spec(raw, bins, m)[k] <= m,
    decreases m,
{
    if m > 0 {
        lemma_counts_shape(raw, bins, (m - 1) as nat);
    }
}

/// Every value lands in exactly one bin: the counts add up to the number of values.
pub proof fn law_counts_add_up(raw: Seq<usize>, bins: usize)
    requires
        bins >= 1,
    ensures
        sum(counts_spec(raw, bins, raw.len())) == raw.len(),
{
    lemma_counts_sum(raw, bins, raw.len());
}

proof fn lemma_counts_sum(raw: Seq<usize>, bins: usize, m: nat)
    requires
        bins >= 1,
        m <= raw.len(),
    ensures
        sum(counts_spec(raw, bins, m)) == m,
    decreases m,
{
    if m == 0 {
        lemma_sum_zeros(bins as nat);
    } else {
        lemma_counts_sum(raw, bins, (m - 1) as nat);
        lemma_counts_shape(raw, bins, (m - 1) as nat);
        let c = counts_spec(raw, bins, (m - 1) as nat);
        let b = bin_of(raw[m - 1], bins);
        lemma_sum_update(c, b, c[b] + 1);
    }
}

/// `v` is counted in bin `k` of `bins`: it is `k`, or `k` is the last bin and `v`
/// lies past it.
pub open spec fn lands_in(v: usize, bins: usize, k: int) -> bool {
    v == k || (k == bins - 1 && v >= bins)
}

/// How many of the first `m` raw bin numbers land in bin `k`.
pub open spec fn tally(raw: Seq<usize>, bins: usize, k: int, m: nat) -> nat
    decreases m,
{
    if m == 0 {
        0
    } else {
        tally(raw, bins, k, (m - 1) as nat) + if lands_in(raw[m - 1], bins, k) {
            1nat
        } else {
            0nat
        }
    }
}

/// The count of each bin is the number of values whose raw bin number is that bin,
/// those past the last bin being counted in the last bin.
pub proof fn law_bin_counts(raw: Seq<usize>, bins: usize, k: int)
    requires
        bins >= 1,
        0 <= k < bins,
    ensures
        counts_spec(raw, bins, raw.len())[k] == tally(raw, bins, k, raw.len()),
{
    lemma_bin_counts(raw, bins, k, raw.len());
}

proof fn lemma_bin_counts(raw: Seq<usize>, bins: usize, k: int, m: nat)
    requires
        bins >= 1,
        0 <= k < bins,
        m <= raw.len(),
    ensures
        counts_spec(raw, bins, m)[k] == tally(raw, bins, k, m),
    decreases m,
{
    lemma_counts_shape(raw, bins, m);
    if m > 0 {
        lemma_bin_counts(raw, bins, k, (m - 1) as nat);
        lemma_counts_shape(raw, bins, (m - 1) as nat);
    }
}

/// Counts how many values fall in each of `bins` bins, given each value's raw bin
/// number (the floor of its offset from the minimum over the bin width).
pub fn histogram_counts(raw: &[usize], bins: usize) -> (r: Vec<usize>)
    requires
        bins >= 1,
    ensures
        r@.len() == bins,
        r@.map_values(|c: usize| c as int) == counts_spec(raw@, bins, raw@.len()),
{
    let mut counts: Vec<usize> = vec![0usize; bins];
    assert(counts@.map_values(|c: usize| c as int) =~= counts_spec(raw@, bins, 0));
    let n = raw.len();
    let mut i: usize = 0;
    while i < n
        invariant
            n == raw@.len(),
            bins >= 1,
            i <= n,
            counts@.map_values(|c: usize| c as int) == counts_spec(raw@, bins, i as nat),
        decreases n - i,
    {
        proof {
            lemma_counts_shape(raw@, bins, i as nat);
        }
        let b = clamp_bin(raw[i], bins);
        assert(counts@[b as int] as int == counts_spec(raw@, bins, i as nat)[b as int]);
        let c = counts[b] + 1;
        counts.set(b, c);
        assert(counts@.map_values(|c: usize| c as int) =~= counts_spec(raw@, bins, (i + 1) as nat));
        i = i + 1;
    }
    proof {
        lemma_counts_shape(raw@, bins, n as nat);
    }
    assert(counts@.len() == counts@.map_values(|c: usize| c as int).len());
    counts
}

/// The largest of the counts, or 1 when there are none.
pub open spec fn max_or_one(s: Seq<usize>) -> int
    decreases s.len(),
{
    if s.len() == 0 {
        1
    } else if s.len() == 1 {
        s[0] as int
    } else {
        let m = max_or_one(s.drop_last());
        if s.last() as int > m {
            s.last() as int
        } else {
            m
        }
    }
}

/// The tallest bar's count (1 when there are no bins), the height the bars are
/// scaled to.
pub fn max_count(counts: &[usize]) -> (r: usize)
    ensures
        r == max_or_one(counts@),
{
    let n = counts.len();
    if n == 0 {
        return 1;
    }
    let mut best = counts[0];
    let mut i: usize = 1;
    assert(counts@.take(1).drop_last() =~= Seq::<usize>::empty());
    while i < n
        invariant
            n == counts@.len(),
            1 <= i <= n,
            best == max_or_one(counts@.take(i as int)),
        decreases n - i,
    {
        assert(counts@.take(i + 1).drop_last() =~= counts@.take(i as int));
        if counts[i] > best {
            best = counts[i];
        }
        i = i + 1;
    }
    assert(counts@.take(n as int) =~= counts@);
    best
}

/// The tallest bar is at least as tall as every bar and is one of them; with no
/// bars it is 1.
pub proof fn law_max_count(s: Seq<usize>)
    ensures
        s.len() == 0 ==> max_or_one(s) == 1,
        s.len() > 0 ==> forall|i: int| 0 <= i < s.len() ==> #[trigger] s[i] <= max_or_one(s),
        s.len() > 0 ==> exists|i: int| 0 <= i < s.len() && #[trigger] s[i] == max_or_one(s),
    decreases s.len(),
{
    if s.len() > 1 {
        let p = s.drop_last();
        law_max_count(p);
        let m = max_or_one(p);
        let w = choose|i: int| 0 <= i < p.len() && #[trigger] p[i] == m;
        assert(p[w] == s[w]);
        assert forall|i: int| 0 <= i < s.len() implies #[trigger] s[i] <= max_or_one(s) by {
            if i < s.len() - 1 {
                assert(s[i] == p[i]);
            }
        }
        if s.last() as int > m {
            assert(s[s.len() - 1] == max_or_one(s));
        } else {
            assert(s[w] == max_or_one(s));
        }
    } else if s.len() == 1 {
        assert(s[0] == max_or_one(s));
    }
}

/// The spacing between labelled bin edges: at most eight labels along the axis.
pub open spec fn tick_step(bins: usize) -> int {
    let b = bins as int;
    let label_count: int = if b < 8 {
        b
    } else {
        8
    };
    let step: int = b / label_count;
    if step >= 1 {
        step
    } else {
        1
    }
}

/// The tick step is the largest step that still leaves `min(bins, 8)` labelled
/// spans (at least 1): `step * L <= bins < (step + 1) * L` for `L = min(bins, 8)`.
pub proof fn law_tick_step(bins: usize)
    requires
        bins >= 1,
    ensures
        ({
            let l: int = if bins < 8 {
                bins as int
            } else {
                8
            };
            &&& tick_step(bins) >= 1
            &&& tick_step(bins) * l <= bins
            &&& bins < (tick_step(bins) + 1) * l
        }),
{
    let l: int = if bins < 8 {
        bins as int
    } else {
        8
    };
    let step = bins as int / l;
    assert(step * l <= bins && bins < (step + 1) * l) by (nonlinear_arith)
        requires
            l >= 1,
            step == bins as int / l,
    ;
    assert(step >= 1) by (nonlinear_arith)
        requires
            l >= 1,
            l <= bins,
            step == bins as int / l,
    ;
}

/// The bin edges `0, step, 2 step, ...` up to `bins` that carry a value label under
/// a histogram.
pub fn histogram_tick_edges(bins: usize) -> (r: Vec<usize>)
    requires
        bins >= 1,
    ensures
        r@.len() == bins as int / tick_step(bins) + 1,
        forall|k: int| 0 <= k < r@.len() ==> #[trigger] r@[k] == k * tick_step(bins),
        forall|k: int| 0 <= k < r@.len() ==> #[trigger] r@[k] <= bins,
{
    let label_count = if bins < 8 {
        bins
    } else {
        8
    };
    let raw_step = bins / label_count;
    let step = if raw_step >= 1 {
        raw_step
    } else {
        1
    };
    proof {
        if bins >= 8 {
            assert(bins / step <= 16) by (nonlinear_arith)
                requires
                    bins >= 8,
                    step == bins / 8,
            ;
        } else {
            assert(bins / bins == 1) by (nonlinear_arith)
                requires
                    bins >= 1,
            ;
            assert(label_count == bins);
            assert(raw_step == 1);
            assert(step == 1);
            assert(bins / 1 == bins);
        }
    }
    let count = bins / step + 1;
    let mut r: Vec<usize> = Vec::new();
    let mut k: usize = 0;
    while k < count
        invariant
            step == tick_step(bins),
            step >= 1,
            count == bins / step + 1,
            k <= count,
            r@.len() == k,
            forall|j: int| 0 <= j < r@.len() ==> #[trigger] r@[j] == j * step,
            forall|j: int| 0 <= j < r@.len() ==> #[trigger] r@[j] <= bins,
        decreases count - k,
    {
        proof {
            assert(k * step <= bins) by (nonlinear_arith)
                requires
                    k <= bins / step,
                    step >= 1,
            ;
        }
        r.push(k * step);
        k = k + 1;
    }
    r
}

/// Positions in a sorted sample of `n` values of the two middle values (equal when
/// `n` is odd), the first quartile and the third quartile.
pub open spec fn quartile_spec(n: nat) -> (int, int, int, int) {
    let m = n as int;
    let lo: int = if m % 2 == 0 {
        m / 2 - 1
    } else {
        m / 2
    };
    let q3: int = if 3 * m / 4 < m - 1 {
        3 * m / 4
    } else {
        m - 1
    };
    (lo, m / 2, m / 4, q3)
}

/// Positions of the median pair and the quartiles in a sorted sample of `n >= 1`
/// values, as the box plot reads them.
pub fn quartile_positions(n: usize) -> (r: (usize, usize, usize, usize))
    requires
        n >= 1,
        3 * n <= usize::MAX,
    ensures
        (r.0 as int, r.1 as int, r.2 as int, r.3 as int) == quartile_spec(n as nat),
{
    let lo = if n % 2 == 0 {
        n / 2 - 1
    } else {
        n / 2
    };
    let q3 = if 3 * n / 4 < n - 1 {
        3 * n / 4
    } else {
        n - 1
    };
    (lo, n / 2, n / 4, q3)
}

/// The order statistics come in order and all lie in the sample:
/// first quartile, lower middle, upper middle, third quartile.
pub proof fn law_quartiles_ordered(n: nat)
    requires
        n >= 1,
    ensures
        ({
            let (lo, hi, q1, q3) = quartile_spec(n);
            0 <= q1 <= lo <= hi <= q3 < n
        }),
{
}

/// The two middle positions add up to `n - 1` and are at most one apart, so they
/// are the middle of the sample; the first quartile is `floor(n / 4)` and the third
/// `floor(3n / 4)`.
pub proof fn law_quartile_positions(n: nat)
    requires
        n >= 1,
    ensures
        ({
            let (lo, hi, q1, q3) = quartile_spec(n);
            &&& lo + hi == n - 1
            &&& 0 <= hi - lo <= 1
            &&& 4 * q1 <= n < 4 * q1 + 4
            &&& 4 * q3 <= 3 * n < 4 * q3 + 4
        }),
{
}

/// Where a cursor lands on a heatmap of `rows` by `cols` cells holding `len`
/// values: the cell's row (0 at the top), column and value index, or none when
/// the values stop short of that cell. `raw_col` and `raw_row_from_bottom` are the
/// cursor's offsets in whole cells from the left and bottom edges.
pub open spec fn heatmap_cell_spec(
    raw_col: usize,
    raw_row_from_bottom: usize,
    rows: usize,
    cols: usize,
    len: usize,
) -> Option<(usize, usize, usize)> {
    let col = if raw_col < cols {
        raw_col as int
    } else {
        cols - 1
    };
    let row = if raw_row_from_bottom < rows {
        rows - 1 - raw_row_from_bottom
    } else {
        0int
    };
    let idx = row * cols + col;
    if idx < len {
        Some((row as usize, col as usize, idx as usize))
    } else {
        None
    }
}

/// The cell under the cursor on a heatmap.
pub fn heatmap_cell(
    raw_col: usize,
    raw_row_from_bottom: usize,
    rows: usize,
    cols: usize,
    len: usize,
) -> (r: Option<(usize, usize, usize)>)
    requires
        rows >= 1,
        cols >= 1,
        rows * cols <= usize::MAX,
    ensures
        r == heatmap_cell_spec(raw_col, raw_row_from_bottom, rows, cols, len),
        r matches Some((row, col, idx)) ==> row < rows && col < cols && idx < len && idx
            < rows * cols,
{
    let col = if raw_col < cols {
        raw_col
    } else {
        cols - 1
    };
    let row = (rows - 1).saturating_sub(raw_row_from_bottom);
    let row = if row < rows - 1 {
        row
    } else {
        rows - 1
    };
    proof {
        assert(row * cols + col < rows * cols) by (nonlinear_arith)
            requires
                row < rows,
                col < cols,
        ;
    }
    let idx = row * cols + col;
    if idx < len {
        Some((row, col, idx))
    } else {
        None
    }
}

/// The cursor's column is its column from the left, clamped to the last; rows are
/// counted from the top, so its row and its offset from the bottom (clamped to the
/// top row) add up to `rows - 1`; the value is the row-major one, when there is one.
pub proof fn law_heatmap_cell(
    raw_col: usize,
    raw_row_from_bottom: usize,
    rows: usize,
    cols: usize,
    len: usize,
)
    requires
        rows >= 1,
        cols >= 1,
    ensures
        ({
            let up: int = if raw_row_from_bottom < rows {
                raw_row_from_bottom as int
            } else {
                rows - 1
            };
            let col: int = if raw_col < cols {
                raw_col as int
            } else {
                cols - 1
            };
            match heatmap_cell_spec(raw_col, raw_row_from_bottom, rows, cols, len) {
                Some((r, c, i)) => {
                    &&& r + up == rows - 1
                    &&& c == col
                    &&& i == r * cols + c
                    &&& i < len
                },
                None => (rows - 1 - up) * cols + col >= len,
            }
        }),
{
}

/// The label of a heatmap row or column: the given label when there is one for that
/// position, else the fallback `prefix` followed by the position in decimal
/// ("Row 3", "Col 0").
pub fn axis_label(labels: &Option<Vec<String>>, pos: usize, prefix: &str) -> (r: String)
    ensures
        r@ == (match labels {
            Some(v) => if pos < v@.len() {
                v@[pos as int]@
            } else {
                prefix@ + decimal_spec(pos as nat)
            },
            None => prefix@ + decimal_spec(pos as nat),
        }),
{
    match labels {
        Some(v) => {
            if pos < v.len() {
                return v[pos].clone();
            }
        },
        None => {},
    }
    prefixed_decimal(prefix, pos)
}

/// How many axes a radar chart draws: as many as there are both names and values,
/// and nothing (none) below three.
pub fn radar_axis_count(axes: usize, values: usize) -> (r: Option<usize>)
    ensures
        ({
            let n = if axes < values {
                axes
            } else {
                values
            };
            &&& n >= 3 ==> r == Some(n)
            &&& n < 3 ==> r is None
        }),
{
    let n = if axes < values {
        axes
    } else {
        values
    };
    if axes == 0 || values == 0 || n < 3 {
        None
    } else {
        Some(n)
    }
}

/// Number of colours in the pie palette.
pub const PALETTE_SIZE: usize = 8;

/// Number of triangles per pie slice.
pub const PIE_SEGMENTS: usize = 32;

/// The palette colour of the slice at position `i`: the palette repeats.
pub fn palette_index(i: usize) -> (r: usize)
    ensures
        r == i % 8,
        r < 8,
{
    i % PALETTE_SIZE
}

} // verus!
