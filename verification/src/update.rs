//! Streaming updates to a dashboard: appending points to a trace, replacing a
//! trace and replacing a whole plot, each found by the plot's identity.
//!
//! A plot is looked for among the dashboard's own plots first and then tab by tab,
//! in order; the first plot that qualifies is the one changed.
use vstd::prelude::*;
use crate::model::{Dashboard, Plot, Point2, Scalar, Tab};

verus! {

/// Why an update was refused.
#[derive(Clone, Copy, Debug, PartialEq, Eq, Structural)]
pub enum UpdateError {
    /// The flat point list has an odd number of values.
    OddPointCount,
    /// The plot was found among the dashboard's own plots but has no such layer.
    LayerNotFound(usize),
    /// No plot qualifies.
    PlotNotFound(u64),
}

/// The points of a flat list `x0, y0, x1, y1, ...`, paired up.
pub open spec fn pairs(flat: Seq<Scalar>) -> Seq<Point2> {
    Seq::new(flat.len() / 2, |i: int| Point2 { x: flat[2 * i], y: flat[2 * i + 1] })
}

/// Pairing splits along even cuts: the points of two lists one after the other
/// are the points of the first followed by those of the second, and two numbers
/// make one point, the first its `x` and the second its `y`.
pub proof fn law_pairs(a: Seq<Scalar>, b: Seq<Scalar>, x: Scalar, y: Scalar)
    requires
        a.len() % 2 == 0,
    ensures
        pairs(a + b) == pairs(a) + pairs(b),
        pairs(seq![x, y]) == seq![Point2 { x, y }],
        pairs(Seq::<Scalar>::empty()).len() == 0,
{
    let h = a.len() / 2;
    assert(a.len() == 2 * h);
    assert((a + b).len() / 2 == h + b.len() / 2);
    assert forall|i: int| 0 <= i < pairs(a + b).len() implies #[trigger] pairs(a + b)[i] == (
    pairs(a) + pairs(b))[i] by {
        if i >= h {
            assert((a + b)[2 * i] == b[2 * (i - h)]);
            assert((a + b)[2 * i + 1] == b[2 * (i - h) + 1]);
        }
    }
    assert(pairs(a + b) =~= pairs(a) + pairs(b));
    assert(pairs(seq![x, y]) =~= seq![Point2 { x, y }]);
}

/// Pairs up a flat list of coordinates; an odd count is refused.
pub fn pair_points(flat: &[Scalar]) -> (r: Result<Vec<Point2>, UpdateError>)
    ensures
        flat@.len() % 2 != 0 ==> r == Err::<Vec<Point2>, UpdateError>(UpdateError::OddPointCount),
        flat@.len() % 2 == 0 ==> (r matches Ok(v) && v@ == pairs(flat@)),
{
    let n = flat.len();
    if n % 2 != 0 {
        return Err(UpdateError::OddPointCount);
    }
    let mut out: Vec<Point2> = Vec::new();
    let mut i: usize = 0;
    while i < n / 2
        invariant
            n == flat@.len(),
            n % 2 == 0,
            i <= n / 2,
            out@ =~= pairs(flat@).take(i as int),
        decreases n / 2 - i,
    {
        out.push(Point2 { x: flat[2 * i], y: flat[2 * i + 1] });
        i = i + 1;
    }
    assert(pairs(flat@).take((n / 2) as int) =~= pairs(flat@));
    Ok(out)
}

/// `p` is a 2D graph with identity `id`.
pub open spec fn is_graph_with_id(p: Plot, id: u64) -> bool {
    p matches Plot::Graph2D(g) && g.id.0 == id
}

/// `p` is a 2D graph with identity `id` that has a layer at `layer`.
pub open spec fn is_graph_with_layer(p: Plot, id: u64, layer: usize) -> bool {
    p matches Plot::Graph2D(g) && g.id.0 == id && layer < g.layers@.len()
}

/// `p` is a 2D or a 3D graph with identity `id`.
pub open spec fn has_plot_id(p: Plot, id: u64) -> bool {
    match p {
        Plot::Graph2D(g) => g.id.0 == id,
        Plot::Graph3D(g) => g.id.0 == id,
        _ => false,
    }
}

/// The predicate "is a 2D graph with identity `id`".
pub open spec fn id_pred(id: u64) -> spec_fn(Plot) -> bool {
    |p: Plot| is_graph_with_id(p, id)
}

/// The predicate "is a 2D graph with identity `id` and a layer at `layer`".
pub open spec fn layer_pred(id: u64, layer: usize) -> spec_fn(Plot) -> bool {
    |p: Plot| is_graph_with_layer(p, id, layer)
}

/// The predicate "is a 2D or 3D graph with identity `id`".
pub open spec fn plot_pred(id: u64) -> spec_fn(Plot) -> bool {
    |p: Plot| has_plot_id(p, id)
}

/// The first position at or after `start` whose plot satisfies `pred`, or the
/// length of `s` when there is none.
pub open spec fn first_where(s: Seq<Plot>, pred: spec_fn(Plot) -> bool, start: int) -> int
    decreases s.len() - start,
{
    if start >= s.len() {
        s.len() as int
    } else if start < 0 {
        0
    } else if pred(s[start]) {
        start
    } else {
        first_where(s, pred, start + 1)
    }
}

/// The first tab at or after `start` holding a plot that satisfies `pred`, or the
/// number of tabs when there is none.
pub open spec fn first_tab_where(tabs: Seq<Tab>, pred: spec_fn(Plot) -> bool, start: int) -> int
    decreases tabs.len() - start,
{
    if start >= tabs.len() {
        tabs.len() as int
    } else if start < 0 {
        0
    } else if first_where(tabs[start].plots@, pred, 0) < tabs[start].plots@.len() {
        start
    } else {
        first_tab_where(tabs, pred, start + 1)
    }
}

/// `first_where` names a position that satisfies `pred`, with none before it.
pub proof fn lemma_first_where(s: Seq<Plot>, pred: spec_fn(Plot) -> bool, start: int)
    requires
        0 <= start <= s.len(),
    ensures
        start <= first_where(s, pred, start) <= s.len(),
        first_where(s, pred, start) < s.len() ==> pred(s[first_where(s, pred, start)]),
        forall|k: int| start <= k < first_where(s, pred, start) ==> !pred(#[trigger] s[k]),
    decreases s.len() - start,
{
    if start < s.len() && !pred(s[start]) {
        lemma_first_where(s, pred, start + 1);
    }
}

/// `first_tab_where` names a tab holding a plot that satisfies `pred`, with no such
/// tab before it.
pub proof fn lemma_first_tab_where(tabs: Seq<Tab>, pred: spec_fn(Plot) -> bool, start: int)
    requires
        0 <= start <= tabs.len(),
    ensures
        start <= first_tab_where(tabs, pred, start) <= tabs.len(),
        first_tab_where(tabs, pred, start) < tabs.len() ==> first_where(
            tabs[first_tab_where(tabs, pred, start)].plots@,
            pred,
            0,
        ) < tabs[first_tab_where(tabs, pred, start)].plots@.len(),
        forall|t: int|
            start <= t < first_tab_where(tabs, pred, start) ==> first_where(
                #[trigger] tabs[t].plots@,
                pred,
                0,
            ) == tabs[t].plots@.len(),
    decreases tabs.len() - start,
{
    if start < tabs.len() {
        lemma_first_where(tabs[start].plots@, pred, 0);
        if first_where(tabs[start].plots@, pred, 0) == tabs[start].plots@.len() {
            lemma_first_tab_where(tabs, pred, start + 1);
        }
    }
}

/// `new` is the 2D graph `old` with `pts` appended to the points of layer `layer`,
/// all else kept.
pub open spec fn layer_extended(old: Plot, new: Plot, layer: int, pts: Seq<Point2>) -> bool {
    match (old, new) {
        (Plot::Graph2D(g0), Plot::Graph2D(g1)) => {
            &&& g1.id == g0.id
            &&& g1.meta == g0.meta
            &&& g1.x_scale == g0.x_scale
            &&& g1.y_scale == g0.y_scale
            &&& g1.interaction == g0.interaction
            &&& g1.x_label == g0.x_label
            &&& g1.y_label == g0.y_label
            &&& g1.layers@.len() == g0.layers@.len()
            &&& forall|l: int|
                0 <= l < g0.layers@.len() && l != layer ==> #[trigger] g1.layers@[l]
                    == g0.layers@[l]
            &&& g1.layers@[layer].xy@ == g0.layers@[layer].xy@ + pts
            &&& g1.layers@[layer].geometry == g0.layers@[layer].geometry
            &&& g1.layers@[layer].style == g0.layers@[layer].style
            &&& g1.layers@[layer].sizes == g0.layers@[layer].sizes
            &&& g1.layers@[layer].lower_line == g0.layers@[layer].lower_line
        },
        _ => false,
    }
}

/// `new` is the 2D graph `old` with the points of layer `layer` replaced by `pts`,
/// all else kept.
pub open spec fn layer_replaced(old: Plot, new: Plot, layer: int, pts: Seq<Point2>) -> bool {
    match (old, new) {
        (Plot::Graph2D(g0), Plot::Graph2D(g1)) => {
            &&& g1.id == g0.id
            &&& g1.meta == g0.meta
            &&& g1.x_scale == g0.x_scale
            &&& g1.y_scale == g0.y_scale
            &&& g1.interaction == g0.interaction
            &&& g1.x_label == g0.x_label
            &&& g1.y_label == g0.y_label
            &&& g1.layers@.len() == g0.layers@.len()
            &&& forall|l: int|
                0 <= l < g0.layers@.len() && l != layer ==> #[trigger] g1.layers@[l]
                    == g0.layers@[l]
            &&& g1.layers@[layer].xy@ == pts
            &&& g1.layers@[layer].geometry == g0.layers@[layer].geometry
            &&& g1.layers@[layer].style == g0.layers@[layer].style
            &&& g1.layers@[layer].sizes == g0.layers@[layer].sizes
            &&& g1.layers@[layer].lower_line == g0.layers@[layer].lower_line
        },
        _ => false,
    }
}

/// Appending points to a layer is replacing its points by the old points followed by
/// the new ones.
pub proof fn law_append_is_replace_with_concat(old: Plot, new: Plot, layer: int, pts: Seq<Point2>)
    requires
        old matches Plot::Graph2D(g) && 0 <= layer < g.layers@.len(),
    ensures
        layer_extended(old, new, layer, pts) <==> layer_replaced(
            old,
            new,
            layer,
            old->Graph2D_0.layers@[layer].xy@ + pts,
        ),
{
}

fn is_graph_with_id_exec(p: &Plot, id: u64) -> (b: bool)
    ensures
        b == is_graph_with_id(*p, id),
{
    match p {
        Plot::Graph2D(g) => g.id.0 == id,
        _ => false,
    }
}

fn is_graph_with_layer_exec(p: &Plot, id: u64, layer: usize) -> (b: bool)
    ensures
        b == is_graph_with_layer(*p, id, layer),
{
    match p {
        Plot::Graph2D(g) => g.id.0 == id && layer < g.layers.len(),
        _ => false,
    }
}

fn has_plot_id_exec(p: &Plot, id: u64) -> (b: bool)
    ensures
        b == has_plot_id(*p, id),
{
    match p {
        Plot::Graph2D(g) => g.id.0 == id,
        Plot::Graph3D(g) => g.id.0 == id,
        _ => false,
    }
}

/// Appends `pts` to layer `layer` of the 2D graph `p` (points moved out of `pts`),
/// or, when `replace` holds, puts `pts` in place of that layer's points.
fn edit_layer(p: Plot, layer: usize, pts: Vec<Point2>, replace: bool) -> (r: Plot)
    requires
        p matches Plot::Graph2D(g) && layer < g.layers@.len(),
    ensures
        !replace ==> layer_extended(p, r, layer as int, pts@),
        replace ==> layer_replaced(p, r, layer as int, pts@),
{
    match p {
        Plot::Graph2D(g) => {
            let ghost g0 = g;
            let mut g = g;
            let mut l = g.layers.remove(layer);
            let ghost l0 = l;
            if replace {
                l.xy = pts;
            } else {
                let mut more = pts;
                l.xy.append(&mut more);
            }
            g.layers.insert(layer, l);
            assert(g.layers@ =~= g0.layers@.update(layer as int, l));
            Plot::Graph2D(g)
        },
        _ => p,
    }
}

impl Dashboard {
    /// Appends the points of the flat list `points` (x, y pairs) to layer
    /// `layer_idx` of the 2D graph `plot_id`.
    ///
    /// An odd count is refused first. Then the dashboard's own plots are searched:
    /// the first 2D graph with that identity takes the points, or the call fails
    /// with `LayerNotFound` when the graph has no such layer. When none of the
    /// dashboard's own plots has that identity, the tabs are searched in order for
    /// the first 2D graph with that identity and that layer. Failing that, the
    /// answer is `PlotNotFound`. A refused call changes nothing.
    pub fn append_points(&mut self, plot_id: u64, layer_idx: usize, points: &[Scalar]) -> (r:
        Result<(), UpdateError>)
        ensures
            ({
                let id_pred = id_pred(plot_id);
                let layer_pred = layer_pred(plot_id, layer_idx);
                let top = first_where(old(self).plots@, id_pred, 0);
                let t = first_tab_where(old(self).tabs@, layer_pred, 0);
                let pts = pairs(points@);
                &&& final(self).background == old(self).background
                &&& final(self).columns == old(self).columns
                &&& final(self).active_tab == old(self).active_tab
                &&& if points@.len() % 2 != 0 {
                    &&& r == Err::<(), UpdateError>(UpdateError::OddPointCount)
                    &&& final(self).plots@ == old(self).plots@
                    &&& final(self).tabs@ == old(self).tabs@
                } else if top < old(self).plots@.len() {
                    &&& final(self).tabs@ == old(self).tabs@
                    &&& if is_graph_with_layer(old(self).plots@[top], plot_id, layer_idx) {
                        &&& r == Ok::<(), UpdateError>(())
                        &&& final(self).plots@.len() == old(self).plots@.len()
                        &&& forall|k: int|
                            0 <= k < old(self).plots@.len() && k != top ==> #[trigger] final(self).plots@[k] == old(self).plots@[k]
                        &&& layer_extended(
                            old(self).plots@[top],
                            final(self).plots@[top],
                            layer_idx as int,
                            pts,
                        )
                    } else {
                        &&& r == Err::<(), UpdateError>(UpdateError::LayerNotFound(layer_idx))
                        &&& final(self).plots@ == old(self).plots@
                    }
                } else if t < old(self).tabs@.len() {
                    let j = first_where(old(self).tabs@[t].plots@, layer_pred, 0);
                    &&& r == Ok::<(), UpdateError>(())
                    &&& final(self).plots@ == old(self).plots@
                    &&& final(self).tabs@.len() == old(self).tabs@.len()
                    &&& forall|u: int|
                        0 <= u < old(self).tabs@.len() && u != t ==> #[trigger] final(self).tabs@[u]
                            == old(self).tabs@[u]
                    &&& final(self).tabs@[t].name == old(self).tabs@[t].name
                    &&& final(self).tabs@[t].columns == old(self).tabs@[t].columns
                    &&& final(self).tabs@[t].plots@.len() == old(self).tabs@[t].plots@.len()
                    &&& forall|k: int|
                        0 <= k < old(self).tabs@[t].plots@.len() && k != j ==> #[trigger] final(self).tabs@[t].plots@[k] == old(self).tabs@[t].plots@[k]
                    &&& layer_extended(
                        old(self).tabs@[t].plots@[j],
                        final(self).tabs@[t].plots@[j],
                        layer_idx as int,
                        pts,
                    )
                } else {
                    &&& r == Err::<(), UpdateError>(UpdateError::PlotNotFound(plot_id))
                    &&& final(self).plots@ == old(self).plots@
                    &&& final(self).tabs@ == old(self).tabs@
                }
            }),
    {
        let pts = match pair_points(points) {
            Ok(v) => v,
            Err(e) => {
                return Err(e);
            },
        };
        let n = self.plots.len();
        let mut j: usize = 0;
        while j < n
            invariant
                n == self.plots@.len(),
                j <= n,
                self.plots@ == old(self).plots@,
                self.tabs@ == old(self).tabs@,
                self.background == old(self).background,
                self.columns == old(self).columns,
                self.active_tab == old(self).active_tab,
                pts@ == pairs(points@),
                points@.len() % 2 == 0,
                first_where(self.plots@, id_pred(plot_id), 0) == first_where(self.plots@, id_pred(plot_id), j as int),
            decreases n - j,
        {
            if is_graph_with_id_exec(&self.plots[j], plot_id) {
                assert(first_where(self.plots@, id_pred(plot_id), j as int) == j as int);
                if is_graph_with_layer_exec(&self.plots[j], plot_id, layer_idx) {
                    let ghost before = self.plots@;
                    let p = self.plots.remove(j);
                    let q = edit_layer(p, layer_idx, pts, false);
                    self.plots.insert(j, q);
                    assert(self.plots@ =~= before.update(j as int, q));
                    return Ok(());
                } else {
                    return Err(UpdateError::LayerNotFound(layer_idx));
                }
            }
            assert(first_where(self.plots@, id_pred(plot_id), j as int) == first_where(
                self.plots@,
                id_pred(plot_id),
                j as int + 1,
            ));
            j = j + 1;
        }
        let nt = self.tabs.len();
        let mut t: usize = 0;
        while t < nt
            invariant
                nt == self.tabs@.len(),
                t <= nt,
                self.plots@ == old(self).plots@,
                self.tabs@ == old(self).tabs@,
                self.background == old(self).background,
                self.columns == old(self).columns,
                self.active_tab == old(self).active_tab,
                first_where(self.plots@, id_pred(plot_id), 0) == self.plots@.len(),
                first_tab_where(self.tabs@, layer_pred(plot_id, layer_idx), 0) == first_tab_where(
                    self.tabs@,
                    layer_pred(plot_id, layer_idx),
                    t as int,
                ),
                pts@ == pairs(points@),
                points@.len() % 2 == 0,
            decreases nt - t,
        {
            let m = self.tabs[t].plots.len();
            let mut k: usize = 0;
            while k < m
                invariant
                    nt == self.tabs@.len(),
                    t < nt,
                    m == self.tabs@[t as int].plots@.len(),
                    k <= m,
                    self.plots@ == old(self).plots@,
                    self.tabs@ == old(self).tabs@,
                    self.background == old(self).background,
                    self.columns == old(self).columns,
                    self.active_tab == old(self).active_tab,
                    first_where(self.plots@, id_pred(plot_id), 0) == self.plots@.len(),
                    first_tab_where(self.tabs@, layer_pred(plot_id, layer_idx), 0) == first_tab_where(
                        self.tabs@,
                        layer_pred(plot_id, layer_idx),
                        t as int,
                    ),
                    first_where(self.tabs@[t as int].plots@, layer_pred(plot_id, layer_idx), 0) == first_where(
                        self.tabs@[t as int].plots@,
                        layer_pred(plot_id, layer_idx),
                        k as int,
                    ),
                    pts@ == pairs(points@),
                    points@.len() % 2 == 0,
                decreases m - k,
            {
                if is_graph_with_layer_exec(&self.tabs[t].plots[k], plot_id, layer_idx) {
                    let ghost tabs0 = self.tabs@;
                    let mut tab = self.tabs.remove(t);
                    let ghost tab0 = tab;
                    let p = tab.plots.remove(k);
                    let q = edit_layer(p, layer_idx, pts, false);
                    tab.plots.insert(k, q);
                    assert(tab.plots@ =~= tab0.plots@.update(k as int, q));
                    self.tabs.insert(t, tab);
                    assert(self.tabs@ =~= tabs0.update(t as int, tab));
                    return Ok(());
                }
                assert(first_where(self.tabs@[t as int].plots@, layer_pred(plot_id, layer_idx), k as int) == first_where(
                    self.tabs@[t as int].plots@,
                    layer_pred(plot_id, layer_idx),
                    k as int + 1,
                ));
                k = k + 1;
            }
            assert(first_where(self.tabs@[t as int].plots@, layer_pred(plot_id, layer_idx), m as int) == m);
            assert(first_tab_where(self.tabs@, layer_pred(plot_id, layer_idx), t as int) == first_tab_where(
                self.tabs@,
                layer_pred(plot_id, layer_idx),
                t as int + 1,
            ));
            t = t + 1;
        }
        Err(UpdateError::PlotNotFound(plot_id))
    }

    /// Replaces the points of layer `layer_idx` of the 2D graph `plot_id` by the
    /// points of the flat list `points` (x, y pairs).
    ///
    /// An odd count is refused first. The dashboard's own plots and then the tabs,
    /// in order, are searched for the first 2D graph with that identity and that
    /// layer; failing that, the answer is `PlotNotFound`. A refused call changes
    /// nothing.
    pub fn replace_trace(&mut self, plot_id: u64, layer_idx: usize, points: &[Scalar]) -> (r:
        Result<(), UpdateError>)
        ensures
            ({
                let layer_pred = layer_pred(plot_id, layer_idx);
                let top = first_where(old(self).plots@, layer_pred, 0);
                let t = first_tab_where(old(self).tabs@, layer_pred, 0);
                let pts = pairs(points@);
                &&& final(self).background == old(self).background
                &&& final(self).columns == old(self).columns
                &&& final(self).active_tab == old(self).active_tab
                &&& if points@.len() % 2 != 0 {
                    &&& r == Err::<(), UpdateError>(UpdateError::OddPointCount)
                    &&& final(self).plots@ == old(self).plots@
                    &&& final(self).tabs@ == old(self).tabs@
                } else if top < old(self).plots@.len() {
                    &&& r == Ok::<(), UpdateError>(())
                    &&& final(self).tabs@ == old(self).tabs@
                    &&& final(self).plots@.len() == old(self).plots@.len()
                    &&& forall|k: int|
                        0 <= k < old(self).plots@.len() && k != top ==> #[trigger] final(self).plots@[k] == old(self).plots@[k]
                    &&& layer_replaced(
                        old(self).plots@[top],
                        final(self).plots@[top],
                        layer_idx as int,
                        pts,
                    )
                } else if t < old(self).tabs@.len() {
                    let j = first_where(old(self).tabs@[t].plots@, layer_pred, 0);
                    &&& r == Ok::<(), UpdateError>(())
                    &&& final(self).plots@ == old(self).plots@
                    &&& final(self).tabs@.len() == old(self).tabs@.len()
                    &&& forall|u: int|
                        0 <= u < old(self).tabs@.len() && u != t ==> #[trigger] final(self).tabs@[u]
                            == old(self).tabs@[u]
                    &&& final(self).tabs@[t].name == old(self).tabs@[t].name
                    &&& final(self).tabs@[t].columns == old(self).tabs@[t].columns
                    &&& final(self).tabs@[t].plots@.len() == old(self).tabs@[t].plots@.len()
                    &&& forall|k: int|
                        0 <= k < old(self).tabs@[t].plots@.len() && k != j ==> #[trigger] final(self).tabs@[t].plots@[k] == old(self).tabs@[t].plots@[k]
                    &&& layer_replaced(
                        old(self).tabs@[t].plots@[j],
                        final(self).tabs@[t].plots@[j],
                        layer_idx as int,
                        pts,
                    )
                } else {
                    &&& r == Err::<(), UpdateError>(UpdateError::PlotNotFound(plot_id))
                    &&& final(self).plots@ == old(self).plots@
                    &&& final(self).tabs@ == old(self).tabs@
                }
            }),
    {
        let pts = match pair_points(points) {
            Ok(v) => v,
            Err(e) => {
                return Err(e);
            },
        };
        let n = self.plots.len();
        let mut j: usize = 0;
        while j < n
            invariant
                n == self.plots@.len(),
                j <= n,
                self.plots@ == old(self).plots@,
                self.tabs@ == old(self).tabs@,
                self.background == old(self).background,
                self.columns == old(self).columns,
                self.active_tab == old(self).active_tab,
                pts@ == pairs(points@),
                points@.len() % 2 == 0,
                first_where(self.plots@, layer_pred(plot_id, layer_idx), 0) == first_where(
                    self.plots@,
                    layer_pred(plot_id, layer_idx),
                    j as int,
                ),
            decreases n - j,
        {
            if is_graph_with_layer_exec(&self.plots[j], plot_id, layer_idx) {
                assert(first_where(self.plots@, layer_pred(plot_id, layer_idx), j as int) == j as int);
                let ghost before = self.plots@;
                let p = self.plots.remove(j);
                let q = edit_layer(p, layer_idx, pts, true);
                self.plots.insert(j, q);
                assert(self.plots@ =~= before.update(j as int, q));
                return Ok(());
            }
            assert(first_where(self.plots@, layer_pred(plot_id, layer_idx), j as int) == first_where(
                self.plots@,
                layer_pred(plot_id, layer_idx),
                j as int + 1,
            ));
            j = j + 1;
        }
        let nt = self.tabs.len();
        let mut t: usize = 0;
        while t < nt
            invariant
                nt == self.tabs@.len(),
                t <= nt,
                self.plots@ == old(self).plots@,
                self.tabs@ == old(self).tabs@,
                self.background == old(self).background,
                self.columns == old(self).columns,
                self.active_tab == old(self).active_tab,
                first_where(self.plots@, layer_pred(plot_id, layer_idx), 0) == self.plots@.len(),
                first_tab_where(self.tabs@, layer_pred(plot_id, layer_idx), 0) == first_tab_where(
                    self.tabs@,
                    layer_pred(plot_id, layer_idx),
                    t as int,
                ),
                pts@ == pairs(points@),
                points@.len() % 2 == 0,
            decreases nt - t,
        {
            let m = self.tabs[t].plots.len();
            let mut k: usize = 0;
            while k < m
                invariant
                    nt == self.tabs@.len(),
                    t < nt,
                    m == self.tabs@[t as int].plots@.len(),
                    k <= m,
                    self.plots@ == old(self).plots@,
                    self.tabs@ == old(self).tabs@,
                    self.background == old(self).background,
                    self.columns == old(self).columns,
                    self.active_tab == old(self).active_tab,
                    first_where(self.plots@, layer_pred(plot_id, layer_idx), 0) == self.plots@.len(),
                    first_tab_where(self.tabs@, layer_pred(plot_id, layer_idx), 0) == first_tab_where(
                        self.tabs@,
                        layer_pred(plot_id, layer_idx),
                        t as int,
                    ),
                    first_where(self.tabs@[t as int].plots@, layer_pred(plot_id, layer_idx), 0) == first_where(
                        self.tabs@[t as int].plots@,
                        layer_pred(plot_id, layer_idx),
                        k as int,
                    ),
                    pts@ == pairs(points@),
                    points@.len() % 2 == 0,
                decreases m - k,
            {
                if is_graph_with_layer_exec(&self.tabs[t].plots[k], plot_id, layer_idx) {
                    let ghost tabs0 = self.tabs@;
                    let mut tab = self.tabs.remove(t);
                    let ghost tab0 = tab;
                    let p = tab.plots.remove(k);
                    let q = edit_layer(p, layer_idx, pts, true);
                    tab.plots.insert(k, q);
                    assert(tab.plots@ =~= tab0.plots@.update(k as int, q));
                    self.tabs.insert(t, tab);
                    assert(self.tabs@ =~= tabs0.update(t as int, tab));
                    return Ok(());
                }
                assert(first_where(self.tabs@[t as int].plots@, layer_pred(plot_id, layer_idx), k as int) == first_where(
                    self.tabs@[t as int].plots@,
                    layer_pred(plot_id, layer_idx),
                    k as int + 1,
                ));
                k = k + 1;
            }
            assert(first_where(self.tabs@[t as int].plots@, layer_pred(plot_id, layer_idx), m as int) == m);
            assert(first_tab_where(self.tabs@, layer_pred(plot_id, layer_idx), t as int) == first_tab_where(
                self.tabs@,
                layer_pred(plot_id, layer_idx),
                t as int + 1,
            ));
            t = t + 1;
        }
        Err(UpdateError::PlotNotFound(plot_id))
    }

    /// Puts `new_plot` in place of the first 2D or 3D graph with identity
    /// `plot_id`, looking among the dashboard's own plots and then tab by tab;
    /// `PlotNotFound` when there is none, and then nothing changes.
    pub fn update_plot(&mut self, plot_id: u64, new_plot: Plot) -> (r: Result<(), UpdateError>)
        ensures
            ({
                let pred = plot_pred(plot_id);
                let top = first_where(old(self).plots@, pred, 0);
                let t = first_tab_where(old(self).tabs@, pred, 0);
                &&& final(self).background == old(self).background
                &&& final(self).columns == old(self).columns
                &&& final(self).active_tab == old(self).active_tab
                &&& if top < old(self).plots@.len() {
                    &&& r == Ok::<(), UpdateError>(())
                    &&& final(self).tabs@ == old(self).tabs@
                    &&& final(self).plots@ == old(self).plots@.update(top, new_plot)
                } else if t < old(self).tabs@.len() {
                    let j = first_where(old(self).tabs@[t].plots@, pred, 0);
                    &&& r == Ok::<(), UpdateError>(())
                    &&& final(self).plots@ == old(self).plots@
                    &&& final(self).tabs@.len() == old(self).tabs@.len()
                    &&& forall|u: int|
                        0 <= u < old(self).tabs@.len() && u != t ==> #[trigger] final(self).tabs@[u]
                            == old(self).tabs@[u]
                    &&& final(self).tabs@[t].name == old(self).tabs@[t].name
                    &&& final(self).tabs@[t].columns == old(self).tabs@[t].columns
                    &&& final(self).tabs@[t].plots@ == old(self).tabs@[t].plots@.update(
                        j,
                        new_plot,
                    )
                } else {
                    &&& r == Err::<(), UpdateError>(UpdateError::PlotNotFound(plot_id))
                    &&& final(self).plots@ == old(self).plots@
                    &&& final(self).tabs@ == old(self).tabs@
                }
            }),
    {
        let n = self.plots.len();
        let mut j: usize = 0;
        while j < n
            invariant
                n == self.plots@.len(),
                j <= n,
                self.plots@ == old(self).plots@,
                self.tabs@ == old(self).tabs@,
                self.background == old(self).background,
                self.columns == old(self).columns,
                self.active_tab == old(self).active_tab,
                first_where(self.plots@, plot_pred(plot_id), 0) == first_where(self.plots@, plot_pred(plot_id), j as int),
            decreases n - j,
        {
            if has_plot_id_exec(&self.plots[j], plot_id) {
                assert(first_where(self.plots@, plot_pred(plot_id), j as int) == j as int);
                let ghost before = self.plots@;
                let _old = self.plots.remove(j);
                self.plots.insert(j, new_plot);
                assert(self.plots@ =~= before.update(j as int, new_plot));
                return Ok(());
            }
            assert(first_where(self.plots@, plot_pred(plot_id), j as int) == first_where(
                self.plots@,
                plot_pred(plot_id),
                j as int + 1,
            ));
            j = j + 1;
        }
        let nt = self.tabs.len();
        let mut t: usize = 0;
        while t < nt
            invariant
                nt == self.tabs@.len(),
                t <= nt,
                self.plots@ == old(self).plots@,
                self.tabs@ == old(self).tabs@,
                self.background == old(self).background,
                self.columns == old(self).columns,
                self.active_tab == old(self).active_tab,
                first_where(self.plots@, plot_pred(plot_id), 0) == self.plots@.len(),
                first_tab_where(self.tabs@, plot_pred(plot_id), 0) == first_tab_where(self.tabs@, plot_pred(plot_id), t as int),
            decreases nt - t,
        {
            let m = self.tabs[t].plots.len();
            let mut k: usize = 0;
            while k < m
                invariant
                    nt == self.tabs@.len(),
                    t < nt,
                    m == self.tabs@[t as int].plots@.len(),
                    k <= m,
                    self.plots@ == old(self).plots@,
                    self.tabs@ == old(self).tabs@,
                    self.background == old(self).background,
                    self.columns == old(self).columns,
                    self.active_tab == old(self).active_tab,
                    first_where(self.plots@, plot_pred(plot_id), 0) == self.plots@.len(),
                    first_tab_where(self.tabs@, plot_pred(plot_id), 0) == first_tab_where(
                        self.tabs@,
                        plot_pred(plot_id),
                        t as int,
                    ),
                    first_where(self.tabs@[t as int].plots@, plot_pred(plot_id), 0) == first_where(
                        self.tabs@[t as int].plots@,
                        plot_pred(plot_id),
                        k as int,
                    ),
                decreases m - k,
            {
                if has_plot_id_exec(&self.tabs[t].plots[k], plot_id) {
                    let ghost tabs0 = self.tabs@;
                    let mut tab = self.tabs.remove(t);
                    let ghost tab0 = tab;
                    let _old = tab.plots.remove(k);
                    tab.plots.insert(k, new_plot);
                    assert(tab.plots@ =~= tab0.plots@.update(k as int, new_plot));
                    self.tabs.insert(t, tab);
                    assert(self.tabs@ =~= tabs0.update(t as int, tab));
                    return Ok(());
                }
                assert(first_where(self.tabs@[t as int].plots@, plot_pred(plot_id), k as int) == first_where(
                    self.tabs@[t as int].plots@,
                    plot_pred(plot_id),
                    k as int + 1,
                ));
                k = k + 1;
            }
            assert(first_where(self.tabs@[t as int].plots@, plot_pred(plot_id), m as int) == m);
            assert(first_tab_where(self.tabs@, plot_pred(plot_id), t as int) == first_tab_where(
                self.tabs@,
                plot_pred(plot_id),
                t as int + 1,
            ));
            t = t + 1;
        }
        Err(UpdateError::PlotNotFound(plot_id))
    }
}

} // verus!
