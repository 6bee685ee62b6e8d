//! The builder API that assembles a `Dashboard`: `dash()` starts one, `add_*`
//! methods add plots (each configured by a closure over a plot builder) and
//! `add_tab` groups plots into tabs.
//!
//! Graphs get identities `1, 2, 3, ...` in the order the builder creates them,
//! across tabs; streaming updates find a graph by this identity.
use vstd::prelude::*;
use crate::model::{
    default_background, default_style, Candlestick, Color, Colormap, Dashboard, Distribution,
    Field, Geometry2D, Geometry3D, Graph2D, Graph3D, GridSize, Heatmap, Layer2D, Layer3D,
    OHLC, Plot, PlotId, PlotMeta, Point2, Point3, Radial, Scalar, Style, Tab,
};

verus! {

/// `r[i]` is what `S::into` makes of `v[i]`, for every `i`.
pub open spec fn converted<S: Into<String>>(v: Seq<S>, r: Seq<String>) -> bool {
    &&& r.len() == v.len()
    &&& forall|i: int| 0 <= i < v.len() ==> call_ensures(S::into, (v[i],), #[trigger] r[i])
}

/// Converts every element of `v` into a `String`, in order.
fn strings_from<S: Into<String>>(v: Vec<S>) -> (r: Vec<String>)
    ensures
        converted(v@, r@),
{
    let ghost v0 = v@;
    let mut v = v;
    let mut r: Vec<String> = Vec::new();
    let n = v.len();
    let mut i: usize = 0;
    while i < n
        invariant
            n == v0.len(),
            i <= n,
            v@ == v0.skip(i as int),
            r@.len() == i,
            forall|j: int| 0 <= j < i ==> call_ensures(S::into, (v0[j],), #[trigger] r@[j]),
        decreases n - i,
    {
        let x = v.remove(0);
        assert(v@ =~= v0.skip(i + 1));
        let s: String = x.into();
        r.push(s);
        i = i + 1;
    }
    r
}

/// `r[i]` keeps the second part of `v[i]` and converts its first part.
pub open spec fn converted_pairs<S: Into<String>, T>(v: Seq<(S, T)>, r: Seq<(String, T)>) -> bool {
    &&& r.len() == v.len()
    &&& forall|i: int|
        0 <= i < v.len() ==> call_ensures(S::into, (v[i].0,), (#[trigger] r[i]).0) && r[i].1
            == v[i].1
}

/// Converts the first part of every pair of `v` into a `String`, in order.
fn labelled_from<S: Into<String>, T>(v: Vec<(S, T)>) -> (r: Vec<(String, T)>)
    ensures
        converted_pairs(v@, r@),
{
    let ghost v0 = v@;
    let mut v = v;
    let mut r: Vec<(String, T)> = Vec::new();
    let n = v.len();
    let mut i: usize = 0;
    while i < n
        invariant
            n == v0.len(),
            i <= n,
            v@ == v0.skip(i as int),
            r@.len() == i,
            forall|j: int|
                0 <= j < i ==> call_ensures(S::into, (v0[j].0,), (#[trigger] r@[j]).0) && r@[j].1
                    == v0[j].1,
        decreases n - i,
    {
        let (l, x) = v.remove(0);
        assert(v@ =~= v0.skip(i + 1));
        let s: String = l.into();
        r.push((s, x));
        i = i + 1;
    }
    r
}

/// The style a plot gets from an optional style argument.
pub open spec fn style_or_default(o: Option<Style>) -> Style {
    match o {
        Some(s) => s,
        None => default_style(),
    }
}

/// A style given by reference is that style.
impl<'a> From<&'a Style> for Option<Style> {
    fn from(s: &'a Style) -> (r: Option<Style>) {
        Some(*s)
    }
}

impl<'a> vstd::std_specs::convert::FromSpecImpl<&'a Style> for Option<Style> {
    open spec fn obeys_from_spec() -> bool {
        true
    }

    open spec fn from_spec(s: &'a Style) -> Option<Style> {
        Some(*s)
    }
}

/// Starts a dashboard with the default background and no plots.
pub fn dash() -> (b: DashBuilder)
    ensures
        b.current().background == default_background(),
        b.current().plots@.len() == 0,
        b.current().tabs@.len() == 0,
        b.current().columns is None,
        b.current().active_tab == 0,
        b.next_id() == 1,
{
    DashBuilder { dash: Dashboard::default(), next_id: 1 }
}

/// Builds a dashboard.
pub struct DashBuilder {
    dash: Dashboard,
    next_id: u32,
}

/// The identity after `id` (the counter wraps at the top of its range).
pub open spec fn after(id: u32) -> u32 {
    if id == u32::MAX {
        0
    } else {
        (id + 1) as u32
    }
}

/// The identity after `m` steps from `id`.
pub open spec fn after_n(id: u32, m: nat) -> u32
    decreases m,
{
    if m == 0 {
        id
    } else {
        after(after_n(id, (m - 1) as nat))
    }
}

proof fn lemma_after_n(m: nat)
    requires
        m < u32::MAX,
    ensures
        after_n(1, m) == 1 + m,
    decreases m,
{
    if m > 0 {
        lemma_after_n((m - 1) as nat);
    }
}

/// A builder numbers its graphs from 1 up: the graphs it creates get pairwise
/// different identities as long as fewer than 2^32 - 1 have been created.
pub proof fn law_identities_distinct(i: nat, j: nat)
    requires
        i < j < u32::MAX,
    ensures
        after_n(1, i) != after_n(1, j),
{
    lemma_after_n(i);
    lemma_after_n(j);
}

fn next_after(id: u32) -> (r: u32)
    ensures
        r == after(id),
{
    if id == u32::MAX {
        0
    } else {
        id + 1
    }
}

impl DashBuilder {
    /// The dashboard built so far.
    pub closed spec fn current(&self) -> Dashboard {
        self.dash
    }

    /// The identity the next graph gets.
    pub closed spec fn next_id(&self) -> u32 {
        self.next_id
    }

    /// The dashboard built so far.
    pub fn dashboard(&self) -> (d: &Dashboard)
        ensures
            *d == self.current(),
    {
        &self.dash
    }

    /// The finished dashboard.
    pub fn into_dashboard(self) -> (d: Dashboard)
        ensures
            d == self.current(),
    {
        self.dash
    }

    /// Sets the background colour.
    pub fn background_color(self, c: Color) -> (r: Self)
        ensures
            r.current() == (Dashboard { background: c, ..self.current() }),
            r.next_id() == self.next_id(),
    {
        let mut b = self;
        b.dash.background = c;
        b
    }

    /// Sets the number of columns per row (0 is read as 1).
    pub fn columns(self, cols: usize) -> (r: Self)
        ensures
            r.current() == (Dashboard {
                columns: Some(if cols == 0 {
                    1usize
                } else {
                    cols
                }),
                ..self.current()
            }),
            r.next_id() == self.next_id(),
    {
        let mut b = self;
        b.dash.columns = Some(
            if cols == 0 {
                1
            } else {
                cols
            },
        );
        b
    }

    /// Adds a 2D graph configured by `f`.
    pub fn add_2d<F: FnOnce(Plot2DBuilder) -> Plot2DBuilder>(self, f: F) -> (r: Self)
        requires
            forall|b: Plot2DBuilder|
                b.graph().is_fresh(PlotId(self.next_id() as u64)) ==> call_requires(f, (b,)),
        ensures
            exists|b: Plot2DBuilder, out: Plot2DBuilder|
                #![trigger call_ensures(f, (b,), out)]
                {
                    &&& b.graph().is_fresh(PlotId(self.next_id() as u64))
                    &&& call_ensures(f, (b,), out)
                    &&& r.current().plots@ == self.current().plots@.push(
                        Plot::Graph2D(out.graph()),
                    )
                },
            r.current().tabs@ == self.current().tabs@,
            r.current().background == self.current().background,
            r.current().columns == self.current().columns,
            r.current().active_tab == self.current().active_tab,
            r.next_id() == after(self.next_id()),
    {
        let mut s = self;
        let id = PlotId(s.next_id as u64);
        s.next_id = next_after(s.next_id);
        let b = Plot2DBuilder::new(id);
        let out = f(b);
        s.dash.plots.push(Plot::Graph2D(out.graph));
        s
    }

    /// Adds a 3D graph configured by `f`.
    pub fn add_3d<F: FnOnce(Plot3DBuilder) -> Plot3DBuilder>(self, f: F) -> (r: Self)
        requires
            forall|b: Plot3DBuilder|
                b.graph().is_fresh(PlotId(self.next_id() as u64)) ==> call_requires(f, (b,)),
        ensures
            exists|b: Plot3DBuilder, out: Plot3DBuilder|
                #![trigger call_ensures(f, (b,), out)]
                {
                    &&& b.graph().is_fresh(PlotId(self.next_id() as u64))
                    &&& call_ensures(f, (b,), out)
                    &&& r.current().plots@ == self.current().plots@.push(
                        Plot::Graph3D(out.graph()),
                    )
                },
            r.current().tabs@ == self.current().tabs@,
            r.current().background == self.current().background,
            r.current().columns == self.current().columns,
            r.current().active_tab == self.current().active_tab,
            r.next_id() == after(self.next_id()),
    {
        let mut s = self;
        let id = PlotId(s.next_id as u64);
        s.next_id = next_after(s.next_id);
        let b = Plot3DBuilder::new(id);
        let out = f(b);
        s.dash.plots.push(Plot::Graph3D(out.graph));
        s
    }

    /// Adds a statistical plot configured by `f` (a histogram of no values with
    /// 30 bins until `f` says otherwise).
    pub fn add_distribution<F: FnOnce(DistBuilder) -> DistBuilder>(self, f: F) -> (r: Self)
        requires
            forall|b: DistBuilder| b.is_fresh() ==> call_requires(f, (b,)),
        ensures
            exists|b: DistBuilder, out: DistBuilder|
                #![trigger call_ensures(f, (b,), out)]
                {
                    &&& b.is_fresh()
                    &&& call_ensures(f, (b,), out)
                    &&& r.current().plots@ == self.current().plots@.push(
                        Plot::Distribution(out.dist()),
                    )
                },
            r.current().tabs@ == self.current().tabs@,
            r.current().background == self.current().background,
            r.current().columns == self.current().columns,
            r.current().active_tab == self.current().active_tab,
            r.next_id() == self.next_id(),
    {
        let mut s = self;
        let b = DistBuilder::new();
        let out = f(b);
        s.dash.plots.push(Plot::Distribution(out.dist));
        s
    }

    /// Adds a scalar field of `dims.x` by `dims.y` values shown between `vmin` and
    /// `vmax`.
    pub fn add_field(self, dims: GridSize, values: Vec<Scalar>, vmin: Scalar, vmax: Scalar) -> (r:
        Self)
        ensures
            exists|meta: PlotMeta|
                #![trigger meta.is_empty()]
                meta.is_empty() && r.current().plots@ == self.current().plots@.push(
                    Plot::Field(Field { meta, dims, values, vmin, vmax }),
                ),
            r.current().tabs@ == self.current().tabs@,
            r.current().background == self.current().background,
            r.current().columns == self.current().columns,
            r.current().active_tab == self.current().active_tab,
            r.next_id() == self.next_id(),
    {
        let mut s = self;
        let meta = PlotMeta::empty();
        s.dash.plots.push(Plot::Field(Field { meta, dims, values, vmin, vmax }));
        s
    }

    /// Adds a radial chart configured by `f` (an empty pie until `f` says
    /// otherwise).
    pub fn add_radial<F: FnOnce(RadialBuilder) -> RadialBuilder>(self, f: F) -> (r: Self)
        requires
            forall|b: RadialBuilder| b.is_fresh() ==> call_requires(f, (b,)),
        ensures
            exists|b: RadialBuilder, out: RadialBuilder|
                #![trigger call_ensures(f, (b,), out)]
                {
                    &&& b.is_fresh()
                    &&& call_ensures(f, (b,), out)
                    &&& r.current().plots@ == self.current().plots@.push(
                        Plot::Radial(out.radial()),
                    )
                },
            r.current().tabs@ == self.current().tabs@,
            r.current().background == self.current().background,
            r.current().columns == self.current().columns,
            r.current().active_tab == self.current().active_tab,
            r.next_id() == self.next_id(),
    {
        let mut s = self;
        let b = RadialBuilder::new();
        let out = f(b);
        s.dash.plots.push(Plot::Radial(out.rad));
        s
    }

    /// Adds a candlestick chart configured by `f`.
    pub fn add_candlestick<F: FnOnce(CandlestickBuilder) -> CandlestickBuilder>(self, f: F) -> (r:
        Self)
        requires
            forall|b: CandlestickBuilder| b.is_fresh() ==> call_requires(f, (b,)),
        ensures
            exists|b: CandlestickBuilder, out: CandlestickBuilder|
                #![trigger call_ensures(f, (b,), out)]
                {
                    &&& b.is_fresh()
                    &&& call_ensures(f, (b,), out)
                    &&& r.current().plots@ == self.current().plots@.push(
                        Plot::Candlestick(out.candle()),
                    )
                },
            r.current().tabs@ == self.current().tabs@,
            r.current().background == self.current().background,
            r.current().columns == self.current().columns,
            r.current().active_tab == self.current().active_tab,
            r.next_id() == self.next_id(),
    {
        let mut s = self;
        let b = CandlestickBuilder::new();
        let out = f(b);
        s.dash.plots.push(Plot::Candlestick(out.candle));
        s
    }

    /// Adds a heatmap configured by `f`.
    pub fn add_heatmap<F: FnOnce(HeatmapBuilder) -> HeatmapBuilder>(self, f: F) -> (r: Self)
        requires
            forall|b: HeatmapBuilder| b.is_fresh() ==> call_requires(f, (b,)),
        ensures
            exists|b: HeatmapBuilder, out: HeatmapBuilder|
                #![trigger call_ensures(f, (b,), out)]
                {
                    &&& b.is_fresh()
                    &&& call_ensures(f, (b,), out)
                    &&& r.current().plots@ == self.current().plots@.push(
                        Plot::Heatmap(out.heatmap()),
                    )
                },
            r.current().tabs@ == self.current().tabs@,
            r.current().background == self.current().background,
            r.current().columns == self.current().columns,
            r.current().active_tab == self.current().active_tab,
            r.next_id() == self.next_id(),
    {
        let mut s = self;
        let b = HeatmapBuilder::new();
        let out = f(b);
        s.dash.plots.push(Plot::Heatmap(out.heatmap));
        s
    }

    /// Adds a tab named `name` whose plots `f` adds. Graphs in the tab continue the
    /// dashboard's numbering.
    pub fn add_tab<S: Into<String>, F: FnOnce(TabBuilder) -> TabBuilder>(self, name: S, f: F) -> (r:
        Self)
        requires
            forall|b: TabBuilder|
                b.next_id() == self.next_id() && b.tab().plots@.len() == 0 && b.tab().columns is None
                    ==> call_requires(f, (b,)),
        ensures
            exists|b: TabBuilder, out: TabBuilder|
                #![trigger call_ensures(f, (b,), out)]
                {
                    &&& b.next_id() == self.next_id()
                    &&& b.tab().plots@.len() == 0
                    &&& b.tab().columns is None
                    &&& call_ensures(S::into, (name,), b.tab().name)
                    &&& call_ensures(f, (b,), out)
                    &&& r.current().tabs@ == self.current().tabs@.push(out.tab())
                    &&& r.next_id() == out.next_id()
                },
            r.current().plots@ == self.current().plots@,
            r.current().background == self.current().background,
            r.current().columns == self.current().columns,
            r.current().active_tab == self.current().active_tab,
    {
        let mut s = self;
        let b = TabBuilder::new(name, s.next_id);
        let out = f(b);
        s.next_id = out.next_id;
        s.dash.tabs.push(out.tab);
        s
    }
}

/// Builds one tab of a dashboard.
pub struct TabBuilder {
    tab: Tab,
    next_id: u32,
}

impl TabBuilder {
    /// The tab built so far.
    pub closed spec fn tab(&self) -> Tab {
        self.tab
    }

    /// The identity the next graph of the tab gets.
    pub closed spec fn next_id(&self) -> u32 {
        self.next_id
    }

    fn new<S: Into<String>>(name: S, next_id: u32) -> (b: Self)
        ensures
            call_ensures(S::into, (name,), b.tab().name),
            b.tab().plots@.len() == 0,
            b.tab().columns is None,
            b.next_id() == next_id,
    {
        TabBuilder { tab: Tab::new(name), next_id }
    }

    /// Sets the number of columns per row of this tab (0 is read as 1).
    pub fn columns(self, cols: usize) -> (r: Self)
        ensures
            r.tab() == (Tab {
                columns: Some(if cols == 0 {
                    1usize
                } else {
                    cols
                }),
                ..self.tab()
            }),
            r.next_id() == self.next_id(),
    {
        let mut b = self;
        b.tab.columns = Some(
            if cols == 0 {
                1
            } else {
                cols
            },
        );
        b
    }

    /// Adds a 2D graph configured by `f`.
    pub fn add_2d<F: FnOnce(Plot2DBuilder) -> Plot2DBuilder>(self, f: F) -> (r: Self)
        requires
            forall|b: Plot2DBuilder|
                b.graph().is_fresh(PlotId(self.next_id() as u64)) ==> call_requires(f, (b,)),
        ensures
            exists|b: Plot2DBuilder, out: Plot2DBuilder|
                #![trigger call_ensures(f, (b,), out)]
                {
                    &&& b.graph().is_fresh(PlotId(self.next_id() as u64))
                    &&& call_ensures(f, (b,), out)
                    &&& r.tab().plots@ == self.tab().plots@.push(Plot::Graph2D(out.graph()))
                },
            r.tab().name == self.tab().name,
            r.tab().columns == self.tab().columns,
            r.next_id() == after(self.next_id()),
    {
        let mut s = self;
        let id = PlotId(s.next_id as u64);
        s.next_id = next_after(s.next_id);
        let b = Plot2DBuilder::new(id);
        let out = f(b);
        s.tab.plots.push(Plot::Graph2D(out.graph));
        s
    }

    /// Adds a 3D graph configured by `f`.
    pub fn add_3d<F: FnOnce(Plot3DBuilder) -> Plot3DBuilder>(self, f: F) -> (r: Self)
        requires
            forall|b: Plot3DBuilder|
                b.graph().is_fresh(PlotId(self.next_id() as u64)) ==> call_requires(f, (b,)),
        ensures
            exists|b: Plot3DBuilder, out: Plot3DBuilder|
                #![trigger call_ensures(f, (b,), out)]
                {
                    &&& b.graph().is_fresh(PlotId(self.next_id() as u64))
                    &&& call_ensures(f, (b,), out)
                    &&& r.tab().plots@ == self.tab().plots@.push(Plot::Graph3D(out.graph()))
                },
            r.tab().name == self.tab().name,
            r.tab().columns == self.tab().columns,
            r.next_id() == after(self.next_id()),
    {
        let mut s = self;
        let id = PlotId(s.next_id as u64);
        s.next_id = next_after(s.next_id);
        let b = Plot3DBuilder::new(id);
        let out = f(b);
        s.tab.plots.push(Plot::Graph3D(out.graph));
        s
    }

    /// Adds a statistical plot configured by `f`.
    pub fn add_distribution<F: FnOnce(DistBuilder) -> DistBuilder>(self, f: F) -> (r: Self)
        requires
            forall|b: DistBuilder| b.is_fresh() ==> call_requires(f, (b,)),
        ensures
            exists|b: DistBuilder, out: DistBuilder|
                #![trigger call_ensures(f, (b,), out)]
                {
                    &&& b.is_fresh()
                    &&& call_ensures(f, (b,), out)
                    &&& r.tab().plots@ == self.tab().plots@.push(Plot::Distribution(out.dist()))
                },
            r.tab().name == self.tab().name,
            r.tab().columns == self.tab().columns,
            r.next_id() == self.next_id(),
    {
        let mut s = self;
        let b = DistBuilder::new();
        let out = f(b);
        s.tab.plots.push(Plot::Distribution(out.dist));
        s
    }

    /// Adds a scalar field.
    pub fn add_field(self, dims: GridSize, values: Vec<Scalar>, vmin: Scalar, vmax: Scalar) -> (r:
        Self)
        ensures
            exists|meta: PlotMeta|
                #![trigger meta.is_empty()]
                meta.is_empty() && r.tab().plots@ == self.tab().plots@.push(
                    Plot::Field(Field { meta, dims, values, vmin, vmax }),
                ),
            r.tab().name == self.tab().name,
            r.tab().columns == self.tab().columns,
            r.next_id() == self.next_id(),
    {
        let mut s = self;
        let meta = PlotMeta::empty();
        s.tab.plots.push(Plot::Field(Field { meta, dims, values, vmin, vmax }));
        s
    }

    /// Adds a radial chart configured by `f`.
    pub fn add_radial<F: FnOnce(RadialBuilder) -> RadialBuilder>(self, f: F) -> (r: Self)
        requires
            forall|b: RadialBuilder| b.is_fresh() ==> call_requires(f, (b,)),
        ensures
            exists|b: RadialBuilder, out: RadialBuilder|
                #![trigger call_ensures(f, (b,), out)]
                {
                    &&& b.is_fresh()
                    &&& call_ensures(f, (b,), out)
                    &&& r.tab().plots@ == self.tab().plots@.push(Plot::Radial(out.radial()))
                },
            r.tab().name == self.tab().name,
            r.tab().columns == self.tab().columns,
            r.next_id() == self.next_id(),
    {
        let mut s = self;
        let b = RadialBuilder::new();
        let out = f(b);
        s.tab.plots.push(Plot::Radial(out.rad));
        s
    }

    /// Adds a candlestick chart configured by `f`.
    pub fn add_candlestick<F: FnOnce(CandlestickBuilder) -> CandlestickBuilder>(self, f: F) -> (r:
        Self)
        requires
            forall|b: CandlestickBuilder| b.is_fresh() ==> call_requires(f, (b,)),
        ensures
            exists|b: CandlestickBuilder, out: CandlestickBuilder|
                #![trigger call_ensures(f, (b,), out)]
                {
                    &&& b.is_fresh()
                    &&& call_ensures(f, (b,), out)
                    &&& r.tab().plots@ == self.tab().plots@.push(Plot::Candlestick(out.candle()))
                },
            r.tab().name == self.tab().name,
            r.tab().columns == self.tab().columns,
            r.next_id() == self.next_id(),
    {
        let mut s = self;
        let b = CandlestickBuilder::new();
        let out = f(b);
        s.tab.plots.push(Plot::Candlestick(out.candle));
        s
    }

    /// Adds a heatmap configured by `f`.
    pub fn add_heatmap<F: FnOnce(HeatmapBuilder) -> HeatmapBuilder>(self, f: F) -> (r: Self)
        requires
            forall|b: HeatmapBuilder| b.is_fresh() ==> call_requires(f, (b,)),
        ensures
            exists|b: HeatmapBuilder, out: HeatmapBuilder|
                #![trigger call_ensures(f, (b,), out)]
                {
                    &&& b.is_fresh()
                    &&& call_ensures(f, (b,), out)
                    &&& r.tab().plots@ == self.tab().plots@.push(Plot::Heatmap(out.heatmap()))
                },
            r.tab().name == self.tab().name,
            r.tab().columns == self.tab().columns,
            r.next_id() == self.next_id(),
    {
        let mut s = self;
        let b = HeatmapBuilder::new();
        let out = f(b);
        s.tab.plots.push(Plot::Heatmap(out.heatmap));
        s
    }
}

/// Configures a 2D graph.
pub struct Plot2DBuilder {
    graph: Graph2D,
}

/// `new` is `old` with one more layer of the given geometry, points, style, sizes
/// and lower line on top, and nothing else changed.
pub open spec fn layer_pushed(
    old: Graph2D,
    new: Graph2D,
    geometry: Geometry2D,
    xy: Vec<Point2>,
    style: Style,
    sizes: Option<Vec<Scalar>>,
    lower_line: Option<Vec<Point2>>,
) -> bool {
    new == (Graph2D {
        layers: new.layers,
        ..old
    }) && new.layers@ == old.layers@.push(
        Layer2D { geometry, xy, style, sizes, lower_line },
    )
}

impl Plot2DBuilder {
    /// The graph configured so far.
    pub closed spec fn graph(&self) -> Graph2D {
        self.graph
    }

    fn new(id: PlotId) -> (b: Self)
        ensures
            b.graph().is_fresh(id),
    {
        Plot2DBuilder { graph: Graph2D::new(id) }
    }

    fn push_layer(self, geometry: Geometry2D, xy: Vec<Point2>, style: Option<Style>) -> (r: Self)
        ensures
            layer_pushed(self.graph(), r.graph(), geometry, xy, style_or_default(style), None, None),
    {
        let mut layer = Layer2D::new(geometry, xy);
        if let Some(st) = style {
            layer.style = st;
        }
        let mut b = self;
        b.graph.layers.push(layer);
        b
    }

    /// Adds a line through the points.
    pub fn line<S: Into<Option<Style>>>(self, xy: Vec<Point2>, style: S) -> (r: Self)
        ensures
            exists|o: Option<Style>|
                #![trigger call_ensures(S::into, (style,), o)]
                call_ensures(S::into, (style,), o) && layer_pushed(
                    self.graph(),
                    r.graph(),
                    Geometry2D::Line,
                    xy,
                    style_or_default(o),
                    None,
                    None,
                ),
    {
        let o: Option<Style> = style.into();
        self.push_layer(Geometry2D::Line, xy, o)
    }

    /// Adds the points as a scatter plot.
    pub fn scatter<S: Into<Option<Style>>>(self, xy: Vec<Point2>, style: S) -> (r: Self)
        ensures
            exists|o: Option<Style>|
                #![trigger call_ensures(S::into, (style,), o)]
                call_ensures(S::into, (style,), o) && layer_pushed(
                    self.graph(),
                    r.graph(),
                    Geometry2D::Points,
                    xy,
                    style_or_default(o),
                    None,
                    None,
                ),
    {
        let o: Option<Style> = style.into();
        self.push_layer(Geometry2D::Points, xy, o)
    }

    /// Adds the area under the points.
    pub fn area<S: Into<Option<Style>>>(self, xy: Vec<Point2>, style: S) -> (r: Self)
        ensures
            exists|o: Option<Style>|
                #![trigger call_ensures(S::into, (style,), o)]
                call_ensures(S::into, (style,), o) && layer_pushed(
                    self.graph(),
                    r.graph(),
                    Geometry2D::Area,
                    xy,
                    style_or_default(o),
                    None,
                    None,
                ),
    {
        let o: Option<Style> = style.into();
        self.push_layer(Geometry2D::Area, xy, o)
    }

    /// Adds one bar per point.
    pub fn bars<S: Into<Option<Style>>>(self, xy: Vec<Point2>, style: S) -> (r: Self)
        ensures
            exists|o: Option<Style>|
                #![trigger call_ensures(S::into, (style,), o)]
                call_ensures(S::into, (style,), o) && layer_pushed(
                    self.graph(),
                    r.graph(),
                    Geometry2D::Bars,
                    xy,
                    style_or_default(o),
                    None,
                    None,
                ),
    {
        let o: Option<Style> = style.into();
        self.push_layer(Geometry2D::Bars, xy, o)
    }

    /// Adds one stem per point.
    pub fn stems<S: Into<Option<Style>>>(self, xy: Vec<Point2>, style: S) -> (r: Self)
        ensures
            exists|o: Option<Style>|
                #![trigger call_ensures(S::into, (style,), o)]
                call_ensures(S::into, (style,), o) && layer_pushed(
                    self.graph(),
                    r.graph(),
                    Geometry2D::Stems,
                    xy,
                    style_or_default(o),
                    None,
                    None,
                ),
    {
        let o: Option<Style> = style.into();
        self.push_layer(Geometry2D::Stems, xy, o)
    }

    /// Adds a bubble chart: points with a size each.
    pub fn bubble<S: Into<Option<Style>>>(self, xy: Vec<Point2>, sizes: Vec<Scalar>, style: S) -> (r:
        Self)
        ensures
            exists|o: Option<Style>|
                #![trigger call_ensures(S::into, (style,), o)]
                call_ensures(S::into, (style,), o) && layer_pushed(
                    self.graph(),
                    r.graph(),
                    Geometry2D::Points,
                    xy,
                    style_or_default(o),
                    Some(sizes),
                    None,
                ),
    {
        let mut layer = Layer2D::new(Geometry2D::Points, xy);
        layer.sizes = Some(sizes);
        let o: Option<Style> = style.into();
        if let Some(st) = o {
            layer.style = st;
        }
        let mut b = self;
        b.graph.layers.push(layer);
        b
    }

    /// Fills the region between `upper` and `lower` (confidence bands, ranges).
    pub fn fill_between<S: Into<Option<Style>>>(
        self,
        upper: Vec<Point2>,
        lower: Vec<Point2>,
        style: S,
    ) -> (r: Self)
        ensures
            exists|o: Option<Style>|
                #![trigger call_ensures(S::into, (style,), o)]
                call_ensures(S::into, (style,), o) && layer_pushed(
                    self.graph(),
                    r.graph(),
                    Geometry2D::FillBetween,
                    upper,
                    style_or_default(o),
                    None,
                    Some(lower),
                ),
    {
        let mut layer = Layer2D::new(Geometry2D::FillBetween, upper);
        layer.lower_line = Some(lower);
        let o: Option<Style> = style.into();
        if let Some(st) = o {
            layer.style = st;
        }
        let mut b = self;
        b.graph.layers.push(layer);
        b
    }

    /// Sets the x-axis label.
    pub fn x_label<S: Into<String>>(self, label: S) -> (r: Self)
        ensures
            r.graph().x_label matches Some(s) && call_ensures(S::into, (label,), s),
            r.graph() == (Graph2D { x_label: r.graph().x_label, ..self.graph() }),
    {
        let mut b = self;
        b.graph.x_label = Some(label.into());
        b
    }

    /// Sets the y-axis label.
    pub fn y_label<S: Into<String>>(self, label: S) -> (r: Self)
        ensures
            r.graph().y_label matches Some(s) && call_ensures(S::into, (label,), s),
            r.graph() == (Graph2D { y_label: r.graph().y_label, ..self.graph() }),
    {
        let mut b = self;
        b.graph.y_label = Some(label.into());
        b
    }

    /// Sets the title.
    pub fn title<S: Into<String>>(self, title: S) -> (r: Self)
        ensures
            r.graph().meta.title matches Some(s) && call_ensures(S::into, (title,), s),
            r.graph().meta.description == self.graph().meta.description,
            r.graph() == (Graph2D { meta: r.graph().meta, ..self.graph() }),
    {
        let mut b = self;
        b.graph.meta.title = Some(title.into());
        b
    }

    /// Sets the description.
    pub fn description<S: Into<String>>(self, desc: S) -> (r: Self)
        ensures
            r.graph().meta.description matches Some(s) && call_ensures(S::into, (desc,), s),
            r.graph().meta.title == self.graph().meta.title,
            r.graph() == (Graph2D { meta: r.graph().meta, ..self.graph() }),
    {
        let mut b = self;
        b.graph.meta.description = Some(desc.into());
        b
    }
}

/// Configures a 3D graph.
pub struct Plot3DBuilder {
    graph: Graph3D,
}

impl Plot3DBuilder {
    /// The graph configured so far.
    pub closed spec fn graph(&self) -> Graph3D {
        self.graph
    }

    fn new(id: PlotId) -> (b: Self)
        ensures
            b.graph().is_fresh(id),
    {
        Plot3DBuilder { graph: Graph3D::new(id) }
    }

    /// Adds the points as a 3D scatter plot.
    pub fn points<S: Into<Option<Style>>>(self, xyz: Vec<Point3>, style: S) -> (r: Self)
        ensures
            exists|o: Option<Style>|
                #![trigger call_ensures(S::into, (style,), o)]
                call_ensures(S::into, (style,), o) && r.graph().layers@ == self.graph().layers@.push(
                    Layer3D { geometry: Geometry3D::Points, xyz, style: style_or_default(o) },
                ),
            r.graph() == (Graph3D { layers: r.graph().layers, ..self.graph() }),
    {
        let o: Option<Style> = style.into();
        let st = match o {
            Some(s) => s,
            None => Style::default(),
        };
        let layer = Layer3D { geometry: Geometry3D::Points, xyz, style: st };
        let mut b = self;
        b.graph.layers.push(layer);
        b
    }

    /// Adds a surface over an `nx` by `ny` grid of points, row-major.
    pub fn surface<S: Into<Option<Style>>>(self, xyz: Vec<Point3>, nx: u32, ny: u32, style: S) -> (r:
        Self)
        ensures
            exists|o: Option<Style>|
                #![trigger call_ensures(S::into, (style,), o)]
                call_ensures(S::into, (style,), o) && r.graph().layers@ == self.graph().layers@.push(
                    Layer3D {
                        geometry: Geometry3D::Surface { grid: GridSize { x: nx, y: ny } },
                        xyz,
                        style: style_or_default(o),
                    },
                ),
            r.graph() == (Graph3D { layers: r.graph().layers, ..self.graph() }),
    {
        let o: Option<Style> = style.into();
        let st = match o {
            Some(s) => s,
            None => Style::default(),
        };
        let layer = Layer3D {
            geometry: Geometry3D::Surface { grid: GridSize { x: nx, y: ny } },
            xyz,
            style: st,
        };
        let mut b = self;
        b.graph.layers.push(layer);
        b
    }

    /// Sets the title.
    pub fn title<S: Into<String>>(self, title: S) -> (r: Self)
        ensures
            r.graph().meta.title matches Some(s) && call_ensures(S::into, (title,), s),
            r.graph().meta.description == self.graph().meta.description,
            r.graph() == (Graph3D { meta: r.graph().meta, ..self.graph() }),
    {
        let mut b = self;
        b.graph.meta.title = Some(title.into());
        b
    }

    /// Sets the description.
    pub fn description<S: Into<String>>(self, desc: S) -> (r: Self)
        ensures
            r.graph().meta.description matches Some(s) && call_ensures(S::into, (desc,), s),
            r.graph().meta.title == self.graph().meta.title,
            r.graph() == (Graph3D { meta: r.graph().meta, ..self.graph() }),
    {
        let mut b = self;
        b.graph.meta.description = Some(desc.into());
        b
    }

    /// Sets the x-axis label.
    pub fn x_label<S: Into<String>>(self, label: S) -> (r: Self)
        ensures
            r.graph().x_label matches Some(s) && call_ensures(S::into, (label,), s),
            r.graph() == (Graph3D { x_label: r.graph().x_label, ..self.graph() }),
    {
        let mut b = self;
        b.graph.x_label = Some(label.into());
        b
    }

    /// Sets the y-axis label.
    pub fn y_label<S: Into<String>>(self, label: S) -> (r: Self)
        ensures
            r.graph().y_label matches Some(s) && call_ensures(S::into, (label,), s),
            r.graph() == (Graph3D { y_label: r.graph().y_label, ..self.graph() }),
    {
        let mut b = self;
        b.graph.y_label = Some(label.into());
        b
    }

    /// Sets the z-axis label.
    pub fn z_label<S: Into<String>>(self, label: S) -> (r: Self)
        ensures
            r.graph().z_label matches Some(s) && call_ensures(S::into, (label,), s),
            r.graph() == (Graph3D { z_label: r.graph().z_label, ..self.graph() }),
    {
        let mut b = self;
        b.graph.z_label = Some(label.into());
        b
    }
}

/// Configures a statistical plot.
pub struct DistBuilder {
    dist: Distribution,
}

/// Number of histogram bins until set otherwise.
pub const DEFAULT_BINS: usize = 30;

impl DistBuilder {
    /// The plot configured so far.
    pub closed spec fn dist(&self) -> Distribution {
        self.dist
    }

    /// A histogram of no values with 30 bins, default style, no labels.
    pub open spec fn is_fresh(&self) -> bool {
        &&& self.dist() matches Distribution::Histogram { meta, values, bins, style, x_label, y_label }
        &&& meta.is_empty()
        &&& values@.len() == 0
        &&& bins == 30
        &&& style == default_style()
        &&& x_label is None
        &&& y_label is None
    }

    fn new() -> (b: Self)
        ensures
            b.is_fresh(),
    {
        DistBuilder {
            dist: Distribution::Histogram {
                meta: PlotMeta::empty(),
                values: Vec::new(),
                bins: DEFAULT_BINS,
                style: Style::default(),
                x_label: None,
                y_label: None,
            },
        }
    }

    /// A histogram of `values` with 30 bins (replacing whatever was configured).
    pub fn histogram(self, values: Vec<Scalar>) -> (r: Self)
        ensures
            exists|meta: PlotMeta|
                #![trigger meta.is_empty()]
                meta.is_empty() && r.dist() == (Distribution::Histogram {
                    meta,
                    values,
                    bins: 30,
                    style: default_style(),
                    x_label: None,
                    y_label: None,
                }),
    {
        DistBuilder {
            dist: Distribution::Histogram {
                meta: PlotMeta::empty(),
                values,
                bins: DEFAULT_BINS,
                style: Style::default(),
                x_label: None,
                y_label: None,
            },
        }
    }

    /// A density estimate of `values` (replacing whatever was configured).
    pub fn pdf(self, values: Vec<Scalar>) -> (r: Self)
        ensures
            exists|meta: PlotMeta|
                #![trigger meta.is_empty()]
                meta.is_empty() && r.dist() == (Distribution::Pdf {
                    meta,
                    values,
                    style: default_style(),
                    x_label: None,
                    y_label: None,
                }),
    {
        DistBuilder {
            dist: Distribution::Pdf {
                meta: PlotMeta::empty(),
                values,
                style: Style::default(),
                x_label: None,
                y_label: None,
            },
        }
    }

    /// Sets the number of bins of a histogram (0 is read as 1); other kinds ignore
    /// it.
    pub fn bins(self, bins: usize) -> (r: Self)
        ensures
            (match self.dist() {
                Distribution::Histogram { meta, values, style, x_label, y_label, .. } => r.dist()
                    == (Distribution::Histogram {
                    meta,
                    values,
                    bins: if bins == 0 {
                        1usize
                    } else {
                        bins
                    },
                    style,
                    x_label,
                    y_label,
                }),
                _ => r.dist() == self.dist(),
            }),
    {
        match self.dist {
            Distribution::Histogram { meta, values, style, x_label, y_label, .. } => DistBuilder {
                dist: Distribution::Histogram {
                    meta,
                    values,
                    bins: if bins == 0 {
                        1
                    } else {
                        bins
                    },
                    style,
                    x_label,
                    y_label,
                },
            },
            other => DistBuilder { dist: other },
        }
    }

    /// A box plot of labelled groups (replacing whatever was configured).
    pub fn boxplot<S: Into<String>>(self, groups: Vec<(S, Vec<Scalar>)>) -> (r: Self)
        ensures
            r.dist() matches Distribution::BoxPlot { meta, groups: g, style, x_label, y_label } && {
                &&& meta.is_empty()
                &&& converted_pairs(groups@, g@)
                &&& style == default_style()
                &&& x_label is None
                &&& y_label is None
            },
    {
        let g = labelled_from(groups);
        DistBuilder {
            dist: Distribution::BoxPlot {
                meta: PlotMeta::empty(),
                groups: g,
                style: Style::default(),
                x_label: None,
                y_label: None,
            },
        }
    }

    /// An empirical distribution function of `values` (replacing whatever was
    /// configured).
    pub fn ecdf(self, values: Vec<Scalar>) -> (r: Self)
        ensures
            exists|meta: PlotMeta|
                #![trigger meta.is_empty()]
                meta.is_empty() && r.dist() == (Distribution::ECDF {
                    meta,
                    values,
                    style: default_style(),
                    x_label: None,
                    y_label: None,
                }),
    {
        DistBuilder {
            dist: Distribution::ECDF {
                meta: PlotMeta::empty(),
                values,
                style: Style::default(),
                x_label: None,
                y_label: None,
            },
        }
    }

    /// Sets the style, whatever the kind.
    pub fn style(self, s: Style) -> (r: Self)
        ensures
            r.dist().style_of() == s,
            r.dist().meta_of() == self.dist().meta_of(),
            r.dist().x_label_of() == self.dist().x_label_of(),
            r.dist().y_label_of() == self.dist().y_label_of(),
            r.dist().same_data(self.dist()),
    {
        let d = match self.dist {
            Distribution::Histogram { meta, values, bins, x_label, y_label, .. } => {
                Distribution::Histogram { meta, values, bins, style: s, x_label, y_label }
            },
            Distribution::Pdf { meta, values, x_label, y_label, .. } => Distribution::Pdf {
                meta,
                values,
                style: s,
                x_label,
                y_label,
            },
            Distribution::BoxPlot { meta, groups, x_label, y_label, .. } => Distribution::BoxPlot {
                meta,
                groups,
                style: s,
                x_label,
                y_label,
            },
            Distribution::ECDF { meta, values, x_label, y_label, .. } => Distribution::ECDF {
                meta,
                values,
                style: s,
                x_label,
                y_label,
            },
        };
        DistBuilder { dist: d }
    }

    /// Sets the x-axis label, whatever the kind.
    pub fn x_label<S: Into<String>>(self, label: S) -> (r: Self)
        ensures
            r.dist().x_label_of() matches Some(s) && call_ensures(S::into, (label,), s),
            r.dist().style_of() == self.dist().style_of(),
            r.dist().meta_of() == self.dist().meta_of(),
            r.dist().y_label_of() == self.dist().y_label_of(),
            r.dist().same_data(self.dist()),
    {
        let l: String = label.into();
        let d = match self.dist {
            Distribution::Histogram { meta, values, bins, style, y_label, .. } => {
                Distribution::Histogram { meta, values, bins, style, x_label: Some(l), y_label }
            },
            Distribution::Pdf { meta, values, style, y_label, .. } => Distribution::Pdf {
                meta,
                values,
                style,
                x_label: Some(l),
                y_label,
            },
            Distribution::BoxPlot { meta, groups, style, y_label, .. } => Distribution::BoxPlot {
                meta,
                groups,
                style,
                x_label: Some(l),
                y_label,
            },
            Distribution::ECDF { meta, values, style, y_label, .. } => Distribution::ECDF {
                meta,
                values,
                style,
                x_label: Some(l),
                y_label,
            },
        };
        DistBuilder { dist: d }
    }

    /// Sets the y-axis label, whatever the kind.
    pub fn y_label<S: Into<String>>(self, label: S) -> (r: Self)
        ensures
            r.dist().y_label_of() matches Some(s) && call_ensures(S::into, (label,), s),
            r.dist().style_of() == self.dist().style_of(),
            r.dist().meta_of() == self.dist().meta_of(),
            r.dist().x_label_of() == self.dist().x_label_of(),
            r.dist().same_data(self.dist()),
    {
        let l: String = label.into();
        let d = match self.dist {
            Distribution::Histogram { meta, values, bins, style, x_label, .. } => {
                Distribution::Histogram { meta, values, bins, style, x_label, y_label: Some(l) }
            },
            Distribution::Pdf { meta, values, style, x_label, .. } => Distribution::Pdf {
                meta,
                values,
                style,
                x_label,
                y_label: Some(l),
            },
            Distribution::BoxPlot { meta, groups, style, x_label, .. } => Distribution::BoxPlot {
                meta,
                groups,
                style,
                x_label,
                y_label: Some(l),
            },
            Distribution::ECDF { meta, values, style, x_label, .. } => Distribution::ECDF {
                meta,
                values,
                style,
                x_label,
                y_label: Some(l),
            },
        };
        DistBuilder { dist: d }
    }

    /// Sets the title, whatever the kind.
    pub fn title<S: Into<String>>(self, title: S) -> (r: Self)
        ensures
            r.dist().meta_of().title matches Some(s) && call_ensures(S::into, (title,), s),
            r.dist().meta_of().description == self.dist().meta_of().description,
            r.dist().same_data(self.dist()),
            r.dist().style_of() == self.dist().style_of(),
            r.dist().x_label_of() == self.dist().x_label_of(),
            r.dist().y_label_of() == self.dist().y_label_of(),
    {
        let t: String = title.into();
        let d = match self.dist {
            Distribution::Histogram { meta, values, bins, style, x_label, y_label } => {
                Distribution::Histogram {
                    meta: PlotMeta { title: Some(t), ..meta },
                    values,
                    bins,
                    style,
                    x_label,
                    y_label,
                }
            },
            Distribution::Pdf { meta, values, style, x_label, y_label } => Distribution::Pdf {
                meta: PlotMeta { title: Some(t), ..meta },
                values,
                style,
                x_label,
                y_label,
            },
            Distribution::BoxPlot { meta, groups, style, x_label, y_label } => {
                Distribution::BoxPlot {
                    meta: PlotMeta { title: Some(t), ..meta },
                    groups,
                    style,
                    x_label,
                    y_label,
                }
            },
            Distribution::ECDF { meta, values, style, x_label, y_label } => Distribution::ECDF {
                meta: PlotMeta { title: Some(t), ..meta },
                values,
                style,
                x_label,
                y_label,
            },
        };
        DistBuilder { dist: d }
    }

    /// Sets the description, whatever the kind.
    pub fn description<S: Into<String>>(self, desc: S) -> (r: Self)
        ensures
            r.dist().meta_of().description matches Some(s) && call_ensures(S::into, (desc,), s),
            r.dist().meta_of().title == self.dist().meta_of().title,
            r.dist().same_data(self.dist()),
            r.dist().style_of() == self.dist().style_of(),
            r.dist().x_label_of() == self.dist().x_label_of(),
            r.dist().y_label_of() == self.dist().y_label_of(),
    {
        let t: String = desc.into();
        let d = match self.dist {
            Distribution::Histogram { meta, values, bins, style, x_label, y_label } => {
                Distribution::Histogram {
                    meta: PlotMeta { description: Some(t), ..meta },
                    values,
                    bins,
                    style,
                    x_label,
                    y_label,
                }
            },
            Distribution::Pdf { meta, values, style, x_label, y_label } => Distribution::Pdf {
                meta: PlotMeta { description: Some(t), ..meta },
                values,
                style,
                x_label,
                y_label,
            },
            Distribution::BoxPlot { meta, groups, style, x_label, y_label } => {
                Distribution::BoxPlot {
                    meta: PlotMeta { description: Some(t), ..meta },
                    groups,
                    style,
                    x_label,
                    y_label,
                }
            },
            Distribution::ECDF { meta, values, style, x_label, y_label } => Distribution::ECDF {
                meta: PlotMeta { description: Some(t), ..meta },
                values,
                style,
                x_label,
                y_label,
            },
        };
        DistBuilder { dist: d }
    }
}

/// Configures a radial chart.
pub struct RadialBuilder {
    rad: Radial,
}

impl RadialBuilder {
    /// The chart configured so far.
    pub closed spec fn radial(&self) -> Radial {
        self.rad
    }

    /// An empty pie without metadata.
    pub open spec fn is_fresh(&self) -> bool {
        self.radial() matches Radial::Pie { meta, slices } && meta.is_empty() && slices@.len()
            == 0
    }

    fn new() -> (b: Self)
        ensures
            b.is_fresh(),
    {
        RadialBuilder { rad: Radial::Pie { meta: PlotMeta::empty(), slices: Vec::new() } }
    }

    /// A pie of labelled slices (replacing whatever was configured).
    pub fn pie<S: Into<String>>(self, slices: Vec<(S, Scalar)>) -> (r: Self)
        ensures
            r.radial() matches Radial::Pie { meta, slices: s } && meta.is_empty()
                && converted_pairs(slices@, s@),
    {
        let s = labelled_from(slices);
        RadialBuilder { rad: Radial::Pie { meta: PlotMeta::empty(), slices: s } }
    }

    /// A radar chart with one value per named axis (replacing whatever was
    /// configured).
    pub fn radar<S: Into<String>>(self, axes: Vec<S>, values: Vec<Scalar>) -> (r: Self)
        ensures
            r.radial() matches Radial::Radar { meta, axes: a, values: v, style } && meta.is_empty()
                && converted(axes@, a@) && v == values && style == default_style(),
    {
        let a = strings_from(axes);
        RadialBuilder {
            rad: Radial::Radar { meta: PlotMeta::empty(), axes: a, values, style: Style::default() },
        }
    }

    /// Sets the style of a radar chart; a pie ignores it.
    pub fn style(self, s: Style) -> (r: Self)
        ensures
            (match self.radial() {
                Radial::Radar { meta, axes, values, .. } => r.radial() == (Radial::Radar {
                    meta,
                    axes,
                    values,
                    style: s,
                }),
                _ => r.radial() == self.radial(),
            }),
    {
        match self.rad {
            Radial::Radar { meta, axes, values, .. } => RadialBuilder {
                rad: Radial::Radar { meta, axes, values, style: s },
            },
            other => RadialBuilder { rad: other },
        }
    }

    /// Sets the title.
    pub fn title<S: Into<String>>(self, title: S) -> (r: Self)
        ensures
            r.radial().meta_of().title matches Some(s) && call_ensures(S::into, (title,), s),
            r.radial().meta_of().description == self.radial().meta_of().description,
            r.radial().same_data(self.radial()),
    {
        let t: String = title.into();
        match self.rad {
            Radial::Pie { meta, slices } => RadialBuilder {
                rad: Radial::Pie { meta: PlotMeta { title: Some(t), ..meta }, slices },
            },
            Radial::Radar { meta, axes, values, style } => RadialBuilder {
                rad: Radial::Radar {
                    meta: PlotMeta { title: Some(t), ..meta },
                    axes,
                    values,
                    style,
                },
            },
        }
    }

    /// Sets the description.
    pub fn description<S: Into<String>>(self, desc: S) -> (r: Self)
        ensures
            r.radial().meta_of().description matches Some(s) && call_ensures(S::into, (desc,), s),
            r.radial().meta_of().title == self.radial().meta_of().title,
            r.radial().same_data(self.radial()),
    {
        let t: String = desc.into();
        match self.rad {
            Radial::Pie { meta, slices } => RadialBuilder {
                rad: Radial::Pie { meta: PlotMeta { description: Some(t), ..meta }, slices },
            },
            Radial::Radar { meta, axes, values, style } => RadialBuilder {
                rad: Radial::Radar {
                    meta: PlotMeta { description: Some(t), ..meta },
                    axes,
                    values,
                    style,
                },
            },
        }
    }
}

/// Configures a candlestick chart.
pub struct CandlestickBuilder {
    candle: Candlestick,
}

/// The default colour of rising candles, rgb(0.2, 0.8, 0.3).
pub open spec fn default_up_color() -> Color {
    Color { r: 0x3e4c_cccdu32, g: 0x3f4c_cccdu32, b: 0x3e99_999au32, a: 0x3f80_0000u32 }
}

/// The default colour of falling candles, rgb(0.9, 0.2, 0.2).
pub open spec fn default_down_color() -> Color {
    Color { r: 0x3f66_6666u32, g: 0x3e4c_cccdu32, b: 0x3e4c_cccdu32, a: 0x3f80_0000u32 }
}

impl CandlestickBuilder {
    /// The chart configured so far.
    pub closed spec fn candle(&self) -> Candlestick {
        self.candle
    }

    /// No candles, no metadata or labels, the default rising and falling colours.
    pub open spec fn is_fresh(&self) -> bool {
        &&& self.candle().meta.is_empty()
        &&& self.candle().candles@.len() == 0
        &&& self.candle().up_color == default_up_color()
        &&& self.candle().down_color == default_down_color()
        &&& self.candle().x_label is None
        &&& self.candle().y_label is None
    }

    fn new() -> (b: Self)
        ensures
            b.is_fresh(),
    {
        CandlestickBuilder {
            candle: Candlestick {
                meta: PlotMeta::empty(),
                candles: Vec::new(),
                up_color: Color::rgb(0x3e4c_cccd, 0x3f4c_cccd, 0x3e99_999a),
                down_color: Color::rgb(0x3f66_6666, 0x3e4c_cccd, 0x3e4c_cccd),
                x_label: None,
                y_label: None,
            },
        }
    }

    /// Sets the candles from `(x, open, high, low, close)` tuples.
    pub fn data(self, candles: Vec<(Scalar, Scalar, Scalar, Scalar, Scalar)>) -> (r: Self)
        ensures
            r.candle().candles@.len() == candles@.len(),
            forall|i: int|
                0 <= i < candles@.len() ==> #[trigger] r.candle().candles@[i] == (OHLC {
                    x: candles@[i].0,
                    open: candles@[i].1,
                    high: candles@[i].2,
                    low: candles@[i].3,
                    close: candles@[i].4,
                }),
            r.candle() == (Candlestick { candles: r.candle().candles, ..self.candle() }),
    {
        let mut out: Vec<OHLC> = Vec::new();
        let n = candles.len();
        let mut i: usize = 0;
        while i < n
            invariant
                n == candles@.len(),
                i <= n,
                out@.len() == i,
                forall|k: int|
                    0 <= k < i ==> #[trigger] out@[k] == (OHLC {
                        x: candles@[k].0,
                        open: candles@[k].1,
                        high: candles@[k].2,
                        low: candles@[k].3,
                        close: candles@[k].4,
                    }),
            decreases n - i,
        {
            let (x, o, h, l, c) = candles[i];
            out.push(OHLC::new(x, o, h, l, c));
            i = i + 1;
        }
        let mut b = self;
        b.candle.candles = out;
        b
    }

    /// Sets the candles.
    pub fn ohlc(self, candles: Vec<OHLC>) -> (r: Self)
        ensures
            r.candle() == (Candlestick { candles, ..self.candle() }),
    {
        let mut b = self;
        b.candle.candles = candles;
        b
    }

    /// Sets the colour of rising candles.
    pub fn up_color(self, c: Color) -> (r: Self)
        ensures
            r.candle() == (Candlestick { up_color: c, ..self.candle() }),
    {
        let mut b = self;
        b.candle.up_color = c;
        b
    }

    /// Sets the colour of falling candles.
    pub fn down_color(self, c: Color) -> (r: Self)
        ensures
            r.candle() == (Candlestick { down_color: c, ..self.candle() }),
    {
        let mut b = self;
        b.candle.down_color = c;
        b
    }

    /// Sets the x-axis label.
    pub fn x_label<S: Into<String>>(self, label: S) -> (r: Self)
        ensures
            r.candle().x_label matches Some(s) && call_ensures(S::into, (label,), s),
            r.candle() == (Candlestick { x_label: r.candle().x_label, ..self.candle() }),
    {
        let mut b = self;
        b.candle.x_label = Some(label.into());
        b
    }

    /// Sets the y-axis label.
    pub fn y_label<S: Into<String>>(self, label: S) -> (r: Self)
        ensures
            r.candle().y_label matches Some(s) && call_ensures(S::into, (label,), s),
            r.candle() == (Candlestick { y_label: r.candle().y_label, ..self.candle() }),
    {
        let mut b = self;
        b.candle.y_label = Some(label.into());
        b
    }

    /// Sets the title.
    pub fn title<S: Into<String>>(self, title: S) -> (r: Self)
        ensures
            r.candle().meta.title matches Some(s) && call_ensures(S::into, (title,), s),
            r.candle().meta.description == self.candle().meta.description,
            r.candle() == (Candlestick { meta: r.candle().meta, ..self.candle() }),
    {
        let mut b = self;
        b.candle.meta.title = Some(title.into());
        b
    }

    /// Sets the description.
    pub fn description<S: Into<String>>(self, desc: S) -> (r: Self)
        ensures
            r.candle().meta.description matches Some(s) && call_ensures(S::into, (desc,), s),
            r.candle().meta.title == self.candle().meta.title,
            r.candle() == (Candlestick { meta: r.candle().meta, ..self.candle() }),
    {
        let mut b = self;
        b.candle.meta.description = Some(desc.into());
        b
    }
}

/// Configures a heatmap.
pub struct HeatmapBuilder {
    heatmap: Heatmap,
}

/// All the rows of `data`, one after another.
pub open spec fn flatten_rows(data: Seq<Vec<Scalar>>) -> Seq<Scalar>
    decreases data.len(),
{
    if data.len() == 0 {
        Seq::empty()
    } else {
        flatten_rows(data.drop_last()) + data.last()@
    }
}

/// Flattening keeps the rows in order: the rows of two tables one after the other
/// flatten to the first's values followed by the second's, and one row flattens to
/// its own values.
pub proof fn law_flatten_rows(a: Seq<Vec<Scalar>>, b: Seq<Vec<Scalar>>, row: Vec<Scalar>)
    ensures
        flatten_rows(a + b) == flatten_rows(a) + flatten_rows(b),
        flatten_rows(seq![row]) == row@,
    decreases b.len(),
{
    if b.len() > 0 {
        law_flatten_rows(a, b.drop_last(), row);
        assert((a + b).drop_last() =~= a + b.drop_last());
        assert(flatten_rows(a + b) =~= flatten_rows(a) + flatten_rows(b));
    } else {
        assert(a + b =~= a);
        assert(flatten_rows(a + b) =~= flatten_rows(a) + flatten_rows(b));
    }
    assert(seq![row].drop_last() =~= Seq::<Vec<Scalar>>::empty());
    assert(flatten_rows(Seq::<Vec<Scalar>>::empty()) =~= Seq::<Scalar>::empty());
    assert(seq![row].last() == row);
    assert(flatten_rows(seq![row]) =~= row@);
}

impl HeatmapBuilder {
    /// The heatmap configured so far.
    pub closed spec fn heatmap(&self) -> Heatmap {
        self.heatmap
    }

    /// No cells, no metadata or labels, automatic range, values hidden, default
    /// colour scale.
    pub open spec fn is_fresh(&self) -> bool {
        &&& self.heatmap().meta.is_empty()
        &&& self.heatmap().dims == GridSize { x: 0, y: 0 }
        &&& self.heatmap().values@.len() == 0
        &&& self.heatmap().vmin is None
        &&& self.heatmap().vmax is None
        &&& self.heatmap().row_labels is None
        &&& self.heatmap().col_labels is None
        &&& !self.heatmap().show_values
        &&& self.heatmap().colormap == Colormap::Viridis
    }

    fn new() -> (b: Self)
        ensures
            b.is_fresh(),
    {
        HeatmapBuilder {
            heatmap: Heatmap {
                meta: PlotMeta::empty(),
                dims: GridSize { x: 0, y: 0 },
                values: Vec::new(),
                vmin: None,
                vmax: None,
                row_labels: None,
                col_labels: None,
                show_values: false,
                colormap: Colormap::default(),
            },
        }
    }

    /// Sets row-major values for `rows` rows of `cols` columns (each count kept
    /// modulo 2^32, as the grid stores it).
    pub fn data(self, rows: usize, cols: usize, values: Vec<Scalar>) -> (r: Self)
        ensures
            r.heatmap() == (Heatmap {
                dims: GridSize { x: cols as u32, y: rows as u32 },
                values,
                ..self.heatmap()
            }),
    {
        let mut b = self;
        b.heatmap.dims = GridSize { x: cols as u32, y: rows as u32 };
        b.heatmap.values = values;
        b
    }

    /// Sets the values from rows of values: as many rows as given, as many columns
    /// as the first row has.
    pub fn from_2d(self, data: Vec<Vec<Scalar>>) -> (r: Self)
        ensures
            r.heatmap().dims == (GridSize {
                x: (if data@.len() == 0 {
                    0
                } else {
                    data@[0]@.len()
                }) as u32,
                y: data@.len() as u32,
            }),
            r.heatmap().values@ == flatten_rows(data@),
            r.heatmap() == (Heatmap {
                dims: r.heatmap().dims,
                values: r.heatmap().values,
                ..self.heatmap()
            }),
    {
        let rows = data.len();
        let cols = if rows == 0 {
            0
        } else {
            data[0].len()
        };
        let mut values: Vec<Scalar> = Vec::new();
        let mut i: usize = 0;
        while i < rows
            invariant
                rows == data@.len(),
                i <= rows,
                values@ == flatten_rows(data@.take(i as int)),
            decreases rows - i,
        {
            let row = &data[i];
            let m = row.len();
            let ghost start = values@;
            let mut j: usize = 0;
            while j < m
                invariant
                    rows == data@.len(),
                    i < rows,
                    m == data@[i as int]@.len(),
                    j <= m,
                    *row == data@[i as int],
                    values@ == start + data@[i as int]@.take(j as int),
                decreases m - j,
            {
                values.push(row[j]);
                assert(data@[i as int]@.take(j + 1) =~= data@[i as int]@.take(j as int).push(
                    data@[i as int]@[j as int],
                ));
                j = j + 1;
            }
            assert(data@[i as int]@.take(m as int) =~= data@[i as int]@);
            assert(data@.take(i + 1).drop_last() =~= data@.take(i as int));
            i = i + 1;
        }
        assert(data@.take(rows as int) =~= data@);
        let mut b = self;
        b.heatmap.dims = GridSize { x: cols as u32, y: rows as u32 };
        b.heatmap.values = values;
        b
    }

    /// Fixes the value shown at the bottom of the colour scale.
    pub fn vmin(self, v: Scalar) -> (r: Self)
        ensures
            r.heatmap() == (Heatmap { vmin: Some(v), ..self.heatmap() }),
    {
        let mut b = self;
        b.heatmap.vmin = Some(v);
        b
    }

    /// Fixes the value shown at the top of the colour scale.
    pub fn vmax(self, v: Scalar) -> (r: Self)
        ensures
            r.heatmap() == (Heatmap { vmax: Some(v), ..self.heatmap() }),
    {
        let mut b = self;
        b.heatmap.vmax = Some(v);
        b
    }

    /// Sets the row labels, top row first.
    pub fn row_labels<S: Into<String>>(self, labels: Vec<S>) -> (r: Self)
        ensures
            r.heatmap().row_labels matches Some(v) && converted(labels@, v@),
            r.heatmap() == (Heatmap { row_labels: r.heatmap().row_labels, ..self.heatmap() }),
    {
        let v = strings_from(labels);
        let mut b = self;
        b.heatmap.row_labels = Some(v);
        b
    }

    /// Sets the column labels, left column first.
    pub fn col_labels<S: Into<String>>(self, labels: Vec<S>) -> (r: Self)
        ensures
            r.heatmap().col_labels matches Some(v) && converted(labels@, v@),
            r.heatmap() == (Heatmap { col_labels: r.heatmap().col_labels, ..self.heatmap() }),
    {
        let v = strings_from(labels);
        let mut b = self;
        b.heatmap.col_labels = Some(v);
        b
    }

    /// Whether each cell shows its value.
    pub fn show_values(self, show: bool) -> (r: Self)
        ensures
            r.heatmap() == (Heatmap { show_values: show, ..self.heatmap() }),
    {
        let mut b = self;
        b.heatmap.show_values = show;
        b
    }

    /// Sets the colour scale.
    pub fn colormap(self, cm: Colormap) -> (r: Self)
        ensures
            r.heatmap() == (Heatmap { colormap: cm, ..self.heatmap() }),
    {
        let mut b = self;
        b.heatmap.colormap = cm;
        b
    }

    /// Sets the title.
    pub fn title<S: Into<String>>(self, title: S) -> (r: Self)
        ensures
            r.heatmap().meta.title matches Some(s) && call_ensures(S::into, (title,), s),
            r.heatmap().meta.description == self.heatmap().meta.description,
            r.heatmap() == (Heatmap { meta: r.heatmap().meta, ..self.heatmap() }),
    {
        let mut b = self;
        b.heatmap.meta.title = Some(title.into());
        b
    }

    /// Sets the description.
    pub fn description<S: Into<String>>(self, desc: S) -> (r: Self)
        ensures
            r.heatmap().meta.description matches Some(s) && call_ensures(S::into, (desc,), s),
            r.heatmap().meta.title == self.heatmap().meta.title,
            r.heatmap() == (Heatmap { meta: r.heatmap().meta, ..self.heatmap() }),
    {
        let mut b = self;
        b.heatmap.meta.description = Some(desc.into());
        b
    }
}

} // verus!
