//! The dashboard data model: plots, layers, styles and the dashboard itself.
//!
//! Every coordinate, value, size or colour channel is carried as a `Scalar`:
//! the 32-bit IEEE 754 binary32 encoding of the number. The model only stores and
//! moves these numbers; the rendering layer decodes them.
use vstd::prelude::*;
use vstd::std_specs::cmp::PartialEqSpecImpl;

verus! {

/// A number in its IEEE 754 binary32 encoding (sign, exponent, mantissa bits).
pub type Scalar = u32;

/// A number in its IEEE 754 binary64 encoding.
pub type Scalar64 = u64;

/// Encoding of 0.0.
pub const ZERO: Scalar = 0x0000_0000u32;

/// Encoding of 1.0.
pub const ONE: Scalar = 0x3f80_0000u32;

/// Encoding of 2.0.
pub const TWO: Scalar = 0x4000_0000u32;

/// `x` encodes a NaN: every exponent bit set and a non-zero mantissa.
pub open spec fn is_nan(x: Scalar) -> bool {
    (x & 0x7fff_ffffu32) > 0x7f80_0000u32
}

/// `a` and `b` encode numbers that compare equal as floating-point numbers: neither
/// is a NaN, and they are the same encoding or both are zero (+0.0 and -0.0).
pub open spec fn same_number(a: Scalar, b: Scalar) -> bool {
    &&& !is_nan(a)
    &&& !is_nan(b)
    &&& (a == b || ((a & 0x7fff_ffffu32) == 0 && (b & 0x7fff_ffffu32) == 0))
}

/// Whether two encoded numbers compare equal as floating-point numbers.
pub fn numbers_equal(a: Scalar, b: Scalar) -> (r: bool)
    ensures
        r == same_number(a, b),
{
    let ma = a & 0x7fff_ffffu32;
    let mb = b & 0x7fff_ffffu32;
    ma <= 0x7f80_0000u32 && mb <= 0x7f80_0000u32 && (a == b || (ma == 0 && mb == 0))
}

/// An RGBA colour; each channel is a `Scalar`.
#[derive(Clone, Copy, Debug)]
pub struct Color {
    pub r: Scalar,
    pub g: Scalar,
    pub b: Scalar,
    pub a: Scalar,
}

/// Channel by channel, as floating-point numbers compare.
pub open spec fn same_color(a: Color, b: Color) -> bool {
    same_number(a.r, b.r) && same_number(a.g, b.g) && same_number(a.b, b.b) && same_number(a.a, b.a)
}

impl PartialEq for Color {
    fn eq(&self, other: &Self) -> (r: bool) {
        numbers_equal(self.r, other.r) && numbers_equal(self.g, other.g) && numbers_equal(self.b, other.b) && numbers_equal(self.a, other.a)
    }
}

impl PartialEqSpecImpl for Color {
    open spec fn obeys_eq_spec() -> bool {
        true
    }

    open spec fn eq_spec(&self, other: &Self) -> bool {
        same_color(*self, *other)
    }
}

impl Color {
    /// A colour from four channels.
    pub fn rgba(r: Scalar, g: Scalar, b: Scalar, a: Scalar) -> (c: Self)
        ensures
            c == (Color { r, g, b, a }),
    {
        Color { r, g, b, a }
    }

    /// An opaque colour (alpha 1.0).
    pub fn rgb(r: Scalar, g: Scalar, b: Scalar) -> (c: Self)
        ensures
            c == (Color { r, g, b, a: ONE }),
    {
        Color { r, g, b, a: ONE }
    }

    /// The same colour with another alpha channel.
    pub fn with_a(self, a: Scalar) -> (c: Self)
        ensures
            c == (Color { a, ..self }),
    {
        Color { a, ..self }
    }

    /// Opaque black.
    pub fn black() -> (c: Self)
        ensures
            c == (Color { r: ZERO, g: ZERO, b: ZERO, a: ONE }),
    {
        Color::rgb(ZERO, ZERO, ZERO)
    }

    /// Opaque white.
    pub fn white() -> (c: Self)
        ensures
            c == (Color { r: ONE, g: ONE, b: ONE, a: ONE }),
    {
        Color::rgb(ONE, ONE, ONE)
    }

    /// Opaque red.
    pub fn red() -> (c: Self)
        ensures
            c == (Color { r: ONE, g: ZERO, b: ZERO, a: ONE }),
    {
        Color::rgb(ONE, ZERO, ZERO)
    }

    /// Opaque green.
    pub fn green() -> (c: Self)
        ensures
            c == (Color { r: ZERO, g: ONE, b: ZERO, a: ONE }),
    {
        Color::rgb(ZERO, ONE, ZERO)
    }

    /// Opaque blue.
    pub fn blue() -> (c: Self)
        ensures
            c == (Color { r: ZERO, g: ZERO, b: ONE, a: ONE }),
    {
        Color::rgb(ZERO, ZERO, ONE)
    }

    /// Opaque yellow.
    pub fn yellow() -> (c: Self)
        ensures
            c == (Color { r: ONE, g: ONE, b: ZERO, a: ONE }),
    {
        Color::rgb(ONE, ONE, ZERO)
    }
}

/// How a layer is drawn: colour, line width or point size, and opacity.
#[derive(Clone, Copy, Debug)]
pub struct Style {
    pub color: Color,
    pub size: Scalar,
    pub opacity: Scalar,
}

/// Colour, size and opacity, as floating-point numbers compare.
pub open spec fn same_style(a: Style, b: Style) -> bool {
    same_color(a.color, b.color) && same_number(a.size, b.size) && same_number(a.opacity, b.opacity)
}

impl PartialEq for Style {
    fn eq(&self, other: &Self) -> (r: bool) {
        self.color == other.color && numbers_equal(self.size, other.size) && numbers_equal(self.opacity, other.opacity)
    }
}

impl PartialEqSpecImpl for Style {
    open spec fn obeys_eq_spec() -> bool {
        true
    }

    open spec fn eq_spec(&self, other: &Self) -> bool {
        same_style(*self, *other)
    }
}

/// The default style: black, size 2.0, opacity 1.0.
pub open spec fn default_style() -> Style {
    Style { color: Color { r: ZERO, g: ZERO, b: ZERO, a: ONE }, size: TWO, opacity: ONE }
}

impl Default for Style {
    fn default() -> (s: Self)
        ensures
            s == default_style(),
    {
        Style { color: Color::black(), size: TWO, opacity: ONE }
    }
}

impl Style {
    /// The same style with another colour.
    pub fn color(self, c: Color) -> (s: Self)
        ensures
            s == (Style { color: c, ..self }),
    {
        let mut s = self;
        s.color = c;
        s
    }

    /// The same style with an opaque colour.
    pub fn rgb(self, r: Scalar, g: Scalar, b: Scalar) -> (s: Self)
        ensures
            s == (Style { color: Color { r, g, b, a: ONE }, ..self }),
    {
        self.color(Color::rgb(r, g, b))
    }

    /// The same style with a colour of four channels.
    pub fn rgba(self, r: Scalar, g: Scalar, b: Scalar, a: Scalar) -> (s: Self)
        ensures
            s == (Style { color: Color { r, g, b, a }, ..self }),
    {
        self.color(Color::rgba(r, g, b, a))
    }
}

/// Axis scale of a 2D graph.
#[derive(Clone, Copy, Debug, PartialEq, Eq, Structural)]
pub enum Scale {
    Linear,
    Log10,
    Symlog { lin_thresh: Scalar64 },
    Power { exponent: Scalar64 },
    Time,
    Categorical,
}

impl Default for Scale {
    fn default() -> (s: Self)
        ensures
            s == Scale::Linear,
    {
        Scale::Linear
    }
}

/// Which gestures a plot answers to.
#[derive(Clone, Copy, Debug, PartialEq, Eq, Structural)]
pub struct Interaction {
    pub pan: bool,
    pub zoom: bool,
    pub rotate: bool,
}

impl Default for Interaction {
    fn default() -> (i: Self)
        ensures
            i == (Interaction { pan: true, zoom: true, rotate: true }),
    {
        Interaction { pan: true, zoom: true, rotate: true }
    }
}

/// Identity of a plot, used to find it again when streaming updates.
#[derive(Clone, Copy, Debug, PartialEq, Eq, Hash, Structural)]
pub struct PlotId(pub u64);

/// A 2D point.
#[derive(Clone, Copy, Debug)]
pub struct Point2 {
    pub x: Scalar,
    pub y: Scalar,
}

/// Coordinate by coordinate, as floating-point numbers compare.
pub open spec fn same_point2(a: Point2, b: Point2) -> bool {
    same_number(a.x, b.x) && same_number(a.y, b.y)
}

impl PartialEq for Point2 {
    fn eq(&self, other: &Self) -> (r: bool) {
        numbers_equal(self.x, other.x) && numbers_equal(self.y, other.y)
    }
}

impl PartialEqSpecImpl for Point2 {
    open spec fn obeys_eq_spec() -> bool {
        true
    }

    open spec fn eq_spec(&self, other: &Self) -> bool {
        same_point2(*self, *other)
    }
}

/// A 3D point.
#[derive(Clone, Copy, Debug)]
pub struct Point3 {
    pub x: Scalar,
    pub y: Scalar,
    pub z: Scalar,
}

/// Coordinate by coordinate, as floating-point numbers compare.
pub open spec fn same_point3(a: Point3, b: Point3) -> bool {
    same_number(a.x, b.x) && same_number(a.y, b.y) && same_number(a.z, b.z)
}

impl PartialEq for Point3 {
    fn eq(&self, other: &Self) -> (r: bool) {
        numbers_equal(self.x, other.x) && numbers_equal(self.y, other.y) && numbers_equal(self.z, other.z)
    }
}

impl PartialEqSpecImpl for Point3 {
    open spec fn obeys_eq_spec() -> bool {
        true
    }

    open spec fn eq_spec(&self, other: &Self) -> bool {
        same_point3(*self, *other)
    }
}

/// Integer grid dimensions: `x` columns by `y` rows.
#[derive(Clone, Copy, Debug, PartialEq, Eq, Structural)]
pub struct GridSize {
    pub x: u32,
    pub y: u32,
}

/// Title and description shown above a plot.
#[derive(Clone, Debug)]
pub struct PlotMeta {
    pub title: Option<String>,
    pub description: Option<String>,
}

impl PlotMeta {
    /// No title and no description.
    pub open spec fn is_empty(self) -> bool {
        self.title is None && self.description is None
    }

    /// The empty metadata.
    pub fn empty() -> (m: Self)
        ensures
            m.is_empty(),
    {
        PlotMeta { title: None, description: None }
    }
}

impl Default for PlotMeta {
    fn default() -> (m: Self)
        ensures
            m.is_empty(),
    {
        PlotMeta::empty()
    }
}

/// How the points of a 2D layer are drawn.
#[derive(Clone, Copy, Debug, PartialEq, Eq, Structural)]
pub enum Geometry2D {
    Line,
    Points,
    Area,
    /// Interpret each point as (x, height).
    Bars,
    /// Vertical from the baseline to y.
    Stems,
    /// The region between `xy` and the layer's lower line.
    FillBetween,
}

/// One drawn series of a 2D graph.
#[derive(Clone, Debug)]
pub struct Layer2D {
    pub geometry: Geometry2D,
    pub xy: Vec<Point2>,
    pub style: Style,
    /// Per-point sizes (bubble charts).
    pub sizes: Option<Vec<Scalar>>,
    /// The lower boundary of a fill-between layer.
    pub lower_line: Option<Vec<Point2>>,
}

impl Layer2D {
    /// A layer with the default style and no sizes or lower line.
    pub fn new(geometry: Geometry2D, xy: Vec<Point2>) -> (l: Self)
        ensures
            l == (Layer2D { geometry, xy, style: default_style(), sizes: None, lower_line: None }),
    {
        Layer2D { geometry, xy, style: Style::default(), sizes: None, lower_line: None }
    }
}

/// A 2D graph made of layers.
#[derive(Clone, Debug)]
pub struct Graph2D {
    pub id: PlotId,
    pub meta: PlotMeta,
    pub layers: Vec<Layer2D>,
    pub x_scale: Scale,
    pub y_scale: Scale,
    pub interaction: Interaction,
    pub x_label: Option<String>,
    pub y_label: Option<String>,
}

impl Graph2D {
    /// A graph without layers, labels or metadata, with linear scales.
    pub open spec fn is_fresh(self, id: PlotId) -> bool {
        &&& self.id == id
        &&& self.meta.is_empty()
        &&& self.layers@.len() == 0
        &&& self.x_scale == Scale::Linear
        &&& self.y_scale == Scale::Linear
        &&& self.interaction == (Interaction { pan: true, zoom: true, rotate: true })
        &&& self.x_label is None
        &&& self.y_label is None
    }

    /// An empty graph with the given identity.
    pub fn new(id: PlotId) -> (g: Self)
        ensures
            g.is_fresh(id),
    {
        Graph2D {
            id,
            meta: PlotMeta::empty(),
            layers: Vec::new(),
            x_scale: Scale::default(),
            y_scale: Scale::default(),
            interaction: Interaction::default(),
            x_label: None,
            y_label: None,
        }
    }

    /// The same graph with one more layer on top.
    pub fn with_layer(self, layer: Layer2D) -> (g: Self)
        ensures
            g.layers@ == self.layers@.push(layer),
            g == (Graph2D { layers: g.layers, ..self }),
    {
        let mut g = self;
        g.layers.push(layer);
        g
    }
}

/// How the points of a 3D layer are drawn.
#[derive(Clone, Copy, Debug, PartialEq, Eq, Structural)]
pub enum Geometry3D {
    Points,
    /// A surface over a grid of `grid.x` by `grid.y` points, row-major.
    Surface { grid: GridSize },
}

/// One drawn series of a 3D graph.
#[derive(Clone, Debug)]
pub struct Layer3D {
    pub geometry: Geometry3D,
    pub xyz: Vec<Point3>,
    pub style: Style,
}

/// A 3D graph made of layers.
#[derive(Clone, Debug)]
pub struct Graph3D {
    pub id: PlotId,
    pub meta: PlotMeta,
    pub layers: Vec<Layer3D>,
    pub interaction: Interaction,
    pub x_label: Option<String>,
    pub y_label: Option<String>,
    pub z_label: Option<String>,
}

impl Graph3D {
    /// A graph without layers, labels or metadata.
    pub open spec fn is_fresh(self, id: PlotId) -> bool {
        &&& self.id == id
        &&& self.meta.is_empty()
        &&& self.layers@.len() == 0
        &&& self.interaction == (Interaction { pan: true, zoom: true, rotate: true })
        &&& self.x_label is None
        &&& self.y_label is None
        &&& self.z_label is None
    }

    /// An empty graph with the given identity; it rotates.
    pub fn new(id: PlotId) -> (g: Self)
        ensures
            g.is_fresh(id),
    {
        let base = Interaction::default();
        Graph3D {
            id,
            meta: PlotMeta::empty(),
            layers: Vec::new(),
            interaction: Interaction { rotate: true, ..base },
            x_label: None,
            y_label: None,
            z_label: None,
        }
    }
}

/// Statistical plots of one or more samples.
#[derive(Clone, Debug)]
pub enum Distribution {
    Histogram {
        meta: PlotMeta,
        values: Vec<Scalar>,
        bins: usize,
        style: Style,
        x_label: Option<String>,
        y_label: Option<String>,
    },
    /// Kernel density estimate.
    Pdf {
        meta: PlotMeta,
        values: Vec<Scalar>,
        style: Style,
        x_label: Option<String>,
        y_label: Option<String>,
    },
    BoxPlot {
        meta: PlotMeta,
        groups: Vec<(String, Vec<Scalar>)>,
        style: Style,
        x_label: Option<String>,
        y_label: Option<String>,
    },
    /// Empirical cumulative distribution function.
    ECDF {
        meta: PlotMeta,
        values: Vec<Scalar>,
        style: Style,
        x_label: Option<String>,
        y_label: Option<String>,
    },
}

impl Distribution {
    /// The metadata of whichever kind this is.
    pub open spec fn meta_of(self) -> PlotMeta {
        match self {
            Distribution::Histogram { meta, .. } => meta,
            Distribution::Pdf { meta, .. } => meta,
            Distribution::BoxPlot { meta, .. } => meta,
            Distribution::ECDF { meta, .. } => meta,
        }
    }

    /// The style of whichever kind this is.
    pub open spec fn style_of(self) -> Style {
        match self {
            Distribution::Histogram { style, .. } => style,
            Distribution::Pdf { style, .. } => style,
            Distribution::BoxPlot { style, .. } => style,
            Distribution::ECDF { style, .. } => style,
        }
    }

    /// The x-axis label of whichever kind this is.
    pub open spec fn x_label_of(self) -> Option<String> {
        match self {
            Distribution::Histogram { x_label, .. } => x_label,
            Distribution::Pdf { x_label, .. } => x_label,
            Distribution::BoxPlot { x_label, .. } => x_label,
            Distribution::ECDF { x_label, .. } => x_label,
        }
    }

    /// The y-axis label of whichever kind this is.
    pub open spec fn y_label_of(self) -> Option<String> {
        match self {
            Distribution::Histogram { y_label, .. } => y_label,
            Distribution::Pdf { y_label, .. } => y_label,
            Distribution::BoxPlot { y_label, .. } => y_label,
            Distribution::ECDF { y_label, .. } => y_label,
        }
    }

    /// The same kind and data.
    pub open spec fn same_data(self, other: Distribution) -> bool {
        match (self, other) {
            (
                Distribution::Histogram { values: a, bins: b1, .. },
                Distribution::Histogram { values: c, bins: b2, .. },
            ) => a@ == c@ && b1 == b2,
            (Distribution::Pdf { values: a, .. }, Distribution::Pdf { values: c, .. }) => a@
                == c@,
            (Distribution::BoxPlot { groups: a, .. }, Distribution::BoxPlot { groups: c, .. }) => a@
                == c@,
            (Distribution::ECDF { values: a, .. }, Distribution::ECDF { values: c, .. }) => a@
                == c@,
            _ => false,
        }
    }
}

/// A scalar field (heatmap-like image).
#[derive(Clone, Debug)]
pub struct Field {
    pub meta: PlotMeta,
    pub dims: GridSize,
    /// `dims.x * dims.y` values, row-major.
    pub values: Vec<Scalar>,
    pub vmin: Scalar,
    pub vmax: Scalar,
}

/// Radial charts.
#[derive(Clone, Debug)]
pub enum Radial {
    /// Labelled slices.
    Pie { meta: PlotMeta, slices: Vec<(String, Scalar)> },
    /// One value per named axis, each in [0, 1].
    Radar { meta: PlotMeta, axes: Vec<String>, values: Vec<Scalar>, style: Style },
}

impl Radial {
    /// The metadata of whichever kind this is.
    pub open spec fn meta_of(self) -> PlotMeta {
        match self {
            Radial::Pie { meta, .. } => meta,
            Radial::Radar { meta, .. } => meta,
        }
    }

    /// The same kind, data and style.
    pub open spec fn same_data(self, other: Radial) -> bool {
        match (self, other) {
            (Radial::Pie { slices: a, .. }, Radial::Pie { slices: b, .. }) => a@ == b@,
            (
                Radial::Radar { axes: a, values: v, style: s, .. },
                Radial::Radar { axes: b, values: w, style: t, .. },
            ) => a@ == b@ && v@ == w@ && s == t,
            _ => false,
        }
    }
}

/// Kinds of radial plot named by the plot grammar.
#[derive(Clone, Copy, Debug, PartialEq, Eq, Structural)]
pub enum RadialKind {
    Pie,
    Donut,
    Radar,
    PolarPoints,
    PolarLine,
}

/// One open-high-low-close candle at position `x`.
#[derive(Clone, Copy, Debug)]
pub struct OHLC {
    pub x: Scalar,
    pub open: Scalar,
    pub high: Scalar,
    pub low: Scalar,
    pub close: Scalar,
}

/// Field by field, as floating-point numbers compare.
pub open spec fn same_candle(a: OHLC, b: OHLC) -> bool {
    same_number(a.x, b.x) && same_number(a.open, b.open) && same_number(a.high, b.high) && same_number(a.low, b.low) && same_number(a.close, b.close)
}

impl PartialEq for OHLC {
    fn eq(&self, other: &Self) -> (r: bool) {
        numbers_equal(self.x, other.x) && numbers_equal(self.open, other.open) && numbers_equal(self.high, other.high) && numbers_equal(self.low, other.low) && numbers_equal(self.close, other.close)
    }
}

impl PartialEqSpecImpl for OHLC {
    open spec fn obeys_eq_spec() -> bool {
        true
    }

    open spec fn eq_spec(&self, other: &Self) -> bool {
        same_candle(*self, *other)
    }
}

impl OHLC {
    /// A candle from its five numbers.
    pub fn new(x: Scalar, open: Scalar, high: Scalar, low: Scalar, close: Scalar) -> (c: Self)
        ensures
            c == (OHLC { x, open, high, low, close }),
    {
        OHLC { x, open, high, low, close }
    }
}

/// A candlestick chart.
#[derive(Clone, Debug)]
pub struct Candlestick {
    pub meta: PlotMeta,
    pub candles: Vec<OHLC>,
    pub up_color: Color,
    pub down_color: Color,
    pub x_label: Option<String>,
    pub y_label: Option<String>,
}

/// Colour scales for heatmaps.
#[derive(Clone, Copy, Debug, PartialEq, Eq, Structural)]
pub enum Colormap {
    Viridis,
    Coolwarm,
    Blues,
    Reds,
    Greys,
}

impl Default for Colormap {
    fn default() -> (c: Self)
        ensures
            c == Colormap::Viridis,
    {
        Colormap::Viridis
    }
}

/// A heatmap of `dims.y` rows and `dims.x` columns.
#[derive(Clone, Debug)]
pub struct Heatmap {
    pub meta: PlotMeta,
    pub dims: GridSize,
    /// Row-major values.
    pub values: Vec<Scalar>,
    pub vmin: Option<Scalar>,
    pub vmax: Option<Scalar>,
    pub row_labels: Option<Vec<String>>,
    pub col_labels: Option<Vec<String>>,
    pub show_values: bool,
    pub colormap: Colormap,
}

/// Any plot of a dashboard.
#[derive(Clone, Debug)]
pub enum Plot {
    Graph2D(Graph2D),
    Graph3D(Graph3D),
    Distribution(Distribution),
    Field(Field),
    Radial(Radial),
    Candlestick(Candlestick),
    Heatmap(Heatmap),
}

/// A named page of plots.
#[derive(Clone, Debug)]
pub struct Tab {
    pub name: String,
    pub plots: Vec<Plot>,
    /// Columns per row; `None` lays the tab out automatically.
    pub columns: Option<usize>,
}

impl Tab {
    /// An empty tab.
    pub fn new<S: Into<String>>(name: S) -> (t: Self)
        ensures
            call_ensures(S::into, (name,), t.name),
            t.plots@.len() == 0,
            t.columns is None,
    {
        Tab { name: name.into(), plots: Vec::new(), columns: None }
    }
}

/// A whole dashboard: background, plots and optional tabs.
#[derive(Clone, Debug)]
pub struct Dashboard {
    pub background: Color,
    /// The plots shown when the dashboard has no tabs.
    pub plots: Vec<Plot>,
    pub tabs: Vec<Tab>,
    /// Columns per row when the dashboard has no tabs.
    pub columns: Option<usize>,
    /// Index of the tab on show.
    pub active_tab: usize,
}

/// The default dashboard background, rgba(0.05, 0.05, 0.09, 1.0).
pub open spec fn default_background() -> Color {
    Color { r: 0x3d4c_cccdu32, g: 0x3d4c_cccdu32, b: 0x3db8_51ecu32, a: ONE }
}

impl Default for Dashboard {
    fn default() -> (d: Self)
        ensures
            d.background == default_background(),
            d.plots@.len() == 0,
            d.tabs@.len() == 0,
            d.columns is None,
            d.active_tab == 0,
    {
        Dashboard {
            background: Color::rgba(0x3d4c_cccd, 0x3d4c_cccd, 0x3db8_51ec, ONE),
            plots: Vec::new(),
            tabs: Vec::new(),
            columns: None,
            active_tab: 0,
        }
    }
}

impl Dashboard {
    /// The plots on show: the active tab's plots when there are tabs (none when the
    /// active index names no tab), else the dashboard's own plots.
    pub open spec fn active_plot_seq(self) -> Seq<Plot> {
        if self.tabs@.len() > 0 {
            if self.active_tab < self.tabs@.len() {
                self.tabs@[self.active_tab as int].plots@
            } else {
                Seq::empty()
            }
        } else {
            self.plots@
        }
    }

    /// The column setting in force: the active tab's when there are tabs, else the
    /// dashboard's.
    pub open spec fn active_columns_spec(self) -> Option<usize> {
        if self.tabs@.len() > 0 {
            if self.active_tab < self.tabs@.len() {
                self.tabs@[self.active_tab as int].columns
            } else {
                None
            }
        } else {
            self.columns
        }
    }

    /// Whether the dashboard is organised in tabs.
    pub fn has_tabs(&self) -> (r: bool)
        ensures
            r == (self.tabs@.len() > 0),
    {
        self.tabs.len() > 0
    }

    /// The plots on show.
    pub fn active_plots(&self) -> (r: &[Plot])
        ensures
            r@ == self.active_plot_seq(),
    {
        if self.tabs.len() > 0 {
            if self.active_tab < self.tabs.len() {
                self.tabs[self.active_tab].plots.as_slice()
            } else {
                &[]
            }
        } else {
            self.plots.as_slice()
        }
    }

    /// The column setting in force.
    pub fn active_columns(&self) -> (r: Option<usize>)
        ensures
            r == self.active_columns_spec(),
    {
        if self.tabs.len() > 0 {
            if self.active_tab < self.tabs.len() {
                self.tabs[self.active_tab].columns
            } else {
                None
            }
        } else {
            self.columns
        }
    }

    /// The names of the tabs, in order.
    pub fn tab_names(&self) -> (r: Vec<&str>)
        ensures
            r@.len() == self.tabs@.len(),
            forall|i: int| 0 <= i < r@.len() ==> r@[i]@ == #[trigger] self.tabs@[i].name@,
    {
        let mut names: Vec<&str> = Vec::new();
        let n = self.tabs.len();
        for i in 0..n
            invariant
                n == self.tabs@.len(),
                names@.len() == i,
                forall|k: int| 0 <= k < i ==> names@[k]@ == #[trigger] self.tabs@[k].name@,
        {
            names.push(self.tabs[i].name.as_str());
        }
        names
    }

    /// Shows the tab at `index` (the tab bar's click answer).
    pub fn select_tab(&mut self, index: usize)
        ensures
            final(self).active_tab == index,
            final(self).plots@ == old(self).plots@,
            final(self).tabs@ == old(self).tabs@,
            final(self).columns == old(self).columns,
            final(self).background == old(self).background,
    {
        if self.active_tab != index {
            self.active_tab = index;
        }
    }
}

/// A dashboard without tabs shows all its own plots with its own column setting;
/// one whose active index names no tab shows nothing.
pub proof fn law_plots_on_show(d: Dashboard)
    ensures
        d.tabs@.len() == 0 ==> d.active_plot_seq() == d.plots@ && d.active_columns_spec()
            == d.columns,
        d.tabs@.len() > 0 && d.active_tab >= d.tabs@.len() ==> d.active_plot_seq().len() == 0
            && d.active_columns_spec() is None,
{
}

/// Selecting a tab puts exactly that tab's plots and column setting on show.
pub proof fn law_selected_tab_on_show(d: Dashboard, index: usize)
    requires
        index < d.tabs@.len(),
    ensures
        (Dashboard { active_tab: index, ..d }).active_plot_seq() == d.tabs@[index as int].plots@,
        (Dashboard { active_tab: index, ..d }).active_columns_spec() == d.tabs@[
            index as int
        ].columns,
{
}

} // verus!
