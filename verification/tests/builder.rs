use vidi::dash::{dash, DEFAULT_BINS};
use vidi::model::{
    Color, Colormap, Distribution, Geometry2D, Geometry3D, Graph2D, GridSize, Layer2D, Plot,
    PlotId, Point2, Point3, Radial, Scalar, Style, OHLC,
};

fn s(v: f32) -> Scalar {
    v.to_bits()
}

fn p2(x: f32, y: f32) -> Point2 {
    Point2 { x: s(x), y: s(y) }
}

#[test]
fn fresh_dashboard_is_empty() {
    let d = dash().into_dashboard();
    assert!(d.plots.is_empty());
    assert!(d.tabs.is_empty());
    assert_eq!(d.columns, None);
    assert_eq!(d.active_tab, 0);
    assert_eq!(d.background, Color::rgba(s(0.05), s(0.05), s(0.09), s(1.0)));
    assert!(!d.has_tabs());
}

#[test]
fn columns_zero_reads_as_one() {
    let d = dash().columns(0).into_dashboard();
    assert_eq!(d.columns, Some(1));
    let d = dash().columns(3).into_dashboard();
    assert_eq!(d.columns, Some(3));
}

#[test]
fn background_color_is_kept() {
    let d = dash().background_color(Color::black()).into_dashboard();
    assert_eq!(d.background, Color::rgba(0, 0, 0, s(1.0)));
}

#[test]
fn line_with_labels_and_title() {
    let d = dash()
        .add_2d(|p| {
            p.line(vec![p2(0.0, 0.0), p2(1.0, 1.0)], None)
                .x_label("Time")
                .y_label("Amplitude")
                .title("Sine Wave")
        })
        .into_dashboard();
    assert_eq!(d.plots.len(), 1);
    match &d.plots[0] {
        Plot::Graph2D(g) => {
            assert_eq!(g.id, PlotId(1));
            assert_eq!(g.layers.len(), 1);
            assert_eq!(g.layers[0].geometry, Geometry2D::Line);
            assert_eq!(g.layers[0].xy, vec![p2(0.0, 0.0), p2(1.0, 1.0)]);
            assert_eq!(g.layers[0].style, Style::default());
            assert_eq!(g.x_label.as_deref(), Some("Time"));
            assert_eq!(g.y_label.as_deref(), Some("Amplitude"));
            assert_eq!(g.meta.title.as_deref(), Some("Sine Wave"));
            assert_eq!(g.meta.description, None);
        },
        _ => panic!("expected a 2D graph"),
    }
}

#[test]
fn default_style_values() {
    let st = Style::default();
    assert_eq!(st.color, Color::rgba(0, 0, 0, s(1.0)));
    assert_eq!(st.size, s(2.0));
    assert_eq!(st.opacity, s(1.0));
}

#[test]
fn scatter_and_line_layers_in_order() {
    let red = Style::default().color(Color::red());
    let blue = Style::default().color(Color::blue());
    let d = dash()
        .add_2d(|p| p.scatter(vec![p2(1.0, 2.0)], red).line(vec![p2(3.0, 4.0)], blue))
        .into_dashboard();
    match &d.plots[0] {
        Plot::Graph2D(g) => {
            assert_eq!(g.layers.len(), 2);
            assert_eq!(g.layers[0].geometry, Geometry2D::Points);
            assert_eq!(g.layers[0].style.color, Color::red());
            assert_eq!(g.layers[1].geometry, Geometry2D::Line);
            assert_eq!(g.layers[1].style.color, Color::blue());
        },
        _ => panic!("expected a 2D graph"),
    }
}

#[test]
fn bubble_and_fill_between_keep_their_extras() {
    let d = dash()
        .add_2d(|p| {
            p.bubble(vec![p2(0.0, 0.0), p2(1.0, 1.0)], vec![s(3.0), s(4.0)], None)
                .fill_between(vec![p2(0.0, 2.0)], vec![p2(0.0, 1.0)], None)
        })
        .into_dashboard();
    match &d.plots[0] {
        Plot::Graph2D(g) => {
            assert_eq!(g.layers[0].geometry, Geometry2D::Points);
            assert_eq!(g.layers[0].sizes, Some(vec![s(3.0), s(4.0)]));
            assert_eq!(g.layers[1].geometry, Geometry2D::FillBetween);
            assert_eq!(g.layers[1].xy, vec![p2(0.0, 2.0)]);
            assert_eq!(g.layers[1].lower_line, Some(vec![p2(0.0, 1.0)]));
        },
        _ => panic!("expected a 2D graph"),
    }
}

#[test]
fn graph_identities_count_up_across_tabs() {
    let d = dash()
        .add_2d(|p| p.line(vec![], None))
        .add_3d(|p| p)
        .add_tab("Overview", |t| t.add_2d(|p| p).add_2d(|p| p))
        .add_tab("Details", |t| t.add_3d(|p| p))
        .into_dashboard();
    let mut ids = Vec::new();
    for p in d.plots.iter().chain(d.tabs.iter().flat_map(|t| t.plots.iter())) {
        match p {
            Plot::Graph2D(g) => ids.push(g.id.0),
            Plot::Graph3D(g) => ids.push(g.id.0),
            _ => {},
        }
    }
    assert_eq!(ids, vec![1, 2, 3, 4, 5]);
}

#[test]
fn tabs_hold_their_plots_and_names() {
    let d = dash()
        .add_tab("Overview", |tab| {
            tab.add_2d(|p| p.line(vec![p2(0.0, 0.0)], None)).add_2d(|p| p.scatter(vec![], None))
        })
        .add_tab("Details", |tab| {
            tab.columns(0)
                .add_distribution(|dd| dd.histogram(vec![s(1.0), s(2.0)]))
                .add_heatmap(|h| h.from_2d(vec![vec![s(1.0), s(2.0)], vec![s(3.0), s(4.0)]]))
        })
        .into_dashboard();
    assert!(d.has_tabs());
    assert!(d.plots.is_empty());
    assert_eq!(d.tab_names(), vec!["Overview", "Details"]);
    assert_eq!(d.tabs[0].plots.len(), 2);
    assert_eq!(d.tabs[0].columns, None);
    assert_eq!(d.tabs[1].plots.len(), 2);
    assert_eq!(d.tabs[1].columns, Some(1));
    assert_eq!(d.active_plots().len(), 2);
    assert_eq!(d.active_columns(), None);
}

#[test]
fn select_tab_changes_what_is_on_show() {
    let mut d = dash()
        .add_tab("A", |t| t.add_2d(|p| p))
        .add_tab("B", |t| t.columns(2).add_2d(|p| p).add_2d(|p| p).add_2d(|p| p))
        .into_dashboard();
    assert_eq!(d.active_plots().len(), 1);
    d.select_tab(1);
    assert_eq!(d.active_tab, 1);
    assert_eq!(d.active_plots().len(), 3);
    assert_eq!(d.active_columns(), Some(2));
    d.select_tab(7);
    assert_eq!(d.active_plots().len(), 0);
    assert_eq!(d.active_columns(), None);
}

#[test]
fn active_plots_without_tabs_are_the_dashboard_plots() {
    let d = dash().columns(2).add_2d(|p| p).add_field(GridSize { x: 1, y: 1 }, vec![0], 0, 1)
        .into_dashboard();
    assert_eq!(d.active_plots().len(), 2);
    assert_eq!(d.active_columns(), Some(2));
}

#[test]
fn histogram_defaults_to_thirty_bins() {
    let d = dash().add_distribution(|dd| dd.histogram(vec![s(1.0)])).into_dashboard();
    match &d.plots[0] {
        Plot::Distribution(Distribution::Histogram { bins, values, .. }) => {
            assert_eq!(*bins, 30);
            assert_eq!(DEFAULT_BINS, 30);
            assert_eq!(values, &vec![s(1.0)]);
        },
        _ => panic!("expected a histogram"),
    }
}

#[test]
fn histogram_bins_and_style() {
    let green = Style::default().color(Color::green());
    let d = dash()
        .add_distribution(|dd| dd.histogram(vec![s(1.0), s(2.0)]).bins(12).style(green))
        .into_dashboard();
    match &d.plots[0] {
        Plot::Distribution(Distribution::Histogram { bins, style, .. }) => {
            assert_eq!(*bins, 12);
            assert_eq!(style.color, Color::green());
        },
        _ => panic!("expected a histogram"),
    }
}

#[test]
fn bins_on_other_kinds_changes_nothing() {
    let d = dash().add_distribution(|dd| dd.pdf(vec![s(1.0)]).bins(5)).into_dashboard();
    match &d.plots[0] {
        Plot::Distribution(Distribution::Pdf { values, .. }) => assert_eq!(values, &vec![s(1.0)]),
        _ => panic!("expected a density plot"),
    }
}

#[test]
fn boxplot_and_ecdf_labels() {
    let d = dash()
        .add_distribution(|dd| {
            dd.boxplot(vec![("a", vec![s(1.0)]), ("b", vec![s(2.0), s(3.0)])])
                .x_label("group")
                .title("Boxes")
                .description("two groups")
        })
        .add_distribution(|dd| dd.ecdf(vec![s(0.5)]).y_label("share"))
        .into_dashboard();
    match &d.plots[0] {
        Plot::Distribution(Distribution::BoxPlot { groups, x_label, meta, .. }) => {
            assert_eq!(groups.len(), 2);
            assert_eq!(groups[0].0, "a");
            assert_eq!(groups[1].1, vec![s(2.0), s(3.0)]);
            assert_eq!(x_label.as_deref(), Some("group"));
            assert_eq!(meta.title.as_deref(), Some("Boxes"));
            assert_eq!(meta.description.as_deref(), Some("two groups"));
        },
        _ => panic!("expected a box plot"),
    }
    match &d.plots[1] {
        Plot::Distribution(Distribution::ECDF { y_label, values, .. }) => {
            assert_eq!(y_label.as_deref(), Some("share"));
            assert_eq!(values, &vec![s(0.5)]);
        },
        _ => panic!("expected an ECDF"),
    }
}

#[test]
fn surface_records_its_grid() {
    let d = dash()
        .add_3d(|p| {
            p.surface(vec![Point3 { x: 0, y: 0, z: 0 }; 6], 3, 2, None)
                .title("3D Surface")
                .z_label("Z")
        })
        .into_dashboard();
    match &d.plots[0] {
        Plot::Graph3D(g) => {
            assert_eq!(g.id, PlotId(1));
            assert_eq!(g.layers.len(), 1);
            assert_eq!(g.layers[0].geometry, Geometry3D::Surface { grid: GridSize { x: 3, y: 2 } });
            assert_eq!(g.layers[0].xyz.len(), 6);
            assert_eq!(g.meta.title.as_deref(), Some("3D Surface"));
            assert_eq!(g.z_label.as_deref(), Some("Z"));
        },
        _ => panic!("expected a 3D graph"),
    }
}

#[test]
fn pie_and_radar() {
    let d = dash()
        .add_radial(|r| r.pie(vec![("x", s(1.0)), ("y", s(2.0))]).title("Share"))
        .add_radial(|r| r.radar(vec!["a", "b", "c"], vec![s(1.0), s(2.0), s(3.0)]))
        .into_dashboard();
    match &d.plots[0] {
        Plot::Radial(Radial::Pie { slices, meta }) => {
            assert_eq!(slices.len(), 2);
            assert_eq!(slices[1].0, "y");
            assert_eq!(slices[1].1, s(2.0));
            assert_eq!(meta.title.as_deref(), Some("Share"));
        },
        _ => panic!("expected a pie"),
    }
    match &d.plots[1] {
        Plot::Radial(Radial::Radar { axes, values, .. }) => {
            assert_eq!(axes, &vec!["a".to_string(), "b".to_string(), "c".to_string()]);
            assert_eq!(values.len(), 3);
        },
        _ => panic!("expected a radar chart"),
    }
}

#[test]
fn candlestick_defaults_and_setters() {
    let d = dash()
        .add_candlestick(|c| {
            c.data(vec![(s(0.0), s(1.0), s(2.0), s(0.5), s(1.5))])
                .x_label("day")
                .y_label("price")
                .title("Prices")
                .description("daily")
        })
        .into_dashboard();
    match &d.plots[0] {
        Plot::Candlestick(c) => {
            assert_eq!(c.candles, vec![OHLC::new(s(0.0), s(1.0), s(2.0), s(0.5), s(1.5))]);
            assert_eq!(c.up_color, Color::rgb(s(0.2), s(0.8), s(0.3)));
            assert_eq!(c.down_color, Color::rgb(s(0.9), s(0.2), s(0.2)));
            assert_eq!(c.x_label.as_deref(), Some("day"));
            assert_eq!(c.y_label.as_deref(), Some("price"));
            assert_eq!(c.meta.title.as_deref(), Some("Prices"));
            assert_eq!(c.meta.description.as_deref(), Some("daily"));
        },
        _ => panic!("expected a candlestick chart"),
    }
}

#[test]
fn candlestick_ohlc_and_colors() {
    let candles = vec![
        OHLC::new(s(1.0), s(2.0), s(3.0), s(1.0), s(2.5)),
        OHLC::new(s(2.0), s(2.5), s(2.6), s(2.0), s(2.1)),
    ];
    let d = dash()
        .add_tab("Market", |t| {
            t.add_candlestick(|c| {
                c.ohlc(candles.clone()).up_color(Color::white()).down_color(Color::yellow())
            })
        })
        .into_dashboard();
    match &d.tabs[0].plots[0] {
        Plot::Candlestick(c) => {
            assert_eq!(c.candles, candles);
            assert_eq!(c.up_color, Color::white());
            assert_eq!(c.down_color, Color::yellow());
        },
        _ => panic!("expected a candlestick chart"),
    }
}

#[test]
fn heatmap_from_rows() {
    let d = dash()
        .add_heatmap(|h| {
            h.from_2d(vec![vec![s(1.0), s(2.0), s(3.0)], vec![s(4.0), s(5.0), s(6.0)]])
                .row_labels(vec!["r0", "r1"])
                .col_labels(vec!["c0", "c1", "c2"])
                .show_values(true)
                .colormap(Colormap::Coolwarm)
                .title("Grid")
                .description("two by three")
        })
        .into_dashboard();
    match &d.plots[0] {
        Plot::Heatmap(h) => {
            assert_eq!(h.dims, GridSize { x: 3, y: 2 });
            assert_eq!(h.values, vec![s(1.0), s(2.0), s(3.0), s(4.0), s(5.0), s(6.0)]);
            assert_eq!(h.row_labels, Some(vec!["r0".to_string(), "r1".to_string()]));
            assert_eq!(h.col_labels.as_ref().map(|v| v.len()), Some(3));
            assert!(h.show_values);
            assert_eq!(h.colormap, Colormap::Coolwarm);
            assert_eq!(h.meta.title.as_deref(), Some("Grid"));
            assert_eq!(h.meta.description.as_deref(), Some("two by three"));
            assert_eq!(h.vmin, None);
            assert_eq!(h.vmax, None);
        },
        _ => panic!("expected a heatmap"),
    }
}

#[test]
fn heatmap_defaults_and_range() {
    let d = dash()
        .add_tab("H", |t| t.add_heatmap(|h| h.data(2, 2, vec![0; 4]).vmin(s(-1.0)).vmax(s(1.0))))
        .into_dashboard();
    match &d.tabs[0].plots[0] {
        Plot::Heatmap(h) => {
            assert_eq!(h.dims, GridSize { x: 2, y: 2 });
            assert_eq!(h.vmin, Some(s(-1.0)));
            assert_eq!(h.vmax, Some(s(1.0)));
            assert!(!h.show_values);
            assert_eq!(h.colormap, Colormap::Viridis);
            assert_eq!(Colormap::default(), Colormap::Viridis);
            assert_eq!(h.row_labels, None);
        },
        _ => panic!("expected a heatmap"),
    }
}

#[test]
fn heatmap_from_no_rows() {
    let d = dash().add_heatmap(|h| h.from_2d(vec![])).into_dashboard();
    match &d.plots[0] {
        Plot::Heatmap(h) => {
            assert_eq!(h.dims, GridSize { x: 0, y: 0 });
            assert!(h.values.is_empty());
        },
        _ => panic!("expected a heatmap"),
    }
}

#[test]
fn field_is_added_as_given() {
    let d = dash().add_field(GridSize { x: 2, y: 1 }, vec![s(1.0), s(2.0)], 0, s(2.0))
        .into_dashboard();
    match &d.plots[0] {
        Plot::Field(f) => {
            assert_eq!(f.dims, GridSize { x: 2, y: 1 });
            assert_eq!(f.values, vec![s(1.0), s(2.0)]);
            assert_eq!(f.vmax, s(2.0));
            assert_eq!(f.meta.title, None);
            assert_eq!(f.meta.description, None);
        },
        _ => panic!("expected a field"),
    }
}

#[test]
fn style_by_reference() {
    let red = Style::default().color(Color::red());
    let from_ref: Option<Style> = (&red).into();
    assert_eq!(from_ref, Some(red));
    let d = dash().add_2d(|p| p.scatter(vec![p2(1.0, 1.0)], &red)).into_dashboard();
    match &d.plots[0] {
        Plot::Graph2D(g) => assert_eq!(g.layers[0].style, red),
        _ => panic!("expected a 2D graph"),
    }
}

#[test]
fn radial_title_keeps_the_data() {
    let d = dash()
        .add_radial(|r| {
            r.radar(vec!["a", "b", "c"], vec![s(0.1), s(0.2), s(0.3)])
                .style(Style::default().color(Color::blue()))
                .title("Skills")
                .description("three axes")
        })
        .into_dashboard();
    match &d.plots[0] {
        Plot::Radial(Radial::Radar { meta, axes, values, style }) => {
            assert_eq!(meta.title.as_deref(), Some("Skills"));
            assert_eq!(meta.description.as_deref(), Some("three axes"));
            assert_eq!(axes.len(), 3);
            assert_eq!(values, &vec![s(0.1), s(0.2), s(0.3)]);
            assert_eq!(style.color, Color::blue());
        },
        _ => panic!("expected a radar chart"),
    }
}

#[test]
fn pie_ignores_style() {
    let d = dash()
        .add_radial(|r| r.pie(vec![("only", s(1.0))]).style(Style::default().color(Color::red())))
        .into_dashboard();
    match &d.plots[0] {
        Plot::Radial(Radial::Pie { slices, .. }) => assert_eq!(slices.len(), 1),
        _ => panic!("expected a pie"),
    }
}

#[test]
fn graph_with_layer_keeps_the_rest() {
    let g = Graph2D::new(PlotId(7)).with_layer(Layer2D::new(Geometry2D::Area, vec![p2(0.0, 1.0)]));
    assert_eq!(g.id, PlotId(7));
    assert_eq!(g.layers.len(), 1);
    assert_eq!(g.layers[0].geometry, Geometry2D::Area);
    assert_eq!(g.layers[0].style, Style::default());
    assert!(g.interaction.pan && g.interaction.zoom && g.interaction.rotate);
}
