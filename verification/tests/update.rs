use vidi::dash::dash;
use vidi::model::{Dashboard, Geometry2D, Graph2D, Layer2D, Plot, PlotId, Point2, Scalar};
use vidi::update::{pair_points, UpdateError};

fn s(v: f32) -> Scalar {
    v.to_bits()
}

fn p2(x: f32, y: f32) -> Point2 {
    Point2 { x: s(x), y: s(y) }
}

fn xy_of(d: &Dashboard, plot: usize, layer: usize) -> Vec<Point2> {
    match &d.plots[plot] {
        Plot::Graph2D(g) => g.layers[layer].xy.clone(),
        _ => panic!("expected a 2D graph"),
    }
}

fn tab_xy_of(d: &Dashboard, tab: usize, plot: usize, layer: usize) -> Vec<Point2> {
    match &d.tabs[tab].plots[plot] {
        Plot::Graph2D(g) => g.layers[layer].xy.clone(),
        _ => panic!("expected a 2D graph"),
    }
}

fn sample() -> Dashboard {
    dash()
        .add_2d(|p| p.line(vec![p2(0.0, 0.0)], None).scatter(vec![], None))
        .add_3d(|p| p)
        .into_dashboard()
}

#[test]
fn pairing_flat_points() {
    assert_eq!(
        pair_points(&[s(1.0), s(2.0), s(3.0), s(4.0)]),
        Ok(vec![p2(1.0, 2.0), p2(3.0, 4.0)])
    );
    assert_eq!(pair_points(&[]), Ok(vec![]));
    assert_eq!(pair_points(&[s(1.0)]), Err(UpdateError::OddPointCount));
}

#[test]
fn append_points_extends_the_layer() {
    let mut d = sample();
    assert_eq!(d.append_points(1, 0, &[s(1.0), s(1.0), s(2.0), s(4.0)]), Ok(()));
    assert_eq!(xy_of(&d, 0, 0), vec![p2(0.0, 0.0), p2(1.0, 1.0), p2(2.0, 4.0)]);
    assert_eq!(xy_of(&d, 0, 1), vec![]);
    assert_eq!(d.append_points(1, 1, &[s(5.0), s(6.0)]), Ok(()));
    assert_eq!(xy_of(&d, 0, 1), vec![p2(5.0, 6.0)]);
}

#[test]
fn append_points_refusals_change_nothing() {
    let mut d = sample();
    assert_eq!(d.append_points(1, 0, &[s(1.0)]), Err(UpdateError::OddPointCount));
    assert_eq!(d.append_points(1, 2, &[s(1.0), s(2.0)]), Err(UpdateError::LayerNotFound(2)));
    assert_eq!(d.append_points(2, 0, &[s(1.0), s(2.0)]), Err(UpdateError::PlotNotFound(2)));
    assert_eq!(d.append_points(9, 0, &[s(1.0), s(2.0)]), Err(UpdateError::PlotNotFound(9)));
    assert_eq!(xy_of(&d, 0, 0), vec![p2(0.0, 0.0)]);
    assert_eq!(xy_of(&d, 0, 1), vec![]);
}

#[test]
fn append_points_finds_graphs_in_tabs() {
    let mut d = dash()
        .add_tab("A", |t| t.add_2d(|p| p))
        .add_tab("B", |t| t.add_2d(|p| p.line(vec![], None)))
        .into_dashboard();
    assert_eq!(d.append_points(1, 0, &[s(1.0), s(2.0)]), Err(UpdateError::PlotNotFound(1)));
    assert_eq!(d.append_points(2, 0, &[s(1.0), s(2.0)]), Ok(()));
    assert_eq!(tab_xy_of(&d, 1, 0, 0), vec![p2(1.0, 2.0)]);
}

#[test]
fn replace_trace_puts_new_points() {
    let mut d = sample();
    assert_eq!(d.replace_trace(1, 0, &[s(7.0), s(8.0)]), Ok(()));
    assert_eq!(xy_of(&d, 0, 0), vec![p2(7.0, 8.0)]);
    assert_eq!(d.replace_trace(1, 0, &[]), Ok(()));
    assert_eq!(xy_of(&d, 0, 0), vec![]);
}

#[test]
fn replace_trace_refusals() {
    let mut d = sample();
    assert_eq!(d.replace_trace(1, 0, &[s(1.0), s(2.0), s(3.0)]), Err(UpdateError::OddPointCount));
    assert_eq!(d.replace_trace(1, 5, &[s(1.0), s(2.0)]), Err(UpdateError::PlotNotFound(1)));
    assert_eq!(d.replace_trace(2, 0, &[s(1.0), s(2.0)]), Err(UpdateError::PlotNotFound(2)));
    assert_eq!(xy_of(&d, 0, 0), vec![p2(0.0, 0.0)]);
}

#[test]
fn append_is_replace_with_the_concatenation() {
    let mut a = sample();
    let mut b = sample();
    assert_eq!(a.append_points(1, 0, &[s(3.0), s(4.0)]), Ok(()));
    assert_eq!(b.replace_trace(1, 0, &[s(0.0), s(0.0), s(3.0), s(4.0)]), Ok(()));
    assert_eq!(xy_of(&a, 0, 0), xy_of(&b, 0, 0));
}

#[test]
fn update_plot_replaces_graphs_by_identity() {
    let mut d = sample();
    let fresh = Graph2D::new(PlotId(2)).with_layer(Layer2D::new(Geometry2D::Bars, vec![p2(1.0, 1.0)]));
    assert_eq!(d.update_plot(2, Plot::Graph2D(fresh)), Ok(()));
    match &d.plots[1] {
        Plot::Graph2D(g) => {
            assert_eq!(g.id, PlotId(2));
            assert_eq!(g.layers[0].geometry, Geometry2D::Bars);
        },
        _ => panic!("expected the new 2D graph"),
    }
    assert_eq!(d.plots.len(), 2);
    assert_eq!(
        d.update_plot(5, Plot::Graph2D(Graph2D::new(PlotId(5)))),
        Err(UpdateError::PlotNotFound(5))
    );
    assert_eq!(d.plots.len(), 2);
}

#[test]
fn update_plot_in_a_tab() {
    let mut d = dash().add_tab("T", |t| t.add_2d(|p| p).add_3d(|p| p)).into_dashboard();
    assert_eq!(d.update_plot(2, Plot::Graph2D(Graph2D::new(PlotId(2)))), Ok(()));
    assert!(matches!(d.tabs[0].plots[1], Plot::Graph2D(_)));
    assert!(matches!(d.tabs[0].plots[0], Plot::Graph2D(_)));
}
