use vidi::model::{
    numbers_equal, Point2, Point3, OHLC, Color, Dashboard, Graph3D, Interaction, PlotId, PlotMeta, Scale, Scalar, Style, Tab, ONE,
    TWO, ZERO,
};

fn s(v: f32) -> Scalar {
    v.to_bits()
}

#[test]
fn scalar_constants() {
    assert_eq!(ZERO, s(0.0));
    assert_eq!(ONE, s(1.0));
    assert_eq!(TWO, s(2.0));
}

#[test]
fn colors() {
    let c = Color::rgb(s(0.1), s(0.2), s(0.3));
    assert_eq!(c.a, s(1.0));
    assert_eq!(c.with_a(s(0.5)), Color::rgba(s(0.1), s(0.2), s(0.3), s(0.5)));
    assert_eq!(Color::white(), Color::rgb(s(1.0), s(1.0), s(1.0)));
    assert_eq!(Color::yellow(), Color::rgb(s(1.0), s(1.0), s(0.0)));
    assert_eq!(Color::green(), Color::rgb(s(0.0), s(1.0), s(0.0)));
}

#[test]
fn style_setters() {
    let st = Style::default().rgb(s(0.5), s(0.25), s(0.0));
    assert_eq!(st.color, Color::rgba(s(0.5), s(0.25), s(0.0), s(1.0)));
    assert_eq!(st.size, s(2.0));
    let st = st.rgba(s(0.1), s(0.1), s(0.1), s(0.4));
    assert_eq!(st.color.a, s(0.4));
    assert_eq!(st.opacity, s(1.0));
}

#[test]
fn defaults() {
    assert_eq!(Scale::default(), Scale::Linear);
    assert_eq!(Interaction::default(), Interaction { pan: true, zoom: true, rotate: true });
    let m = PlotMeta::empty();
    assert_eq!(m.title, None);
    assert_eq!(m.description, None);
    let d = Dashboard::default();
    assert!(d.plots.is_empty() && d.tabs.is_empty());
}

#[test]
fn new_tab_is_empty() {
    let t = Tab::new("Overview");
    assert_eq!(t.name, "Overview");
    assert!(t.plots.is_empty());
    assert_eq!(t.columns, None);
}

#[test]
fn new_3d_graph() {
    let g = Graph3D::new(PlotId(4));
    assert_eq!(g.id, PlotId(4));
    assert!(g.layers.is_empty());
    assert!(g.interaction.rotate);
    assert_eq!(g.z_label, None);
}

#[test]
fn numbers_compare_as_floats() {
    assert!(numbers_equal(s(1.5), s(1.5)));
    assert!(!numbers_equal(s(1.5), s(2.5)));
    assert!(numbers_equal(s(0.0), s(-0.0)));
    assert!(!numbers_equal(f32::NAN.to_bits(), f32::NAN.to_bits()));
    assert!(!numbers_equal(f32::NAN.to_bits(), s(1.0)));
    assert!(numbers_equal(f32::INFINITY.to_bits(), f32::INFINITY.to_bits()));
    assert!(!numbers_equal(f32::INFINITY.to_bits(), f32::NEG_INFINITY.to_bits()));
}

#[test]
fn colors_compare_as_floats() {
    let nan = f32::NAN.to_bits();
    let c = Color::rgba(nan, s(0.0), s(0.0), s(1.0));
    assert_ne!(c, c);
    assert_eq!(Color::rgb(s(0.0), s(0.5), s(1.0)), Color::rgb(s(-0.0), s(0.5), s(1.0)));
    assert_ne!(Color::rgb(s(0.1), s(0.5), s(1.0)), Color::rgb(s(0.2), s(0.5), s(1.0)));
    let st = Style::default();
    assert_eq!(st, st.color(Color::rgb(s(-0.0), s(0.0), s(0.0))));
    assert_ne!(st, Style { size: nan, ..st });
}

#[test]
fn points_and_candles_compare_as_floats() {
    let nan = f32::NAN.to_bits();
    assert_eq!(Point2 { x: s(0.0), y: s(1.0) }, Point2 { x: s(-0.0), y: s(1.0) });
    assert_ne!(Point2 { x: nan, y: s(1.0) }, Point2 { x: nan, y: s(1.0) });
    assert_ne!(Point3 { x: s(1.0), y: s(1.0), z: nan }, Point3 { x: s(1.0), y: s(1.0), z: nan });
    let c = OHLC::new(s(1.0), s(2.0), s(3.0), s(0.5), s(2.5));
    assert_eq!(c, c);
    assert_ne!(c, OHLC::new(s(1.0), s(2.0), s(3.0), s(0.5), nan));
}
