# vidi

Declarative dashboards of 2D/3D plots, statistical, financial, heatmap and
radial charts, drawn with Bevy natively or in the browser.

## Layout

- `src/` — the library, verified with Verus:
  - `model.rs`: the dashboard data model (numbers are carried as their IEEE 754
    bit patterns, `Scalar`);
  - `dash.rs`: the builders (`dash()`, tabs, plot builders) and graph identities;
  - `update.rs`: streaming updates (append points, replace a trace, replace a plot);
  - `layout.rs`: tile grid, cells, render layers, camera order, tab switches and
    the tile registry;
  - `mesh.rs`: triangle index lists of bands, surfaces, pie slices and polygons;
  - `stats.rs`: histogram counts and ticks, quartile positions, heatmap cells and
    labels, radar and pie bookkeeping;
  - `text.rs`: decimal formatting.
- `tests/` — tests of the library.
- `app/` — the Bevy renderer, the JSON wire format and the JavaScript bindings,
  built on the library.
