//! Verified core of a declarative dashboard library: the plot data model, the
//! dashboard builders, tile layout and bookkeeping, mesh index construction and
//! the integer side of the statistical charts.
pub mod model;
pub mod mesh;
pub mod update;
pub mod layout;
pub mod text;
pub mod stats;
pub mod dash;
