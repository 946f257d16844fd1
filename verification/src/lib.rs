//! Where a screen cursor touches the ground, and how the marker drawn there
//! looks: ray and plane geometry on a fixed-point lattice, a two-valued
//! highlight toggle driven by press edges, and the per-frame pipeline that
//! joins them.

pub mod frame;
pub mod geometry;
pub mod marker;
pub mod toggle;
