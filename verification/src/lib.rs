//! Batching of drawable shapes for a single indexed draw call, with the
//! small pieces of a 2D rendering session around it: shapes that can be
//! moved about their anchor, the layout of a pipeline's vertices, the
//! events of a window, colors between two colors, and units of measurement.

pub mod color_calc;
pub mod color_shapes;
pub mod decimal;
pub mod fileformat;
pub mod measurement;
pub mod merge_lemmas;
pub mod session;
pub mod texture_shapes;
pub mod types;
pub mod units;
pub mod vertex;
pub mod window;
