//! The logic of an escape-time Mandelbrot renderer, verified: parsing of
//! coordinate pairs and the per-iteration decision of the escape-time loop,
//! with the laws they obey; beside them a few small verified utilities (a
//! two-stack queue, ordering helpers, series, and the decisions of a byte
//! copy loop).
//!
//! The double-precision arithmetic of the renderer lives outside this crate
//! and hands the library plain values.

pub mod cities;
pub mod copying;
pub mod escape;
pub mod grayscale;
pub mod ordering;
pub mod pair;
pub mod queue;
pub mod search;
pub mod series;
pub mod time_unit;
