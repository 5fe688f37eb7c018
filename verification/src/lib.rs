//! A verified model of a GPU frame-production pipeline: layout geometry,
//! per-frame render surfaces, synchronized frame publication to an external
//! sharing session, and the redraw-cycle state machine that drives them.
//!
//! The GPU, windowing and frame-sharing work itself happens outside this
//! library; the library holds the decisions and bookkeeping of the pipeline
//! and proves them correct: surface dimensions, publish ordering, the
//! one-shot shutdown guard, and the cycle's state transitions.

pub mod controller;
pub mod drawing;
pub mod geometry;
pub mod studio;
