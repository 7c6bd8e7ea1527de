//! Standing-wave ribbon visualisation, verified core.
//!
//! The library builds the extruded tube mesh for one or more ribbon-like
//! "strings", derives the per-frame wave phase, composes the per-draw
//! uniform blocks from a validated configuration, and drives the frame
//! loop's bookkeeping.  Geometry is exact integer index arithmetic; all
//! other quantities are carried as fixed-point integers (see the `fixed` module),
//! so that every computation here is exact and provable.  The windowing,
//! GPU and file-reading shell around this library converts between these
//! fixed-point values and its own floating-point world.

pub mod app_config;
pub mod fixed;
pub mod frame;
pub mod geometry;
pub mod scene;
pub mod wave;
pub mod winding;
