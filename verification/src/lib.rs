//! Squircle element styling and painting logic.
//!
//! Squircles are rounded rectangles with smooth, continuous curvature. This
//! crate holds the decisions behind a squircle element: how a border is placed
//! relative to the bounds, how style refinements merge, which fill and stroke
//! passes are painted, and how a parsed outline becomes path-builder commands.
//! Pixel quantities and colors are carried as type parameters, so the host
//! toolkit chooses their representation.

pub mod border;
pub mod style;
pub mod paint;
pub mod path;

pub use border::BorderMode;
pub use style::SquircleStyleRefinement;
