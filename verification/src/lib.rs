//! Positioning logic for floating elements (tooltips, popovers, dropdowns):
//! placements and their combinatorics, the placement lists tried by the
//! `autoPlacement` and `flip` middleware, the middleware lifecycle that
//! `compute_position` runs, the data store shared between middleware, and the
//! options of `auto_update`.
pub mod text;
pub mod placement;
pub mod auto_placement;
pub mod flip;
pub mod inline;
pub mod lifecycle;
pub mod middleware_data;
pub mod auto_update;
pub mod move_observer;
pub mod shift;
pub mod size;
pub mod offset;
pub mod detect_overflow;
pub mod viewport;
pub mod coords;
pub mod arrow;
pub mod config;
pub mod clipping;
pub mod offset_parent;
