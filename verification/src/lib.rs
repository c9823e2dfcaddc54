//! Layout, input and theming engine for a compound scrollable-region UI
//! control, together with the style-attribute-locking mechanism that lets a
//! generic theming layer coexist with imperative layout writes on the same
//! retained node graph.
//!
//! Geometry is measured in whole pixels: extents are `u32`, offsets and
//! deltas are `i64`. The scene-graph substrate that owns the real nodes is
//! outside this crate; here a [`node::NodeArena`] stands for it, and the
//! per-tick passes are plain functions from state and input to state.

pub mod geometry;
pub mod node;
pub mod pseudo_state;
pub mod scroll_view;
pub mod theme;
pub mod ui_style;
pub mod vec_set;
