//! Clip composition for a scene renderer.
//!
//! Every node of a scene can be clipped by rectangles, rounded rectangles,
//! image masks, box shadow masks and line decoration masks. This library
//! keeps the clips of each node with conservative bounds in layout space,
//! writes them to a block store for the stage that rasterizes them, and
//! composes the clips on the way from the root to a node into a chain with
//! bounds in device space.
//!
//! Layout space is measured in whole units, sixty to the pixel, and device
//! space in whole pixels: all geometry is integer arithmetic, and every
//! function states its result exactly.
//!
//! From the leaves up:
//! - [`units`], [`geometry`] and [`border_radius`] hold lengths, rectangles
//!   and corner radii;
//! - [`rounded_rect`] tests whether a point lies in a rounded rectangle;
//! - [`clip_source`] holds the kinds of clips, [`bounds`] their local bounds;
//! - [`gpu_cache`], [`clip_data`] and [`resource_cache`] hold the blocks that
//!   clips are written as and the images that they ask for;
//! - [`clip_region`], [`clip_sources`] and [`clip_store`] collect the clips of
//!   a node and of a scene;
//! - [`screen_bounds`] takes local bounds to device space;
//! - [`clip_chain`] composes the clips along a path of the scene;
//! - [`box_shadow`] shapes the box shadow primitive by clips.

pub mod units;
pub mod geometry;
pub mod border_radius;
pub mod rounded_rect;
pub mod display_types;
pub mod gpu_cache;
pub mod resource_cache;
pub mod clip_data;
pub mod clip_source;
pub mod bounds;
pub mod clip_region;
pub mod clip_sources;
pub mod clip_store;
pub mod screen_bounds;
pub mod clip_chain;
pub mod box_shadow;
