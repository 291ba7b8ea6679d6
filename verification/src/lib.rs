//! A minimal real-time driving simulation core: a single vehicle moving on a
//! 2D plane under simplified longitudinal and steering dynamics, plus the
//! oriented-rectangle geometry used to render any positioned, rotated entity,
//! and the parser for the tile-grid map format.
//!
//! All quantities are fixed-point integers so that every state change is an
//! exact arithmetic fact; the surrounding program converts to floating point
//! only at the rendering boundary.

pub mod car;
pub mod geometry;
pub mod map;
