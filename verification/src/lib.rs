//! An interactive vector-annotation engine.
//!
//! Lines and rectangles over whole-number pixel coordinates are created,
//! hovered, moved, resized by one control point and deleted through a stream
//! of pointer events. Every operation carries a contract over a mathematical
//! model of the shapes, and the contracts are machine-checked.

pub mod capture;
pub mod geometry;
pub mod laws;
pub mod machine;
pub mod nearest;
pub mod picking;
pub mod shape;
pub mod store;
