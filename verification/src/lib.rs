//! Engine for collaboratively edited pixel canvases: the canvas data model
//! with its merge algorithm, a registry of rooms keyed by dense ids, and a
//! single-slot broadcast primitive that fans the latest canonical state out
//! to streaming subscribers.

pub mod canvas;
pub mod registry;
pub mod room;
