//! A rendering composition layer: geometries and materials combine into
//! objects that render through a forward or a deferred pipeline, against an
//! explicit render context that records what was submitted.

pub mod base;
pub mod camera;
pub mod light;
pub mod material;
pub mod context;
pub mod object;
pub mod model;
pub mod pipeline;
pub mod settings;
