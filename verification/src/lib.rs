//! The core of a small 2D game engine: a fixed-timestep run loop, screens
//! that hand over to one another, a per-frame input snapshot, sprites over
//! shared images, and rectangle geometry.

pub mod context;
pub mod data;
pub mod events;
pub mod fonts;
pub mod gfx;
pub mod num;
pub mod render;
pub mod spawn;
pub mod view;
pub mod views;

pub use crate::context::Phi;
pub use crate::view::{View, ViewAction};
