//! A small physics-demo scene, modelled in fixed point.
//!
//! Lengths are in thousandths of a world unit, angles in thousandths of a
//! degree, times in milliseconds. The scene is held in an explicitly owned
//! [`scene::World`]; the load stage decides when the scene is built, and the
//! per-frame updaters observe and animate it.
pub mod geometry;
pub mod light;
pub mod scene;
pub mod stage;
pub mod transform;
pub mod updaters;
