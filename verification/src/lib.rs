//! A verified model of a small orbiting-lights demo scene.
//!
//! The scene host (window, renderer, asset pipeline) lives outside this crate;
//! here we keep the parts worth proving: an entity-component store, the
//! procedure that populates a grid of cone entities, the builders for the
//! light and camera rigs, and the per-frame motion systems that move the two
//! point lights and the camera along time-parameterized orbits.
//!
//! World-space lengths are held as exact fixed-point integers (milli-units,
//! see [`math::MILLI`]); a frame's sine/cosine samples are computed by the
//! caller and passed in as plain scaled integers, so every formula here is
//! exact and fully specified.

pub mod assets;
pub mod components;
pub mod math;
pub mod motion;
pub mod scene;
pub mod world;

pub use math::MILLI;
