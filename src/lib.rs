//! A streaming frame-rendering pipeline for posed skeletal animations.
//!
//! Everything the pipeline decides is computed here over plain integer
//! models: time is counted in microseconds and milliseconds, geometry in
//! sub-pixel units (see [`geometry::SUBPIXELS`]), opacity in millionths.
//! The pose engine, the rasteriser and the byte encoders stay outside and
//! hand this library plain values.

pub mod frame;
pub mod schedule;
pub mod geometry;
pub mod bounds;
pub mod recrop;
pub mod resize;
pub mod buffer;
pub mod options;
pub mod request;
pub mod layout;
pub mod petpet;
pub mod encode;
pub mod config;
pub mod compositor;
pub mod overlay_text;
pub mod slug;
