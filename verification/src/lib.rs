//! Animation and compositing core for a timeline-based motion-graphics editor.
//!
//! The library evaluates time-varying properties through keyframes and easing
//! curves, composes a layered scene into a pixel buffer for a given timestamp,
//! and drives a particle subsystem for kinetic effects.
//!
//! All fractional quantities (times, progress values, scalar property values)
//! are carried as 64-bit fixed-point numbers; see [`fixed`] for the scale and
//! the arithmetic helpers.

pub mod ai;
pub mod animation_engine;
pub mod audio_engine;
pub mod color;
pub mod commands;
pub mod easing;
pub mod effects;
pub mod export;
pub mod fixed;
pub mod host;
pub mod image_engine;
pub mod lofi_studio;
pub mod motion_graphics;
pub mod project;
pub mod renderer;
pub mod utils;
pub mod video_engine;
