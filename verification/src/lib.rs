//! Animation lifecycle engine for an addressable LED strip.
//!
//! The library models the strip as a vector of [`pixel::Pixel`] values and
//! drives it through four frame state machines (off, rainbow, static
//! rainbow, chase), coordinated by an orchestrator that sequences graceful
//! transitions between animations.

pub mod animation;
pub mod app;
pub mod chase;
pub mod color;
pub mod config;
pub mod off;
pub mod pixel;
pub mod rainbow;
pub mod static_rainbow;
pub mod strutil;
