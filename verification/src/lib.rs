//! Rustpix: a fixed pipeline of pixel transforms over one decoded raster image.
//!
//! The transforms themselves (crop, inversion, grayscale, blur, brightness,
//! hue rotation) are the `image` crate's. This library decides which of them
//! run, in which order and with which arguments, and states for each step how
//! the image that comes out relates to the image that went in.

pub mod floats;
pub mod raster;
pub mod picture;
pub mod transforms;
pub mod pipeline;
pub mod laws;
