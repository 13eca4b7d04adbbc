//! Core of a software renderer for a small animated planetary scene.
//!
//! Everything here works on integers. Quantities that are fractional by
//! nature (blend weights, noise samples, light intensity, angles) are held
//! in fixed point with six decimal digits, see [`color::UNIT`]; screen
//! positions are held in sixteenths of a pixel, see [`raster::SUBPIXEL`].

pub mod color;
pub mod cuerpo;
pub mod framebuffer;
pub mod input;
pub mod noise;
pub mod random;
pub mod raster;
pub mod shaders;
pub mod stars;
pub mod visibility;
