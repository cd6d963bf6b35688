//! A verified model of a small orbital simulation: bodies circling a central
//! sun, advanced in simulated time and rasterized as filled discs into a flat
//! pixel buffer, with a multiplicative zoom factor driven by user input.
//!
//! All quantities are fixed-point integers: lengths in micro-pixels, times in
//! micro-days, angles in micro-radians, the zoom factor and trigonometric
//! samples scaled by one million. The windowing layer supplies trigonometric
//! samples and presents the finished buffer; everything else is proved here.

pub mod body;
pub mod raster;
pub mod sim;
pub mod units;
