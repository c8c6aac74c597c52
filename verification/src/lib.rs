//! Verified core of a pixel-picker widget.
//!
//! A fixed palette of named colors is decoded against a raster image: every
//! pixel's RGB triple must match a palette entry exactly, and the image
//! becomes a flat grid of palette indices. One grid cell (never the first)
//! can then be picked at random and translated into 2-D coordinates plus the
//! resolved color. DOM wiring and drawing are left to the host around this
//! library; the core works on plain byte buffers and values.

pub mod palette;
pub mod image;
pub mod sample;
pub mod context;
