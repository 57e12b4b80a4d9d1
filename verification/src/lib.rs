//! Terminal image viewer: turns decoded bitmaps into ANSI-coloured block art.

pub mod animator;
pub mod ansi;
pub mod bitmap;
pub mod config;
pub mod grid;
pub mod render;
pub mod resample;
pub mod sampler;
