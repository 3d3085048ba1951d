//! View state and render parameters of an interactive fractal viewer.
//!
//! The crate keeps the complex-plane center and zoom scale, the iteration cap
//! and the colour parameters of the viewer, clamps every one of them into its
//! range, and tracks which of them must be written again to the buffers that
//! the fragment shader reads. Single-precision values are carried as their
//! IEEE 754 words, the form in which they reach the shader. No input is
//! rejected: a number out of range is clamped, a word that is not a number
//! is ignored, and so every word that the shader reads is a finite number in
//! its range.

pub mod binary32;
pub mod controls;
pub mod params;
pub mod scene;
pub mod uniform;
