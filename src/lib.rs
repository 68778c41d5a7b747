//! Gradient (Perlin-style) noise over one- and two-dimensional lattices.
//!
//! The verified core holds the lattice geometry on integers, the per-engine
//! gradient cache and the order in which the random stream is consumed.
//! Floating-point geometry is supplied by implementors of [`GradVector`].

pub mod canvas;
pub mod engine;
pub mod field;
pub mod lattice;

pub use canvas::{Canvas, Color};
pub use engine::{palette_entry, GradVector, NoiseGen, PaletteError};
pub use field::NoiseField;
pub use lattice::{Dimension, LatticePoint};
