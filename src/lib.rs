//! Procedural geometry core for a DNA double-helix model.
//!
//! Lengths are held in thousandths of a scene unit and angles in
//! thousandths of a degree, so that the combinatorial side of the model
//! (vertex counts, index offsets, height bands, strand layout) is exact.
pub mod backbone;
pub mod base;
pub mod cylinder;
pub mod dna;
pub mod gene;
pub mod mesh;
