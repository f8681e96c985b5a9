//! Integer core of a small ray caster for scenes of axis-aligned boxes:
//! saturating colors, texture sampling with clamped texel indices, the slab
//! test's choice of crossing, the face and texture-mapping rules of a hit,
//! nearest-hit selection, and the final per-pixel sum of shading layers.

pub mod color;
pub mod texture;
pub mod face;
pub mod slab;
pub mod shading;
