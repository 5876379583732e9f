//! Verified core of an interactive 3D sculpting demo.
//!
//! A player-controlled capsule moves over a deformable terrain block; mouse
//! picks cast a ray into the scene and apply a spherical brush to the terrain
//! by a constructive-solid-geometry union or subtraction, after which the
//! physics collider and the render mesh are rebuilt to match.
//!
//! All geometry in this crate is carried in fixed-point integer coordinates
//! (see [`fx`]), so that every arithmetic step has an exact, machine-checked
//! meaning.  The rigid-body solver and the CSG boolean kernel are external
//! collaborators: the crate states what it needs of their answers and takes
//! those answers as plain values.

use vstd::prelude::*;

pub mod camera;
pub mod fx;
pub mod game;
pub mod input;
pub mod mesh;
pub mod physics;
pub mod solid;
pub mod sqrt;
pub mod trig;
pub mod vec3;

verus! {

/// Raw startup assets handed to the host by the embedder.
pub struct Resources {
    /// Contents of the font file used by the debug text overlay.
    pub debug_font_data: Vec<u8>,
}

} // verus!
