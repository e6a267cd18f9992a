//! Names of the vertex attributes that the display layer's shader programs
//! bind; the display collaborator derives its vertex types from them.

use vstd::prelude::*;

verus! {

/// Vertex attributes of the GUI overlay mesh: screen position, vertex color
/// and texture coordinates.
#[derive(Clone, Copy, Debug, Eq, PartialEq)]
pub enum GSemantics {
    Position,
    Color,
    Tc,
}

/// Vertex attributes of the fullscreen quad the traced frame is drawn on.
#[derive(Clone, Copy, Debug, Eq, PartialEq)]
pub enum TSemantics {
    Position,
}

} // verus!
