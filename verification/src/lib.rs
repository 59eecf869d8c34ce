//! Core of a dynamically tessellated 3D surface plot.
//!
//! The crate turns an analytic bivariate function and its gradient into
//! renderable position/normal/index buffers, and turns pointer-drag
//! samples into an orbit camera's orientation and transform parameters.
//! All scalar state is kept in exact integer form — grid coordinates as
//! rationals over the grid step, heights and angles in micro units — so
//! that every rule of the pipeline is provable; a rendering host converts
//! these plain values to its own floating-point types at the boundary.

pub mod error;
pub mod numeric;
pub mod angle;
pub mod surface;
pub mod sampled;
pub mod mesh;
pub mod camera;
pub mod interaction;
pub mod frame;

use vstd::prelude::*;

verus! {

/// Liveness probe of the embedding interface: a host can call it to
/// confirm the module is loaded and responsive.
pub fn cring() -> (r: String)
    ensures
        r@ == "cringe"@,
{
    "cringe".to_string()
}

} // verus!
