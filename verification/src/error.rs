//! Error taxonomy for the plotting core.
//!
//! Configuration errors are rejected eagerly when a mesh generator or a
//! camera value is built; numeric degeneracy is surfaced when a derived
//! transform would be undefined.  No operation in this crate reports
//! failure through a sentinel value: every fallible operation returns a
//! `Result` carrying one of these variants.

use vstd::prelude::*;

verus! {

/// Why a plotting operation was refused.
#[derive(Clone, Copy, Debug, PartialEq, Eq, Structural)]
pub enum PlotError {
    /// Configuration error: the grid resolution is below the smallest
    /// grid that has any cells (two samples per side).
    ResolutionTooSmall,
    /// Configuration error: the grid resolution would need vertex
    /// indices beyond the 16-bit index width of the render interface.
    ResolutionTooLarge,
    /// Configuration error: a viewport dimension is zero, so the aspect
    /// ratio of the projection would be undefined.
    ZeroViewport,
    /// Configuration error: the frustum parameters do not describe a
    /// perspective volume (field of view outside (0, 180) degrees, a
    /// non-positive near plane, or near not in front of far).
    DegenerateFrustum,
    /// Numeric degeneracy: the world transform has zoom zero, so it is
    /// singular and has no inverse to derive a normal transform from.
    SingularWorld,
}

impl PlotError {
    /// True for the variants rejected at construction or matrix-build
    /// time because of bad configuration, as opposed to a transform
    /// that is degenerate only for the current camera state.
    pub open spec fn spec_is_configuration(self) -> bool {
        self != PlotError::SingularWorld
    }

    /// Runtime view of the configuration/degeneracy split.
    pub fn is_configuration(&self) -> (r: bool)
        ensures
            r == self.spec_is_configuration(),
    {
        !matches!(self, PlotError::SingularWorld)
    }

    /// A short description, for hosts that want to surface the failure.
    pub fn describe(&self) -> String {
        match self {
            PlotError::ResolutionTooSmall => "grid resolution must be at least 2".to_string(),
            PlotError::ResolutionTooLarge => "grid resolution must be at most 256".to_string(),
            PlotError::ZeroViewport => "viewport dimensions must be positive".to_string(),
            PlotError::DegenerateFrustum => "frustum parameters are degenerate".to_string(),
            PlotError::SingularWorld => "world transform is singular".to_string(),
        }
    }
}

} // verus!
