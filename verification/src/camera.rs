//! The orbit camera: perspective frustum parameters and the world
//! orientation/zoom/translation state, with the derived transform
//! recipes a rendering host turns into matrices.
//!
//! All parameters are exact micro-unit integers.  The host composes the
//! actual 4x4 floating-point matrices from the validated recipes this
//! module hands out: a projection from [`ProjectionParams`], a world
//! matrix from [`WorldTransform`] as `translate * rotate * scale` with
//! rotation `Rx(roll) * Ry(pitch) * Rz(yaw)` in that fixed order, and a
//! normal matrix as the world matrix's inverse transpose.  Validation
//! here guarantees the host never builds a matrix from a degenerate
//! configuration, so no `inf`/`NaN` entry can reach the backend.

use vstd::prelude::*;
use crate::angle::angle_normalized;
use crate::angle::reduce_angle;
use crate::angle::reduce_angle_i64;
use crate::angle::wrap_angle;
use crate::angle::wrap_angle_i64;
use crate::angle::HALF_PI_MICRO;
use crate::angle::PI_MICRO;
use crate::error::PlotError;

verus! {

/// Half a turn in micro-degrees: the exclusive upper limit of a
/// vertical field of view.
pub const MAX_FOV_MICRO_DEG: i64 = 180_000_000;

/// Perspective projection parameters, immutable after construction.
#[derive(Clone, Copy, Debug, PartialEq, Eq, Structural)]
pub struct Frustum {
    /// Vertical field of view in micro-degrees, within `(0, 180)`.
    pub fov_y: i64,
    /// Near clip plane distance in micro units, positive.
    pub near: i64,
    /// Far clip plane distance in micro units, beyond `near`.
    pub far: i64,
}

/// The validated inputs of one perspective matrix: what the host feeds
/// to its right-handed, OpenGL-convention perspective builder.
#[derive(Clone, Copy, Debug, PartialEq, Eq, Structural)]
pub struct ProjectionParams {
    /// Vertical field of view in micro-degrees.
    pub fov_y: i64,
    /// Viewport width in pixels, positive.
    pub width: u32,
    /// Viewport height in pixels, positive.
    pub height: u32,
    /// Near clip plane distance in micro units.
    pub near: i64,
    /// Far clip plane distance in micro units.
    pub far: i64,
}

impl Frustum {
    /// The parameters describe a real perspective volume.
    pub open spec fn wf(self) -> bool {
        &&& 0 < self.fov_y < MAX_FOV_MICRO_DEG
        &&& 0 < self.near < self.far
    }

    /// Build a frustum, rejecting degenerate parameters eagerly.
    pub fn new(fov_y: i64, near: i64, far: i64) -> (r: Result<Frustum, PlotError>)
        ensures
            r is Ok <==> (Frustum { fov_y, near, far }).wf(),
            r matches Ok(f) ==> f == (Frustum { fov_y, near, far }),
            r matches Err(e) ==> e == PlotError::DegenerateFrustum,
    {
        if 0 < fov_y && fov_y < MAX_FOV_MICRO_DEG && 0 < near && near < far {
            Ok(Frustum { fov_y, near, far })
        } else {
            Err(PlotError::DegenerateFrustum)
        }
    }

    /// Derive the inputs of the perspective matrix for one viewport.
    /// A zero viewport dimension would make the aspect ratio (and so
    /// the matrix) undefined, so it is refused rather than propagated
    /// as an infinity.
    pub fn gen_projection_matrix(&self, width: u32, height: u32) -> (r: Result<
        ProjectionParams,
        PlotError,
    >)
        requires
            self.wf(),
        ensures
            r is Ok <==> (width > 0 && height > 0),
            r matches Ok(p) ==> p == (ProjectionParams {
                fov_y: self.fov_y,
                width,
                height,
                near: self.near,
                far: self.far,
            }),
            r matches Err(e) ==> e == PlotError::ZeroViewport,
    {
        if width > 0 && height > 0 {
            Ok(ProjectionParams { fov_y: self.fov_y, width, height, near: self.near, far: self.far })
        } else {
            Err(PlotError::ZeroViewport)
        }
    }
}

/// The camera's orientation, zoom and translation.  Orientation is
/// mutated only through drag updates; zoom and translation are fixed
/// configuration.
#[derive(Clone, Copy, Debug, PartialEq, Eq, Structural)]
pub struct World {
    /// Rotation about the x-axis, micro-radians in `[-pi, pi)`.
    pub roll: i64,
    /// Rotation about the y-axis, micro-radians in `[-pi, pi)`.
    pub pitch: i64,
    /// Rotation about the z-axis, micro-radians in `[-pi, pi)`.
    pub yaw: i64,
    /// Uniform scale factor in micro units.
    pub zoom: i64,
    /// Translation along x, in micro units.
    pub xtrans: i64,
    /// Translation along y, in micro units.
    pub ytrans: i64,
    /// Translation along z, in micro units.
    pub ztrans: i64,
}

/// One frame's world transform recipe: `translate * rotate * scale`,
/// scale and rotation applied first, with rotation composed as
/// `Rx(roll) * Ry(pitch) * Rz(yaw)` — the axis order is part of the
/// contract, not incidental.
#[derive(Clone, Copy, Debug, PartialEq, Eq, Structural)]
pub struct WorldTransform {
    /// Rotation about the x-axis, micro-radians.
    pub roll: i64,
    /// Rotation about the y-axis, micro-radians.
    pub pitch: i64,
    /// Rotation about the z-axis, micro-radians.
    pub yaw: i64,
    /// Uniform scale on all three axes, micro units.
    pub zoom: i64,
    /// Translation along x, in micro units.
    pub xtrans: i64,
    /// Translation along y, in micro units.
    pub ytrans: i64,
    /// Translation along z, in micro units.
    pub ztrans: i64,
}

impl World {
    /// Orientation angles are kept normalized.
    pub open spec fn wf(self) -> bool {
        &&& angle_normalized(self.roll as int)
        &&& angle_normalized(self.pitch as int)
        &&& angle_normalized(self.yaw as int)
    }

    /// The transform this state stands for.
    pub open spec fn spec_transform(self) -> WorldTransform {
        WorldTransform {
            roll: self.roll,
            pitch: self.pitch,
            yaw: self.yaw,
            zoom: self.zoom,
            xtrans: self.xtrans,
            ytrans: self.ytrans,
            ztrans: self.ztrans,
        }
    }

    /// Build a world state; the given angles are reduced into the
    /// normalized turn, however many turns they span.  The bounds only
    /// keep the reduction's half-turn pre-shift inside `i64`.
    pub fn new(roll: i64, pitch: i64, yaw: i64, zoom: i64, xtrans: i64, ytrans: i64, ztrans: i64)
        -> (w: World)
        requires
            roll <= i64::MAX - PI_MICRO,
            pitch <= i64::MAX - PI_MICRO,
            yaw <= i64::MAX - PI_MICRO,
        ensures
            w == (World {
                roll: reduce_angle(roll as int) as i64,
                pitch: reduce_angle(pitch as int) as i64,
                yaw: reduce_angle(yaw as int) as i64,
                zoom,
                xtrans,
                ytrans,
                ztrans,
            }),
            w.wf(),
    {
        World {
            roll: reduce_angle_i64(roll),
            pitch: reduce_angle_i64(pitch),
            yaw: reduce_angle_i64(yaw),
            zoom,
            xtrans,
            ytrans,
            ztrans,
        }
    }

    /// The world matrix recipe for the current state.  Always defined:
    /// scaling, rotating and translating compose for any parameters.
    pub fn gen_world_matrix(&self) -> (t: WorldTransform)
        ensures
            t == self.spec_transform(),
    {
        WorldTransform {
            roll: self.roll,
            pitch: self.pitch,
            yaw: self.yaw,
            zoom: self.zoom,
            xtrans: self.xtrans,
            ytrans: self.ytrans,
            ztrans: self.ztrans,
        }
    }

    /// The normal matrix recipe: the host inverts and transposes the
    /// world matrix.  With zoom zero the world matrix is singular and
    /// has no inverse, so that state is refused instead of letting the
    /// host produce a `NaN` matrix.  Rotation and translation are
    /// always invertible, so zoom alone decides.
    pub fn gen_normal_matrix(&self) -> (r: Result<WorldTransform, PlotError>)
        ensures
            r is Ok <==> self.zoom != 0,
            r matches Ok(t) ==> t == self.spec_transform(),
            r matches Err(e) ==> e == PlotError::SingularWorld,
    {
        if self.zoom != 0 {
            Ok(self.gen_world_matrix())
        } else {
            Err(PlotError::SingularWorld)
        }
    }

    /// Apply one drag increment: the pitch and roll move by the given
    /// micro-radian deltas (each at most a quarter turn, as an
    /// arctangent-mapped delta always is) and are folded back into the
    /// normalized turn.  Yaw, zoom and translation never change.
    pub fn apply_drag(&mut self, dpitch: i64, droll: i64)
        requires
            old(self).wf(),
            -HALF_PI_MICRO <= dpitch <= HALF_PI_MICRO,
            -HALF_PI_MICRO <= droll <= HALF_PI_MICRO,
        ensures
            final(self).pitch == wrap_angle(old(self).pitch - dpitch),
            final(self).roll == wrap_angle(old(self).roll - droll),
            final(self).yaw == old(self).yaw,
            final(self).zoom == old(self).zoom,
            final(self).xtrans == old(self).xtrans,
            final(self).ytrans == old(self).ytrans,
            final(self).ztrans == old(self).ztrans,
            final(self).wf(),
    {
        self.pitch = wrap_angle_i64(self.pitch - dpitch);
        self.roll = wrap_angle_i64(self.roll - droll);
    }
}

} // verus!
