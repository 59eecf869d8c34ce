//! Per-frame orchestration: everything one render pass needs, computed
//! and validated in one call.
//!
//! Each frame the host asks for the current mesh and the three
//! transform recipes and hands them to the rendering backend.  Nothing
//! is cached between frames — mesh and recipes are recomputed every
//! time, an accepted cost at interactive rendering rates.  A frame is
//! refused as a whole when the viewport is degenerate or the world
//! transform is singular, so the host never uploads an undefined
//! matrix alongside a valid mesh.

use vstd::prelude::*;
use crate::camera::Frustum;
use crate::camera::ProjectionParams;
use crate::camera::World;
use crate::camera::WorldTransform;
use crate::error::PlotError;
use crate::mesh::mesh_matches;
use crate::mesh::Mesh;
use crate::mesh::MeshGenerator;
use crate::surface::SurfaceFunction;

verus! {

/// Everything the rendering backend receives for one frame.
pub struct FrameData {
    /// The freshly tessellated surface.
    pub mesh: Mesh,
    /// Inputs of the perspective matrix.
    pub projection: ProjectionParams,
    /// Recipe of the world matrix.
    pub world: WorldTransform,
    /// Recipe of the matrix whose inverse transpose transforms
    /// normals; identical to `world`, but only handed out once the
    /// transform is known to be invertible.
    pub normal: WorldTransform,
}

/// Compute one frame: regenerate the mesh and derive the projection,
/// world and normal recipes for the current camera state.  Succeeds
/// exactly when the viewport has positive area and the world transform
/// is invertible; a degenerate viewport is reported ahead of a
/// singular transform.
pub fn prepare_frame<F: SurfaceFunction>(
    generator: &MeshGenerator<F>,
    frustum: &Frustum,
    world: &World,
    width: u32,
    height: u32,
) -> (r: Result<FrameData, PlotError>)
    requires
        generator.wf(),
        frustum.wf(),
    ensures
        r is Ok <==> (width > 0 && height > 0 && world.zoom != 0),
        r matches Ok(frame) ==> {
            &&& mesh_matches(
                frame.mesh,
                generator.surface,
                generator.resolution as int,
                generator.wireframe,
            )
            &&& frame.projection == (ProjectionParams {
                fov_y: frustum.fov_y,
                width,
                height,
                near: frustum.near,
                far: frustum.far,
            })
            &&& frame.world == world.spec_transform()
            &&& frame.normal == world.spec_transform()
        },
        r matches Err(e) ==> e == (if width == 0 || height == 0 {
            PlotError::ZeroViewport
        } else {
            PlotError::SingularWorld
        }),
{
    let projection = match frustum.gen_projection_matrix(width, height) {
        Ok(p) => p,
        Err(e) => {
            return Err(e);
        },
    };
    let normal = match world.gen_normal_matrix() {
        Ok(t) => t,
        Err(e) => {
            return Err(e);
        },
    };
    let mesh = generator.generate();
    Ok(FrameData { mesh, projection, world: world.gen_world_matrix(), normal })
}

} // verus!
