use surface_plot::camera::Frustum;
use surface_plot::camera::World;
use surface_plot::error::PlotError;
use surface_plot::frame::prepare_frame;
use surface_plot::mesh::MeshGenerator;
use surface_plot::surface::FlatSurface;

fn default_frustum() -> Frustum {
    // 45 degrees, near 0.2, far 128, in micro units.
    Frustum::new(45_000_000, 200_000, 128_000_000).unwrap()
}

fn default_world(zoom: i64) -> World {
    // roll pi/8, facing forward, translated back by 3.
    World::new(392_699, 0, 0, zoom, 0, 0, -3_000_000)
}

#[test]
fn projection_zero_height_rejected() {
    let frustum = default_frustum();
    match frustum.gen_projection_matrix(800, 0) {
        Err(e) => assert_eq!(e, PlotError::ZeroViewport),
        Ok(_) => panic!("zero height must be rejected"),
    }
}

#[test]
fn projection_zero_width_rejected() {
    let frustum = default_frustum();
    match frustum.gen_projection_matrix(0, 600) {
        Err(e) => assert_eq!(e, PlotError::ZeroViewport),
        Ok(_) => panic!("zero width must be rejected"),
    }
}

#[test]
fn projection_passes_validated_parameters() {
    let frustum = default_frustum();
    let params = frustum.gen_projection_matrix(800, 600).unwrap();
    assert_eq!(params.fov_y, 45_000_000);
    assert_eq!(params.width, 800);
    assert_eq!(params.height, 600);
    assert_eq!(params.near, 200_000);
    assert_eq!(params.far, 128_000_000);
}

#[test]
fn degenerate_frustum_rejected() {
    for (fov, near, far) in [
        (0, 200_000, 128_000_000),
        (180_000_000, 200_000, 128_000_000),
        (45_000_000, 0, 128_000_000),
        (45_000_000, -200_000, 128_000_000),
        (45_000_000, 128_000_000, 128_000_000),
        (45_000_000, 128_000_001, 128_000_000),
    ] {
        match Frustum::new(fov, near, far) {
            Err(e) => assert_eq!(e, PlotError::DegenerateFrustum),
            Ok(_) => panic!("({}, {}, {}) must be rejected", fov, near, far),
        }
    }
}

#[test]
fn normal_matrix_zero_zoom_rejected() {
    let world = default_world(0);
    match world.gen_normal_matrix() {
        Err(e) => assert_eq!(e, PlotError::SingularWorld),
        Ok(_) => panic!("zoom 0 must be rejected"),
    }
}

#[test]
fn normal_matrix_matches_world_matrix() {
    let world = default_world(800_000);
    let wt = world.gen_world_matrix();
    let nt = world.gen_normal_matrix().unwrap();
    assert_eq!(wt, nt);
    assert_eq!(wt.roll, 392_699);
    assert_eq!(wt.zoom, 800_000);
    assert_eq!(wt.ztrans, -3_000_000);
}

#[test]
fn world_construction_normalizes_angles() {
    let world = World::new(4_000_000, -4_000_000, 0, 800_000, 0, 0, 0);
    assert_eq!(world.roll, 4_000_000 - 6_283_186);
    assert_eq!(world.pitch, -4_000_000 + 6_283_186);
    assert_eq!(world.yaw, 0);
    // Ten half-turns reduce all the way back to zero.
    let spun = World::new(31_415_930, -31_415_930, 0, 800_000, 0, 0, 0);
    assert_eq!(spun.roll, 0);
    assert_eq!(spun.pitch, 0);
}

#[test]
fn frame_succeeds_with_valid_configuration() {
    let gen = MeshGenerator::new(FlatSurface { level: 0 }, 4, false).unwrap();
    let frame = prepare_frame(&gen, &default_frustum(), &default_world(800_000), 800, 600)
        .unwrap();
    assert_eq!(frame.mesh.positions.len(), 16);
    assert_eq!(frame.projection.height, 600);
    assert_eq!(frame.world, frame.normal);
    assert_eq!(frame.world.zoom, 800_000);
}

#[test]
fn frame_reports_viewport_before_singularity() {
    let gen = MeshGenerator::new(FlatSurface { level: 0 }, 4, false).unwrap();
    // Both faults present: the viewport error wins.
    match prepare_frame(&gen, &default_frustum(), &default_world(0), 800, 0) {
        Err(e) => assert_eq!(e, PlotError::ZeroViewport),
        Ok(_) => panic!("degenerate frame must be rejected"),
    }
    match prepare_frame(&gen, &default_frustum(), &default_world(0), 800, 600) {
        Err(e) => assert_eq!(e, PlotError::SingularWorld),
        Ok(_) => panic!("singular world must be rejected"),
    }
}

#[test]
fn error_taxonomy_split() {
    assert!(PlotError::ResolutionTooSmall.is_configuration());
    assert!(PlotError::ResolutionTooLarge.is_configuration());
    assert!(PlotError::ZeroViewport.is_configuration());
    assert!(PlotError::DegenerateFrustum.is_configuration());
    assert!(!PlotError::SingularWorld.is_configuration());
    assert!(!PlotError::SingularWorld.describe().is_empty());
}
