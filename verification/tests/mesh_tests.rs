use surface_plot::error::PlotError;
use surface_plot::mesh::MeshGenerator;
use surface_plot::surface::FlatSurface;
use surface_plot::surface::LinearSurface;

#[test]
fn mesh_counts_match_resolution() {
    for n in [2u16, 3, 5, 16] {
        let gen = MeshGenerator::new(FlatSurface { level: 0 }, n, false).unwrap();
        let mesh = gen.generate();
        let samples = (n as usize) * (n as usize);
        let cells = (n as usize - 1) * (n as usize - 1);
        assert_eq!(mesh.positions.len(), samples);
        assert_eq!(mesh.normals.len(), samples);
        assert_eq!(mesh.indices.len(), 6 * cells);
    }
}

#[test]
fn wireframe_counts_match_resolution() {
    for n in [2u16, 3, 7] {
        let gen = MeshGenerator::new(FlatSurface { level: 0 }, n, true).unwrap();
        let mesh = gen.generate();
        assert!(mesh.wireframe);
        assert_eq!(mesh.indices.len(), 12 * (n as usize - 1) * (n as usize - 1));
    }
}

#[test]
fn indices_address_valid_samples() {
    for wireframe in [false, true] {
        let gen = MeshGenerator::new(FlatSurface { level: 3 }, 9, wireframe).unwrap();
        let mesh = gen.generate();
        let samples = mesh.positions.len() as u16;
        for &ix in &mesh.indices {
            assert!(ix < samples);
        }
    }
}

#[test]
fn triangle_indices_exact_n3() {
    let gen = MeshGenerator::new(FlatSurface { level: 0 }, 3, false).unwrap();
    let mesh = gen.generate();
    let expected: Vec<u16> = vec![
        0, 3, 1, 1, 3, 4, 1, 4, 2, 2, 4, 5, 3, 6, 4, 4, 6, 7, 4, 7, 5, 5, 7, 8,
    ];
    assert_eq!(mesh.indices, expected);
}

#[test]
fn wireframe_indices_exact_n2() {
    let gen = MeshGenerator::new(FlatSurface { level: 0 }, 2, true).unwrap();
    let mesh = gen.generate();
    let expected: Vec<u16> = vec![0, 2, 2, 1, 1, 0, 1, 2, 2, 3, 3, 1];
    assert_eq!(mesh.indices, expected);
}

#[test]
fn corner_mapping_n2() {
    let surface = LinearSurface::new(1_000_000, 500_000, 250_000).unwrap();
    let gen = MeshGenerator::new(surface, 2, false).unwrap();
    let mesh = gen.generate();

    // Sample 0 is domain (-1, +1); the last sample is domain (+1, -1).
    let first = mesh.positions[0];
    assert_eq!((first.x.num, first.x.den), (-1, 1));
    assert_eq!((first.y.num, first.y.den), (1, 1));
    // f(-1, 1) = -1 + 0.5 + 0.25 = -0.25
    assert_eq!(first.height, -250_000);

    let last = mesh.positions[3];
    assert_eq!((last.x.num, last.x.den), (1, 1));
    assert_eq!((last.y.num, last.y.den), (-1, 1));
    // f(1, -1) = 1 - 0.5 + 0.25 = 0.75
    assert_eq!(last.height, 750_000);

    // Row-major in between: sample 1 is (+1, +1), sample 2 is (-1, -1).
    assert_eq!(mesh.positions[1].height, 1_750_000);
    assert_eq!(mesh.positions[2].height, -1_250_000);
}

#[test]
fn linear_surface_normals() {
    let surface = LinearSurface::new(1_000_000, 500_000, 0).unwrap();
    let gen = MeshGenerator::new(surface, 4, false).unwrap();
    let mesh = gen.generate();
    for normal in &mesh.normals {
        assert_eq!(normal.x, -1_000_000);
        assert_eq!(normal.y, 1_000_000);
        assert_eq!(normal.z, -500_000);
    }
}

#[test]
fn end_to_end_flat_zero_surface() {
    // f(x, y) = 0 with zero gradient on a 3 x 3 grid: nine positions
    // with zero height, flat-up normals, and 2 * (3-1)^2 = 8 triangles'
    // worth of indices.
    let gen = MeshGenerator::new(FlatSurface { level: 0 }, 3, false).unwrap();
    let mesh = gen.generate();
    assert_eq!(mesh.positions.len(), 9);
    for vertex in &mesh.positions {
        assert_eq!(vertex.height, 0);
    }
    assert_eq!(mesh.indices.len(), 24);
    for normal in &mesh.normals {
        assert_eq!((normal.x, normal.y, normal.z), (0, 1_000_000, 0));
    }
}

#[test]
fn generation_is_deterministic() {
    let gen = MeshGenerator::new(FlatSurface { level: 42 }, 6, false).unwrap();
    let a = gen.generate();
    let b = gen.generate();
    assert_eq!(a.positions, b.positions);
    assert_eq!(a.normals, b.normals);
    assert_eq!(a.indices, b.indices);
}

#[test]
fn resolution_too_small_rejected() {
    for n in [0u16, 1] {
        match MeshGenerator::new(FlatSurface { level: 0 }, n, false) {
            Err(e) => assert_eq!(e, PlotError::ResolutionTooSmall),
            Ok(_) => panic!("resolution {} must be rejected", n),
        }
    }
}

#[test]
fn resolution_too_large_rejected() {
    match MeshGenerator::new(FlatSurface { level: 0 }, 257, false) {
        Err(e) => assert_eq!(e, PlotError::ResolutionTooLarge),
        Ok(_) => panic!("resolution 257 must be rejected"),
    }
    assert!(MeshGenerator::new(FlatSurface { level: 0 }, 256, false).is_ok());
}
