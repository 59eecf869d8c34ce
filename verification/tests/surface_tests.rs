use surface_plot::cring;
use surface_plot::mesh::MeshGenerator;
use surface_plot::sampled::SampledSurface;
use surface_plot::surface::LinearSurface;
use surface_plot::surface::Rational;

#[test]
fn liveness_probe_answers() {
    assert_eq!(cring(), "cringe");
}

#[test]
fn rational_accepts_the_unit_domain() {
    assert!(Rational::new(-3, 3).is_some());
    assert!(Rational::new(0, 1).is_some());
    assert!(Rational::new(3, 3).is_some());
    let c = Rational::new(-2, 5).unwrap();
    assert_eq!((c.num, c.den), (-2, 5));
}

#[test]
fn rational_rejects_out_of_domain() {
    assert!(Rational::new(1, 0).is_none());
    assert!(Rational::new(4, 3).is_none());
    assert!(Rational::new(-4, 3).is_none());
    assert!(Rational::new(0, 70_000).is_none());
}

#[test]
fn linear_surface_rejects_oversized_parameters() {
    assert!(LinearSurface::new(1_000_000_000_001, 0, 0).is_none());
    assert!(LinearSurface::new(0, -1_000_000_000_001, 0).is_none());
    assert!(LinearSurface::new(0, 0, 1_000_000_000_001).is_none());
    assert!(LinearSurface::new(1_000_000_000_000, -1_000_000_000_000, 0).is_some());
}

#[test]
fn linear_surface_evaluates_exactly() {
    // f(x, y) = x on a 3 x 3 grid: heights follow the column.
    let surface = LinearSurface::new(1_000_000, 0, 0).unwrap();
    let gen = MeshGenerator::new(surface, 3, false).unwrap();
    let mesh = gen.generate();
    let expected = [
        -1_000_000, 0, 1_000_000, -1_000_000, 0, 1_000_000, -1_000_000, 0, 1_000_000,
    ];
    for (vertex, want) in mesh.positions.iter().zip(expected) {
        assert_eq!(vertex.height, want);
    }
}

#[test]
fn sampled_surface_requires_full_tables() {
    assert!(SampledSurface::new(0, vec![1], vec![(0, 0)]).is_none());
    assert!(SampledSurface::new(1, vec![1, 2, 3], vec![(0, 0); 4]).is_none());
    assert!(SampledSurface::new(1, vec![1, 2, 3, 4], vec![(0, 0); 3]).is_none());
    assert!(SampledSurface::new(256, vec![0; 66049], vec![(0, 0); 66049]).is_none());
    assert!(SampledSurface::new(1, vec![1, 2, 3, 4], vec![(0, 0); 4]).is_some());
}

#[test]
fn sampled_surface_rejects_oversized_gradients() {
    let too_steep = vec![(0, 0), (1_000_000_000_001, 0), (0, 0), (0, 0)];
    assert!(SampledSurface::new(1, vec![0; 4], too_steep).is_none());
}

#[test]
fn sampled_surface_feeds_tables_through_in_order() {
    // Row-major tables land on row-major samples unchanged.
    let heights = vec![10, 20, 30, 40];
    let gradients = vec![(1, -1), (2, -2), (3, -3), (4, -4)];
    let surface = SampledSurface::new(1, heights, gradients).unwrap();
    let gen = MeshGenerator::new(surface, 2, false).unwrap();
    let mesh = gen.generate();
    let got: Vec<i64> = mesh.positions.iter().map(|v| v.height).collect();
    assert_eq!(got, vec![10, 20, 30, 40]);
    // Normals carry the negated tabulated gradient.
    assert_eq!((mesh.normals[2].x, mesh.normals[2].z), (-3, 3));
    assert_eq!(mesh.normals[2].y, 1_000_000);
}
