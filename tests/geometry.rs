use dna_helix::backbone::Backbone;
use dna_helix::base::Base;
use dna_helix::cylinder::{cylinder_vertex_count, CylinderShape, ShapeError};
use dna_helix::dna::Dna;
use dna_helix::gene::{Axis, AxisTurn, Gene, HalfPoint3, Point3, TwistDirection, Turn};
use dna_helix::mesh::{merge_gene_mesh, MeshError, PrimitiveMesh};

fn sample_gene(height: i64, segments: u32, twist: i64) -> Gene {
    Gene::new(
        1000,
        height,
        20,
        segments,
        600,
        10000,
        10,
        4,
        twist,
        Point3 { x: 0, y: 0, z: 0 },
        0,
    )
}

fn triangle(offset: f32) -> PrimitiveMesh<[f32; 3]> {
    PrimitiveMesh {
        positions: Some(vec![[offset, 0.0, 0.0], [offset, 1.0, 0.0], [offset, 0.0, 1.0]]),
        normals: Some(vec![[1.0, 0.0, 0.0]; 3]),
        indices: Some(vec![0, 1, 2]),
    }
}

#[test]
fn vertex_count_follows_ring_and_cap_formula() {
    assert_eq!(cylinder_vertex_count(20, 20), Some(481));
    assert_eq!(cylinder_vertex_count(10, 4), Some(75));
    assert_eq!(cylinder_vertex_count(3, 1), Some(14));
    assert_eq!(cylinder_vertex_count(u32::MAX, u32::MAX), None);
}

#[test]
fn cylinder_shape_accepts_valid_parameters() {
    let s = CylinderShape::new(1000, 10000, 20, 20).unwrap();
    assert_eq!(s.vertex_count(), 481);
    assert_eq!(s.radius, 1000);
    assert_eq!(s.segments, 20);
}

#[test]
fn cylinder_shape_rejects_each_bad_parameter() {
    assert_eq!(CylinderShape::new(0, 10000, 20, 20), Err(ShapeError::NonPositiveRadius));
    assert_eq!(CylinderShape::new(1000, -5, 20, 20), Err(ShapeError::NonPositiveHeight));
    assert_eq!(CylinderShape::new(1000, 10000, 2, 20), Err(ShapeError::ResolutionTooLow));
    assert_eq!(CylinderShape::new(1000, 10000, 3, 0), Err(ShapeError::NoSegments));
    assert_eq!(
        CylinderShape::new(1000, 10000, u32::MAX, 1),
        Err(ShapeError::TooManyVertices)
    );
    // the first broken rule is reported
    assert_eq!(CylinderShape::new(0, 0, 0, 0), Err(ShapeError::NonPositiveRadius));
}

#[test]
fn gene_derives_backbone_position_len() {
    let g = sample_gene(10000, 20, 30000);
    assert_eq!(g.backbone_position_len, 481);
    let g4 = sample_gene(10000, 4, 40000);
    assert_eq!(g4.backbone_position_len, 21 * 5 + 40);
    assert_eq!(g.backbone_shape(), CylinderShape::new(1000, 10000, 20, 20).unwrap());
    assert_eq!(g.base_shape(), CylinderShape::new(600, 10000, 10, 4).unwrap());
}

#[test]
fn merge_offsets_base_indices() {
    let m = merge_gene_mesh(triangle(0.0), triangle(5.0)).unwrap();
    assert_eq!(m.positions.len(), 6);
    assert_eq!(m.normals.len(), 6);
    assert_eq!(m.indices, vec![0, 1, 2, 3, 4, 5]);
    assert_eq!(m.positions[3], [5.0, 0.0, 0.0]);
    assert!(m.indices.iter().all(|&i| (i as usize) < m.positions.len()));
}

#[test]
fn merged_counts_add_up() {
    let backbone = PrimitiveMesh {
        positions: Some(vec![[0.0f32; 3]; 4]),
        normals: Some(vec![[0.0f32; 3]; 4]),
        indices: Some(vec![0, 1, 2, 2, 3, 0]),
    };
    let base = PrimitiveMesh {
        positions: Some(vec![[1.0f32; 3]; 5]),
        normals: Some(vec![[1.0f32; 3]; 5]),
        indices: Some(vec![4, 3, 2, 0, 1, 4]),
    };
    let m = merge_gene_mesh(backbone, base).unwrap();
    assert_eq!(m.positions.len(), 9);
    assert_eq!(m.indices, vec![0, 1, 2, 2, 3, 0, 8, 7, 6, 4, 5, 8]);
    assert!(m.indices.iter().all(|&i| (i as usize) < 9));
    assert_eq!(m.indices.len() % 3, 0);
}

#[test]
fn merge_reports_missing_buffers_in_order() {
    let mut a = triangle(0.0);
    a.positions = None;
    let mut b = triangle(0.0);
    b.positions = None;
    assert_eq!(merge_gene_mesh(a, b).err(), Some(MeshError::MissingBackbonePositions));

    let mut b = triangle(0.0);
    b.positions = None;
    assert_eq!(merge_gene_mesh(triangle(0.0), b).err(), Some(MeshError::MissingBasePositions));

    let mut a = triangle(0.0);
    a.normals = None;
    assert_eq!(merge_gene_mesh(a, triangle(0.0)).err(), Some(MeshError::MissingBackboneNormals));

    let mut b = triangle(0.0);
    b.normals = None;
    assert_eq!(merge_gene_mesh(triangle(0.0), b).err(), Some(MeshError::MissingBaseNormals));

    let mut a = triangle(0.0);
    a.indices = None;
    assert_eq!(merge_gene_mesh(a, triangle(0.0)).err(), Some(MeshError::MissingBackboneIndices));

    let mut b = triangle(0.0);
    b.indices = None;
    assert_eq!(merge_gene_mesh(triangle(0.0), b).err(), Some(MeshError::MissingBaseIndices));
}

#[test]
fn merge_rejects_malformed_primitive() {
    let mut b = triangle(0.0);
    b.indices = Some(vec![0, 1, 3]);
    assert_eq!(merge_gene_mesh(triangle(0.0), b).err(), Some(MeshError::MalformedPrimitive));
    let mut a = triangle(0.0);
    a.normals = Some(vec![[0.0; 3]; 2]);
    assert_eq!(merge_gene_mesh(a, triangle(0.0)).err(), Some(MeshError::MalformedPrimitive));
    let mut a = triangle(0.0);
    a.indices = Some(vec![0, 1]);
    assert_eq!(merge_gene_mesh(a, triangle(0.0)).err(), Some(MeshError::MalformedPrimitive));
}

#[test]
fn band_index_is_ceiling_of_scaled_height() {
    let g = sample_gene(10000, 4, 40000);
    assert_eq!(g.band_index(10000), 4);
    assert_eq!(g.band_index(0), 0);
    assert_eq!(g.band_index(1), 1);
    assert_eq!(g.band_index(2500), 1);
    assert_eq!(g.band_index(2501), 2);
    assert_eq!(g.band_index(-2500), -1);
    assert_eq!(g.band_index(-3000), -1);
    assert_eq!(g.band_index(-5000), -2);
}

#[test]
fn forward_twist_example_turns_forty_degrees() {
    // height 10, four segments, 40 degrees over the height: 10 degrees per band
    let g = sample_gene(10000, 4, 40000);
    let t = g.twist_around_y(10000);
    assert_eq!(t, Turn { band: 4, step: 40000, divisor: 4 });
    assert_eq!(t.step * t.band / t.divisor as i128, 40000);
}

#[test]
fn reverse_twist_cancels_forward() {
    let g = sample_gene(10000, 20, 30000);
    for y in [-5000i64, -1234, 0, 1, 4999, 5000, 123456] {
        let f = g.twist_around_y(y);
        let r = g.reverse_twist_around_y(y);
        assert_eq!(f.band, r.band);
        assert_eq!(f.divisor, r.divisor);
        assert_eq!(f.step * f.band + r.step * r.band, 0);
        assert_eq!(g.twist_turn(y, TwistDirection::Forward), f);
        assert_eq!(g.twist_turn(y, TwistDirection::Reverse), r);
    }
}

#[test]
fn helix_has_fifty_alternating_genes() {
    let genes = Dna::new(30000);
    assert_eq!(genes.len(), 50);
    for (k, g) in genes.iter().enumerate() {
        let rung = (k / 2) as i64;
        assert_eq!(g.rotate_y_degree, if k % 2 == 0 { 0 } else { 180000 });
        assert_eq!(g.transform, Point3 { x: 0, y: -120000 + 10000 * rung, z: 0 });
        assert_eq!(g.twist_degree, 30000);
        assert_eq!(g.backbone_position_len, 481);
        assert_eq!(g.base_segments, 4);
        assert_eq!(g.base_radius, 600);
    }
    assert_eq!(genes[49].transform.y, 120000);
}

#[test]
fn helix_with_any_twist_keeps_layout() {
    for twist in [0i64, -90000, 720000] {
        let genes = Dna::new(twist);
        assert_eq!(genes.len(), 50);
        assert_eq!(genes[0].transform.y, genes[1].transform.y);
        assert_eq!(genes[0].transform.y, -120000);
        assert!(genes.iter().all(|g| g.twist_degree == twist));
    }
}

#[test]
fn backbone_and_base_check_their_shapes() {
    assert_eq!(Backbone::new(1000, 10000, 20, 20), CylinderShape::new(1000, 10000, 20, 20));
    assert_eq!(Base::new(600, 10000, 10, 4).unwrap().vertex_count(), 75);
    assert_eq!(Base::new(600, 0, 10, 4), Err(ShapeError::NonPositiveHeight));
    assert_eq!(Backbone::new(1000, 10000, 20, 0), Err(ShapeError::NoSegments));
}

#[test]
fn backbone_placement_pushes_out_then_turns_about_y() {
    let genes = Dna::new(30000);
    let p = genes[3].backbone_placement();
    assert_eq!(p.shift, HalfPoint3 { x: 20000, y: -220000, z: 0 });
    assert_eq!(p.turns, vec![AxisTurn { axis: Axis::Y, degree: 180000 }]);
}

#[test]
fn base_placement_lays_rung_across_strands() {
    let g = Gene::new(1000, 10000, 20, 20, 600, 10001, 10, 4, 0, Point3 { x: 7, y: -3, z: 5 }, 180000);
    let p = g.base_placement();
    assert_eq!(p.shift, HalfPoint3 { x: 6, y: 10015, z: 10 });
    assert_eq!(
        p.turns,
        vec![
            AxisTurn { axis: Axis::Z, degree: -90000 },
            AxisTurn { axis: Axis::X, degree: -180000 },
        ]
    );
}

#[test]
fn twist_turns_follow_each_height() {
    let g = sample_gene(10000, 4, 40000);
    let heights = vec![-5000i64, 0, 2500, 2501, 10000];
    let fwd = g.twist_turns(&heights, TwistDirection::Forward);
    let bands: Vec<i128> = fwd.iter().map(|t| t.band).collect();
    assert_eq!(bands, vec![-2, 0, 1, 2, 4]);
    assert!(fwd.iter().all(|t| t.step == 40000 && t.divisor == 4));
    let rev = g.twist_turns(&heights, TwistDirection::Reverse);
    assert!(rev.iter().all(|t| t.step == -40000));
    assert!(g.twist_turns(&vec![], TwistDirection::Forward).is_empty());
}
