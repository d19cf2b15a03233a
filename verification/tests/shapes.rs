use nexus::math::{PackedVec3, PackedVec4};
use nexus::shapes::{tag_value, GpuShape, GpuShapeType, ShapeBuffers, ShapeInput};
use rapier3d::geometry::{Array2, SharedShape};
use rapier3d::math::Vector;

fn bits3(x: f32, y: f32, z: f32) -> PackedVec3 {
    PackedVec3 { x: x.to_bits(), y: y.to_bits(), z: z.to_bits() }
}

#[test]
fn scenario_ball_radius_two() {
    let s = GpuShape::ball(2.0f32.to_bits());
    assert_eq!(s.shape_type(), GpuShapeType::Ball);
    assert_eq!(f32::from_bits(s.a.x), 2.0);
    assert_eq!(s.a.w, 0);
}

#[test]
fn constructor_tags_round_trip() {
    assert_eq!(GpuShape::ball(1.0f32.to_bits()).shape_type(), GpuShapeType::Ball);
    assert_eq!(
        GpuShape::cuboid(bits3(1.0, 2.0, 3.0)).shape_type(),
        GpuShapeType::Cuboid
    );
    assert_eq!(
        GpuShape::capsule(bits3(0.0, -1.0, 0.0), bits3(0.0, 1.0, 0.0), 0.5f32.to_bits())
            .shape_type(),
        GpuShapeType::Capsule
    );
    assert_eq!(
        GpuShape::cone(1.0f32.to_bits(), 0.5f32.to_bits()).shape_type(),
        GpuShapeType::Cone
    );
    assert_eq!(
        GpuShape::cylinder(1.0f32.to_bits(), 0.5f32.to_bits()).shape_type(),
        GpuShapeType::Cylinder
    );
    assert_eq!(GpuShape::polyline([0, 0]).shape_type(), GpuShapeType::Polyline);
    assert_eq!(GpuShape::trimesh([0, 0]).shape_type(), GpuShapeType::TriMesh);
}

#[test]
fn tags_are_distinct() {
    let tags = [
        tag_value(GpuShapeType::Ball),
        tag_value(GpuShapeType::Cuboid),
        tag_value(GpuShapeType::Capsule),
        tag_value(GpuShapeType::Cone),
        tag_value(GpuShapeType::Cylinder),
        tag_value(GpuShapeType::Polyline),
        tag_value(GpuShapeType::TriMesh),
    ];
    assert_eq!(tags, [0, 1, 2, 3, 4, 5, 6]);
    for i in 0..tags.len() {
        for j in 0..tags.len() {
            if i != j {
                assert_ne!(tags[i], tags[j]);
            }
        }
    }
}

#[test]
fn cuboid_parameter_lanes() {
    let s = GpuShape::cuboid(bits3(1.0, 2.0, 3.0));
    assert_eq!(f32::from_bits(s.a.x), 1.0);
    assert_eq!(f32::from_bits(s.a.y), 2.0);
    assert_eq!(f32::from_bits(s.a.z), 3.0);
    assert_eq!(s.a.w, 1);
    assert_eq!(s.b, PackedVec4 { x: 0, y: 0, z: 0, w: 0 });
}

#[test]
fn capsule_parameter_lanes() {
    let s = GpuShape::capsule(bits3(1.0, 2.0, 3.0), bits3(4.0, 5.0, 6.0), 0.25f32.to_bits());
    assert_eq!(f32::from_bits(s.a.x), 1.0);
    assert_eq!(f32::from_bits(s.a.y), 2.0);
    assert_eq!(f32::from_bits(s.a.z), 3.0);
    assert_eq!(s.a.w, 2);
    assert_eq!(f32::from_bits(s.b.x), 4.0);
    assert_eq!(f32::from_bits(s.b.y), 5.0);
    assert_eq!(f32::from_bits(s.b.z), 6.0);
    assert_eq!(f32::from_bits(s.b.w), 0.25);
}

#[test]
fn cone_and_cylinder_parameter_lanes() {
    let cone = GpuShape::cone(1.5f32.to_bits(), 0.5f32.to_bits());
    assert_eq!(f32::from_bits(cone.a.x), 1.5);
    assert_eq!(f32::from_bits(cone.a.y), 0.5);
    let cylinder = GpuShape::cylinder(2.5f32.to_bits(), 0.75f32.to_bits());
    assert_eq!(f32::from_bits(cylinder.a.x), 2.5);
    assert_eq!(f32::from_bits(cylinder.a.y), 0.75);
}

#[test]
fn range_round_trip() {
    assert_eq!(GpuShape::polyline([4, 9]).polyline_rngs(), [4, 9]);
    assert_eq!(GpuShape::trimesh([7, 11]).trimesh_rngs(), [7, 11]);
    assert_eq!(GpuShape::polyline([4, 9]).try_polyline_rngs(), Some([4, 9]));
    assert_eq!(GpuShape::trimesh([7, 11]).try_trimesh_rngs(), Some([7, 11]));
}

#[test]
fn scenario_two_polylines_share_pool() {
    let mut pool = ShapeBuffers::new();
    let first = ShapeInput::Polyline {
        vertices: vec![bits3(0.0, 0.0, 0.0), bits3(1.0, 0.0, 0.0), bits3(2.0, 0.0, 0.0)],
    };
    let s1 = GpuShape::from_input(&first, &mut pool);
    let second = ShapeInput::Polyline {
        vertices: vec![bits3(3.0, 0.0, 0.0), bits3(4.0, 0.0, 0.0)],
    };
    let s2 = GpuShape::from_input(&second, &mut pool);
    assert_eq!(s1.polyline_rngs(), [0, 3]);
    assert_eq!(s2.polyline_rngs(), [3, 5]);
    assert_eq!(pool.vertices.len(), 5);
    assert_eq!(pool.vertices[0], bits3(0.0, 0.0, 0.0));
    assert_eq!(pool.vertices[3], bits3(3.0, 0.0, 0.0));
}

#[test]
fn scenario_range_decode_rejected_under_wrong_tag() {
    let ball = GpuShape::ball(2.0f32.to_bits());
    assert_eq!(ball.try_polyline_rngs(), None);
    assert_eq!(ball.try_trimesh_rngs(), None);
    let polyline = GpuShape::polyline([0, 3]);
    assert_eq!(polyline.try_trimesh_rngs(), None);
}

#[test]
fn invalid_tag_is_rejected() {
    let corrupt = GpuShape {
        a: PackedVec4 { x: 0, y: 0, z: 0, w: 99 },
        b: PackedVec4 { x: 0, y: 0, z: 0, w: 0 },
    };
    assert_eq!(corrupt.try_shape_type(), None);
    let valid = GpuShape::ball(1.0f32.to_bits());
    assert_eq!(valid.try_shape_type(), Some(GpuShapeType::Ball));
}

#[test]
fn from_parry_ball() {
    let mut pool = ShapeBuffers::new();
    let shape = SharedShape::ball(2.0);
    let s = GpuShape::from_parry(&shape, &mut pool).unwrap();
    assert_eq!(s.shape_type(), GpuShapeType::Ball);
    assert_eq!(f32::from_bits(s.a.x), 2.0);
    assert_eq!(pool.vertices.len(), 0);
}

#[test]
fn from_parry_fixed_size_shapes() {
    let mut pool = ShapeBuffers::new();
    let cuboid = GpuShape::from_parry(&SharedShape::cuboid(1.0, 2.0, 3.0), &mut pool).unwrap();
    assert_eq!(cuboid.shape_type(), GpuShapeType::Cuboid);
    assert_eq!(f32::from_bits(cuboid.a.x), 1.0);
    assert_eq!(f32::from_bits(cuboid.a.y), 2.0);
    assert_eq!(f32::from_bits(cuboid.a.z), 3.0);
    let capsule = GpuShape::from_parry(
        &SharedShape::capsule(Vector::new(0.0, -1.0, 0.0), Vector::new(0.0, 1.0, 0.0), 0.5),
        &mut pool,
    )
    .unwrap();
    assert_eq!(capsule.shape_type(), GpuShapeType::Capsule);
    assert_eq!(f32::from_bits(capsule.a.y), -1.0);
    assert_eq!(f32::from_bits(capsule.b.y), 1.0);
    assert_eq!(f32::from_bits(capsule.b.w), 0.5);
    let cone = GpuShape::from_parry(&SharedShape::cone(1.5, 0.5), &mut pool).unwrap();
    assert_eq!(cone.shape_type(), GpuShapeType::Cone);
    assert_eq!(f32::from_bits(cone.a.x), 1.5);
    let cylinder = GpuShape::from_parry(&SharedShape::cylinder(2.5, 0.75), &mut pool).unwrap();
    assert_eq!(cylinder.shape_type(), GpuShapeType::Cylinder);
    assert_eq!(f32::from_bits(cylinder.a.y), 0.75);
    assert_eq!(pool.vertices.len(), 0);
}

#[test]
fn from_parry_polyline_appends_vertices() {
    let mut pool = ShapeBuffers::new();
    let vertices = vec![
        Vector::new(0.0, 0.0, 0.0),
        Vector::new(1.0, 1.0, 0.0),
        Vector::new(2.0, 0.0, 0.0),
    ];
    let shape = SharedShape::polyline(vertices, None);
    let s = GpuShape::from_parry(&shape, &mut pool).unwrap();
    assert_eq!(s.shape_type(), GpuShapeType::Polyline);
    assert_eq!(s.polyline_rngs(), [0, 3]);
    assert_eq!(pool.vertices.len(), 3);
    assert_eq!(pool.vertices[1], bits3(1.0, 1.0, 0.0));
}

#[test]
fn from_parry_trimesh_appends_vertices() {
    let mut pool = ShapeBuffers::new();
    let vertices = vec![
        Vector::new(0.0, 0.0, 0.0),
        Vector::new(1.0, 0.0, 0.0),
        Vector::new(0.0, 1.0, 0.0),
    ];
    let shape = SharedShape::trimesh(vertices, vec![[0, 1, 2]]).unwrap();
    let s = GpuShape::from_parry(&shape, &mut pool).unwrap();
    assert_eq!(s.shape_type(), GpuShapeType::TriMesh);
    assert_eq!(s.trimesh_rngs(), [0, 3]);
    assert_eq!(pool.vertices.len(), 3);
}

#[test]
fn from_parry_heightfield_becomes_trimesh() {
    let mut pool = ShapeBuffers::new();
    let heights = Array2::zeros(2, 2);
    let shape = SharedShape::heightfield(heights, Vector::new(1.0, 1.0, 1.0));
    let s = GpuShape::from_parry(&shape, &mut pool).unwrap();
    assert_eq!(s.shape_type(), GpuShapeType::TriMesh);
    let rng = s.trimesh_rngs();
    assert_eq!(rng[0], 0);
    assert_eq!(rng[1] as usize, pool.vertices.len());
    assert!(pool.vertices.len() > 0);
}

#[test]
fn from_parry_unsupported_shape() {
    let mut pool = ShapeBuffers::new();
    let shape = SharedShape::segment(Vector::new(0.0, 0.0, 0.0), Vector::new(1.0, 0.0, 0.0));
    assert_eq!(GpuShape::from_parry(&shape, &mut pool), None);
    assert_eq!(pool.vertices.len(), 0);
}

#[test]
fn scalar_input_leaves_pool_untouched() {
    let mut pool = ShapeBuffers::new();
    let input = ShapeInput::Ball { radius: 1.0f32.to_bits() };
    let s = GpuShape::from_input(&input, &mut pool);
    assert_eq!(s.shape_type(), GpuShapeType::Ball);
    assert_eq!(pool.vertices.len(), 0);
}
