//! GPU-compatible shape representations.
//!
//! A collision primitive is encoded into a fixed-size record of two
//! 4-component lanes, with the shape-type tag stored as an integer bit
//! pattern in the `w` component of the first lane. Variable-length shapes
//! (polylines, triangle meshes) keep their geometry in a shared append-only
//! vertex pool and store a `[start, end)` index range into it instead.

use vstd::prelude::*;

use rapier3d::geometry::SharedShape;

use crate::engine;
use crate::math::{PackedVec3, PackedVec4};

verus! {

/// GPU shape type identifiers.
///
/// The numeric tag of each variant (see [`spec_tag_value`]) must match the
/// type constants used by the GPU-side shape interpretation code.
#[derive(Copy, Clone, Debug, PartialEq, Eq, Structural)]
pub enum GpuShapeType {
    /// Spherical shape.
    Ball,
    /// Rectangular box shape.
    Cuboid,
    /// Capsule shape (line segment with rounded ends).
    Capsule,
    /// Conical shape.
    Cone,
    /// Cylindrical shape.
    Cylinder,
    /// Polyline shape (connected line segments).
    Polyline,
    /// Triangle mesh shape.
    TriMesh,
}

/// The numeric tag stored in the shape record for each shape type.
pub open spec fn spec_tag_value(t: GpuShapeType) -> u32 {
    match t {
        GpuShapeType::Ball => 0,
        GpuShapeType::Cuboid => 1,
        GpuShapeType::Capsule => 2,
        GpuShapeType::Cone => 3,
        GpuShapeType::Cylinder => 4,
        GpuShapeType::Polyline => 5,
        GpuShapeType::TriMesh => 6,
    }
}

/// The shape type denoted by a stored tag, or `None` for a bit pattern that
/// is not a member of the closed tag enumeration.
pub open spec fn spec_tag_type(tag: u32) -> Option<GpuShapeType> {
    if tag == 0 {
        Some(GpuShapeType::Ball)
    } else if tag == 1 {
        Some(GpuShapeType::Cuboid)
    } else if tag == 2 {
        Some(GpuShapeType::Capsule)
    } else if tag == 3 {
        Some(GpuShapeType::Cone)
    } else if tag == 4 {
        Some(GpuShapeType::Cylinder)
    } else if tag == 5 {
        Some(GpuShapeType::Polyline)
    } else if tag == 6 {
        Some(GpuShapeType::TriMesh)
    } else {
        None
    }
}

/// A stored tag is valid when it denotes a member of the tag enumeration.
pub open spec fn valid_tag(tag: u32) -> bool {
    spec_tag_type(tag) is Some
}

/// The tag enumeration is injective: distinct shape types never encode to
/// the same numeric tag, so a decoded tag identifies its constructor
/// unambiguously.
pub proof fn lemma_tag_injective(t1: GpuShapeType, t2: GpuShapeType)
    ensures
        spec_tag_value(t1) == spec_tag_value(t2) ==> t1 == t2,
{
}

/// Encoding a shape type and decoding the stored tag round-trips for every
/// member of the enumeration.
pub proof fn lemma_tag_round_trip(t: GpuShapeType)
    ensures
        spec_tag_type(spec_tag_value(t)) == Some(t),
{
}

/// The numeric tag stored in the shape record for a shape type.
pub fn tag_value(t: GpuShapeType) -> (r: u32)
    ensures
        r == spec_tag_value(t),
{
    match t {
        GpuShapeType::Ball => 0,
        GpuShapeType::Cuboid => 1,
        GpuShapeType::Capsule => 2,
        GpuShapeType::Cone => 3,
        GpuShapeType::Cylinder => 4,
        GpuShapeType::Polyline => 5,
        GpuShapeType::TriMesh => 6,
    }
}

/// Storage for shape vertex data.
///
/// Accumulates vertices of complex shapes (polylines, triangle meshes)
/// during conversion from engine shapes. Shapes reference `[start, end)`
/// ranges within this pool; because appends are sequential, the ranges of
/// successively converted shapes are contiguous and never overlap.
#[derive(Clone, Debug)]
pub struct ShapeBuffers {
    /// Vertex positions for all complex shapes.
    pub vertices: Vec<PackedVec3>,
}

impl Default for ShapeBuffers {
    /// An empty vertex pool.
    fn default() -> (r: ShapeBuffers)
        ensures
            r.vertices@ == Seq::<PackedVec3>::empty(),
    {
        ShapeBuffers { vertices: Vec::new() }
    }
}

impl ShapeBuffers {
    /// An empty vertex pool.
    pub fn new() -> (r: ShapeBuffers)
        ensures
            r.vertices@ == Seq::<PackedVec3>::empty(),
    {
        ShapeBuffers { vertices: Vec::new() }
    }

    /// Append a run of vertices to the pool and hand back the `[start, end)`
    /// index range they now occupy. Appends never disturb earlier entries,
    /// so ranges handed out by successive calls are contiguous and ordered.
    pub fn append_vertices(&mut self, vertices: &[PackedVec3]) -> (rng: [u32; 2])
        requires
            old(self).vertices@.len() + vertices@.len() <= u32::MAX,
        ensures
            final(self).vertices@ == old(self).vertices@ + vertices@,
            rng[0] == old(self).vertices@.len(),
            rng[1] == final(self).vertices@.len(),
    {
        let start: u32 = self.vertices.len() as u32;
        let mut i: usize = 0;
        while i < vertices.len()
            invariant
                i <= vertices@.len(),
                old(self).vertices@.len() + vertices@.len() <= u32::MAX,
                self.vertices@ == old(self).vertices@ + vertices@.subrange(0, i as int),
            decreases vertices@.len() - i,
        {
            self.vertices.push(vertices[i]);
            assert(vertices@.subrange(0, i + 1 as int)
                == vertices@.subrange(0, i as int).push(vertices@[i as int]));
            i = i + 1;
        }
        assert(vertices@.subrange(0, vertices@.len() as int) =~= vertices@);
        let end: u32 = self.vertices.len() as u32;
        [start, end]
    }
}

/// Start of the `i`-th vertex range when runs of the given lengths are
/// appended back-to-back onto a pool that already holds `base` vertices.
///
/// The `i`-th appended run occupies the range
/// `[pool_offset(base, lens, i), pool_offset(base, lens, i + 1))`, so
/// consecutive ranges are contiguous by definition:
/// `pool_offset(base, lens, i + 1) == pool_offset(base, lens, i) + lens[i]`.
pub open spec fn pool_offset(base: nat, lens: Seq<nat>, i: int) -> nat
    decreases i,
{
    if i <= 0 {
        base
    } else {
        pool_offset(base, lens, i - 1) + lens[i - 1]
    }
}

/// Range starts are monotone in insertion order: appending runs
/// back-to-back into one shared pool yields ranges strictly ordered by
/// insertion order.
pub proof fn lemma_range_monotonicity(base: nat, lens: Seq<nat>, i: int, j: int)
    requires
        0 <= i <= j <= lens.len(),
    ensures
        pool_offset(base, lens, i) <= pool_offset(base, lens, j),
    decreases j - i,
{
    if i < j {
        lemma_range_monotonicity(base, lens, i, j - 1);
    }
}

/// Ranges of distinct appended runs never overlap: in insertion order, the
/// earlier run's range ends no later than the later run's range begins
/// (and exactly where it begins when the runs are adjacent).
pub proof fn lemma_ranges_disjoint(base: nat, lens: Seq<nat>, i: int, j: int)
    requires
        0 <= i < j < lens.len(),
    ensures
        pool_offset(base, lens, i + 1) <= pool_offset(base, lens, j),
        pool_offset(base, lens, i) <= pool_offset(base, lens, i + 1),
{
    lemma_range_monotonicity(base, lens, i + 1, j);
}

/// GPU-compatible shape representation.
///
/// A compact, fixed-size encoding of one collision primitive suitable for
/// GPU processing. Shape data is packed into two 4-component lanes, with the
/// shape type tag stored in the `w` component of the first lane as an
/// integer bit pattern.
///
/// # Memory layout
/// - `a.xyz`: primary shape parameters (radius, half-extents, vertex range
///   start, etc.)
/// - `a.w`: shape type tag (see [`GpuShapeType`])
/// - `b.xyz`: secondary shape parameters (capsule endpoint)
/// - `b.w`: additional parameter (capsule radius)
#[derive(Copy, Clone, Debug, PartialEq, Eq, Structural)]
pub struct GpuShape {
    /// First lane: primary parameters plus the type tag in `w`.
    pub a: PackedVec4,
    /// Second lane: secondary parameters.
    pub b: PackedVec4,
}

/// The record produced by the ball constructor.
pub open spec fn spec_ball(radius: u32) -> GpuShape {
    GpuShape {
        a: PackedVec4 { x: radius, y: 0, z: 0, w: spec_tag_value(GpuShapeType::Ball) },
        b: PackedVec4 { x: 0, y: 0, z: 0, w: 0 },
    }
}

/// The record produced by the cuboid constructor.
pub open spec fn spec_cuboid(half_extents: PackedVec3) -> GpuShape {
    GpuShape {
        a: PackedVec4 {
            x: half_extents.x,
            y: half_extents.y,
            z: half_extents.z,
            w: spec_tag_value(GpuShapeType::Cuboid),
        },
        b: PackedVec4 { x: 0, y: 0, z: 0, w: 0 },
    }
}

/// The record produced by the capsule constructor.
pub open spec fn spec_capsule(a: PackedVec3, b: PackedVec3, radius: u32) -> GpuShape {
    GpuShape {
        a: PackedVec4 { x: a.x, y: a.y, z: a.z, w: spec_tag_value(GpuShapeType::Capsule) },
        b: PackedVec4 { x: b.x, y: b.y, z: b.z, w: radius },
    }
}

/// The record produced by the cone constructor.
pub open spec fn spec_cone(half_height: u32, radius: u32) -> GpuShape {
    GpuShape {
        a: PackedVec4 {
            x: half_height,
            y: radius,
            z: 0,
            w: spec_tag_value(GpuShapeType::Cone),
        },
        b: PackedVec4 { x: 0, y: 0, z: 0, w: 0 },
    }
}

/// The record produced by the cylinder constructor.
pub open spec fn spec_cylinder(half_height: u32, radius: u32) -> GpuShape {
    GpuShape {
        a: PackedVec4 {
            x: half_height,
            y: radius,
            z: 0,
            w: spec_tag_value(GpuShapeType::Cylinder),
        },
        b: PackedVec4 { x: 0, y: 0, z: 0, w: 0 },
    }
}

/// The record produced by the polyline constructor.
pub open spec fn spec_polyline(start: u32, end: u32) -> GpuShape {
    GpuShape {
        a: PackedVec4 { x: start, y: end, z: 0, w: spec_tag_value(GpuShapeType::Polyline) },
        b: PackedVec4 { x: 0, y: 0, z: 0, w: 0 },
    }
}

/// The record produced by the triangle-mesh constructor.
pub open spec fn spec_trimesh(start: u32, end: u32) -> GpuShape {
    GpuShape {
        a: PackedVec4 { x: start, y: end, z: 0, w: spec_tag_value(GpuShapeType::TriMesh) },
        b: PackedVec4 { x: 0, y: 0, z: 0, w: 0 },
    }
}

impl GpuShape {
    /// Create a ball shape.
    ///
    /// `radius` is the bit pattern of the ball's radius; it lands unchanged
    /// in `a.x`.
    pub fn ball(radius: u32) -> (s: GpuShape)
        ensures
            s == spec_ball(radius),
    {
        GpuShape {
            a: PackedVec4 { x: radius, y: 0, z: 0, w: 0 },
            b: PackedVec4 { x: 0, y: 0, z: 0, w: 0 },
        }
    }

    /// Create a cuboid shape from its half-extents.
    pub fn cuboid(half_extents: PackedVec3) -> (s: GpuShape)
        ensures
            s == spec_cuboid(half_extents),
    {
        GpuShape {
            a: PackedVec4 { x: half_extents.x, y: half_extents.y, z: half_extents.z, w: 1 },
            b: PackedVec4 { x: 0, y: 0, z: 0, w: 0 },
        }
    }

    /// Create a capsule shape from the two endpoints of its central segment
    /// and its radius.
    pub fn capsule(a: PackedVec3, b: PackedVec3, radius: u32) -> (s: GpuShape)
        ensures
            s == spec_capsule(a, b, radius),
    {
        GpuShape {
            a: PackedVec4 { x: a.x, y: a.y, z: a.z, w: 2 },
            b: PackedVec4 { x: b.x, y: b.y, z: b.z, w: radius },
        }
    }

    /// Create a cone shape from its half-height and base radius.
    pub fn cone(half_height: u32, radius: u32) -> (s: GpuShape)
        ensures
            s == spec_cone(half_height, radius),
    {
        GpuShape {
            a: PackedVec4 { x: half_height, y: radius, z: 0, w: 3 },
            b: PackedVec4 { x: 0, y: 0, z: 0, w: 0 },
        }
    }

    /// Create a cylinder shape from its half-height and radius.
    pub fn cylinder(half_height: u32, radius: u32) -> (s: GpuShape)
        ensures
            s == spec_cylinder(half_height, radius),
    {
        GpuShape {
            a: PackedVec4 { x: half_height, y: radius, z: 0, w: 4 },
            b: PackedVec4 { x: 0, y: 0, z: 0, w: 0 },
        }
    }

    /// Create a polyline shape from a `[start, end)` vertex range.
    ///
    /// The vertices must already exist in a [`ShapeBuffers`] instance; the
    /// range indices land unchanged in `a.x` and `a.y`.
    pub fn polyline(vertex_range: [u32; 2]) -> (s: GpuShape)
        ensures
            s == spec_polyline(vertex_range[0], vertex_range[1]),
    {
        GpuShape {
            a: PackedVec4 { x: vertex_range[0], y: vertex_range[1], z: 0, w: 5 },
            b: PackedVec4 { x: 0, y: 0, z: 0, w: 0 },
        }
    }

    /// Create a triangle-mesh shape from a `[start, end)` vertex range.
    ///
    /// The vertices must already exist in a [`ShapeBuffers`] instance; the
    /// range indices land unchanged in `a.x` and `a.y`.
    pub fn trimesh(vertex_range: [u32; 2]) -> (s: GpuShape)
        ensures
            s == spec_trimesh(vertex_range[0], vertex_range[1]),
    {
        GpuShape {
            a: PackedVec4 { x: vertex_range[0], y: vertex_range[1], z: 0, w: 6 },
            b: PackedVec4 { x: 0, y: 0, z: 0, w: 0 },
        }
    }

    /// Decode the stored type tag, or report `None` for a bit pattern
    /// outside the closed tag enumeration (corrupted or mis-constructed
    /// data).
    pub fn try_shape_type(&self) -> (t: Option<GpuShapeType>)
        ensures
            t == spec_tag_type(self.a.w),
    {
        let tag = self.a.w;
        if tag == 0 {
            Some(GpuShapeType::Ball)
        } else if tag == 1 {
            Some(GpuShapeType::Cuboid)
        } else if tag == 2 {
            Some(GpuShapeType::Capsule)
        } else if tag == 3 {
            Some(GpuShapeType::Cone)
        } else if tag == 4 {
            Some(GpuShapeType::Cylinder)
        } else if tag == 5 {
            Some(GpuShapeType::Polyline)
        } else if tag == 6 {
            Some(GpuShapeType::TriMesh)
        } else {
            None
        }
    }

    /// Decode the stored type tag.
    ///
    /// An invalid tag bit pattern can only arise from corrupted or
    /// mis-constructed data, so callers must establish tag validity; use
    /// [`GpuShape::try_shape_type`] to test unvetted data.
    pub fn shape_type(&self) -> (t: GpuShapeType)
        requires
            valid_tag(self.a.w),
        ensures
            spec_tag_type(self.a.w) == Some(t),
    {
        let tag = self.a.w;
        if tag == 0 {
            GpuShapeType::Ball
        } else if tag == 1 {
            GpuShapeType::Cuboid
        } else if tag == 2 {
            GpuShapeType::Capsule
        } else if tag == 3 {
            GpuShapeType::Cone
        } else if tag == 4 {
            GpuShapeType::Cylinder
        } else if tag == 5 {
            GpuShapeType::Polyline
        } else {
            GpuShapeType::TriMesh
        }
    }

    /// The vertex range of a polyline shape.
    ///
    /// Valid only for a record whose tag is [`GpuShapeType::Polyline`]:
    /// under any other tag the same lanes carry unrelated parameters, so
    /// decoding them as a range is a contract violation; use
    /// [`GpuShape::try_polyline_rngs`] to test unvetted data.
    pub fn polyline_rngs(&self) -> (rng: [u32; 2])
        requires
            spec_tag_type(self.a.w) == Some(GpuShapeType::Polyline),
        ensures
            rng[0] == self.a.x,
            rng[1] == self.a.y,
    {
        [self.a.x, self.a.y]
    }

    /// The vertex range of a triangle-mesh shape.
    ///
    /// Valid only for a record whose tag is [`GpuShapeType::TriMesh`]; see
    /// [`GpuShape::polyline_rngs`].
    pub fn trimesh_rngs(&self) -> (rng: [u32; 2])
        requires
            spec_tag_type(self.a.w) == Some(GpuShapeType::TriMesh),
        ensures
            rng[0] == self.a.x,
            rng[1] == self.a.y,
    {
        [self.a.x, self.a.y]
    }

    /// The vertex range of a polyline shape, or `None` when the stored tag
    /// is anything else: a request to decode a range under the wrong tag is
    /// rejected, never answered with unrelated lane contents.
    pub fn try_polyline_rngs(&self) -> (r: Option<[u32; 2]>)
        ensures
            spec_tag_type(self.a.w) == Some(GpuShapeType::Polyline) ==> (r matches Some(rng)
                && rng[0] == self.a.x && rng[1] == self.a.y),
            spec_tag_type(self.a.w) != Some(GpuShapeType::Polyline) ==> r is None,
    {
        if self.a.w == 5 {
            Some([self.a.x, self.a.y])
        } else {
            None
        }
    }

    /// The vertex range of a triangle-mesh shape, or `None` when the stored
    /// tag is anything else; see [`GpuShape::try_polyline_rngs`].
    pub fn try_trimesh_rngs(&self) -> (r: Option<[u32; 2]>)
        ensures
            spec_tag_type(self.a.w) == Some(GpuShapeType::TriMesh) ==> (r matches Some(rng)
                && rng[0] == self.a.x && rng[1] == self.a.y),
            spec_tag_type(self.a.w) != Some(GpuShapeType::TriMesh) ==> r is None,
    {
        if self.a.w == 6 {
            Some([self.a.x, self.a.y])
        } else {
            None
        }
    }
}

/// Every shape constructor round-trips: the encoded record decodes to the
/// constructor's own tag, and polyline and triangle-mesh records return
/// exactly the vertex range they were built from.
pub proof fn lemma_constructor_round_trip(
    radius: u32,
    half_extents: PackedVec3,
    pa: PackedVec3,
    pb: PackedVec3,
    half_height: u32,
    start: u32,
    end: u32,
)
    ensures
        spec_tag_type(spec_ball(radius).a.w) == Some(GpuShapeType::Ball),
        spec_tag_type(spec_cuboid(half_extents).a.w) == Some(GpuShapeType::Cuboid),
        spec_tag_type(spec_capsule(pa, pb, radius).a.w) == Some(GpuShapeType::Capsule),
        spec_tag_type(spec_cone(half_height, radius).a.w) == Some(GpuShapeType::Cone),
        spec_tag_type(spec_cylinder(half_height, radius).a.w) == Some(GpuShapeType::Cylinder),
        spec_tag_type(spec_polyline(start, end).a.w) == Some(GpuShapeType::Polyline),
        spec_tag_type(spec_trimesh(start, end).a.w) == Some(GpuShapeType::TriMesh),
        spec_polyline(start, end).a.x == start && spec_polyline(start, end).a.y == end,
        spec_trimesh(start, end).a.x == start && spec_trimesh(start, end).a.y == end,
{
}

/// A collision primitive described by plain values, ready for encoding.
///
/// This is what the encoding pipeline reads of an engine shape: scalar
/// parameters as bit patterns, and the full vertex list for variable-length
/// shapes (a heightfield arrives as the vertices of its triangle-mesh
/// discretization).
pub enum ShapeInput {
    /// A ball, by its radius.
    Ball {
        /// Radius bit pattern.
        radius: u32,
    },
    /// A cuboid, by its half-extents.
    Cuboid {
        /// Half-extent bit patterns.
        half_extents: PackedVec3,
    },
    /// A capsule, by the endpoints of its central segment and its radius.
    Capsule {
        /// First endpoint of the central segment.
        a: PackedVec3,
        /// Second endpoint of the central segment.
        b: PackedVec3,
        /// Radius bit pattern.
        radius: u32,
    },
    /// A cone, by its half-height and base radius.
    Cone {
        /// Half-height bit pattern.
        half_height: u32,
        /// Base radius bit pattern.
        radius: u32,
    },
    /// A cylinder, by its half-height and radius.
    Cylinder {
        /// Half-height bit pattern.
        half_height: u32,
        /// Radius bit pattern.
        radius: u32,
    },
    /// A polyline, by its vertices.
    Polyline {
        /// The vertex positions, in order.
        vertices: Vec<PackedVec3>,
    },
    /// A triangle mesh, by its vertices.
    TriMesh {
        /// The vertex positions, in order.
        vertices: Vec<PackedVec3>,
    },
}

impl ShapeInput {
    /// The vertices this primitive appends to the shared pool: its vertex
    /// list for variable-length shapes, nothing for fixed-size ones.
    pub open spec fn spec_vertices(self) -> Seq<PackedVec3> {
        match self {
            ShapeInput::Polyline { vertices } => vertices@,
            ShapeInput::TriMesh { vertices } => vertices@,
            _ => Seq::empty(),
        }
    }

    /// The record this primitive encodes to, given the `[start, end)`
    /// vertex range its vertices occupy in the shared pool.
    pub open spec fn spec_encoded(self, start: u32, end: u32) -> GpuShape {
        match self {
            ShapeInput::Ball { radius } => spec_ball(radius),
            ShapeInput::Cuboid { half_extents } => spec_cuboid(half_extents),
            ShapeInput::Capsule { a, b, radius } => spec_capsule(a, b, radius),
            ShapeInput::Cone { half_height, radius } => spec_cone(half_height, radius),
            ShapeInput::Cylinder { half_height, radius } => spec_cylinder(half_height, radius),
            ShapeInput::Polyline { .. } => spec_polyline(start, end),
            ShapeInput::TriMesh { .. } => spec_trimesh(start, end),
        }
    }
}

/// Result of appending a vertex run to the pool and encoding the
/// referencing record: the encoded range record and the grown pool when
/// the run fits below the range lanes' capacity, `None` with the pool
/// untouched when it does not.
pub open spec fn spec_append_encode(
    pool: Seq<PackedVec3>,
    vertices: Seq<PackedVec3>,
    polyline: bool,
) -> (Option<GpuShape>, Seq<PackedVec3>) {
    if pool.len() + vertices.len() <= u32::MAX {
        let start = pool.len() as u32;
        let end = (pool.len() + vertices.len()) as u32;
        if polyline {
            (Some(spec_polyline(start, end)), pool + vertices)
        } else {
            (Some(spec_trimesh(start, end)), pool + vertices)
        }
    } else {
        (None, pool)
    }
}

/// The exact outcome of converting an engine shape against a pool: the
/// record (or `None` for an unrecognized kind or an oversized vertex run)
/// and the pool afterwards. Kinds are tried in the conversion's dispatch
/// order: ball, cuboid, capsule, polyline, triangle mesh, heightfield
/// (encoded as its triangle-mesh discretization), cone, cylinder.
pub open spec fn spec_encode_shared_shape(
    shape: &SharedShape,
    pool: Seq<PackedVec3>,
) -> (Option<GpuShape>, Seq<PackedVec3>) {
    if engine::spec_as_ball(shape) is Some {
        (Some(spec_ball(engine::spec_as_ball(shape).unwrap())), pool)
    } else if engine::spec_as_cuboid(shape) is Some {
        (Some(spec_cuboid(engine::spec_as_cuboid(shape).unwrap())), pool)
    } else if engine::spec_as_capsule(shape) is Some {
        let (a, b, radius) = engine::spec_as_capsule(shape).unwrap();
        (Some(spec_capsule(a, b, radius)), pool)
    } else if engine::spec_as_polyline_vertices(shape) is Some {
        spec_append_encode(pool, engine::spec_as_polyline_vertices(shape).unwrap(), true)
    } else if engine::spec_as_trimesh_vertices(shape) is Some {
        spec_append_encode(pool, engine::spec_as_trimesh_vertices(shape).unwrap(), false)
    } else if engine::spec_as_heightfield_trimesh_vertices(shape) is Some {
        spec_append_encode(
            pool,
            engine::spec_as_heightfield_trimesh_vertices(shape).unwrap(),
            false,
        )
    } else if engine::spec_as_cone(shape) is Some {
        let (half_height, radius) = engine::spec_as_cone(shape).unwrap();
        (Some(spec_cone(half_height, radius)), pool)
    } else if engine::spec_as_cylinder(shape) is Some {
        let (half_height, radius) = engine::spec_as_cylinder(shape).unwrap();
        (Some(spec_cylinder(half_height, radius)), pool)
    } else {
        (None, pool)
    }
}

/// Whether a record stores a vertex range: true exactly for polyline and
/// triangle-mesh records.
pub open spec fn is_range_shape(s: GpuShape) -> bool {
    spec_tag_type(s.a.w) == Some(GpuShapeType::Polyline) || spec_tag_type(s.a.w) == Some(
        GpuShapeType::TriMesh,
    )
}

/// A polyline or triangle-mesh record only ever references pool entries
/// below the given pool length; any other record references none at all.
pub open spec fn shape_range_in_bounds(s: GpuShape, n_vertices: int) -> bool {
    is_range_shape(s) ==> (s.a.x <= s.a.y && s.a.y <= n_vertices)
}

impl GpuShape {
    /// Encode one primitive, appending its vertices (if any) to the shared
    /// pool and referencing the `[start, end)` range they were given.
    pub fn from_input(input: &ShapeInput, buffers: &mut ShapeBuffers) -> (s: GpuShape)
        requires
            old(buffers).vertices@.len() + input.spec_vertices().len() <= u32::MAX,
        ensures
            final(buffers).vertices@ == old(buffers).vertices@ + input.spec_vertices(),
            s == input.spec_encoded(
                old(buffers).vertices@.len() as u32,
                final(buffers).vertices@.len() as u32,
            ),
    {
        proof {
            assert(old(buffers).vertices@ + Seq::<PackedVec3>::empty() =~= old(
                buffers,
            ).vertices@);
        }
        match input {
            ShapeInput::Ball { radius } => GpuShape::ball(*radius),
            ShapeInput::Cuboid { half_extents } => GpuShape::cuboid(*half_extents),
            ShapeInput::Capsule { a, b, radius } => GpuShape::capsule(*a, *b, *radius),
            ShapeInput::Cone { half_height, radius } => GpuShape::cone(*half_height, *radius),
            ShapeInput::Cylinder { half_height, radius } => GpuShape::cylinder(
                *half_height,
                *radius,
            ),
            ShapeInput::Polyline { vertices } => {
                let rng = buffers.append_vertices(vertices.as_slice());
                GpuShape::polyline(rng)
            },
            ShapeInput::TriMesh { vertices } => {
                let rng = buffers.append_vertices(vertices.as_slice());
                GpuShape::trimesh(rng)
            },
        }
    }

    /// Convert an engine shape to its GPU encoding.
    ///
    /// For variable-length shapes (polylines, triangle meshes,
    /// heightfields), vertex data is appended to `buffers` and the record
    /// references the appended range. Heightfields have no native GPU
    /// encoding and are approximated by their triangle-mesh discretization:
    /// a lossy, intentional substitution.
    ///
    /// Returns `None` for an unrecognized shape kind ("unsupported", not an
    /// error: the caller decides whether to skip or fail), or when the
    /// appended vertices would push the pool past the range indices'
    /// capacity; in both cases the pool is left untouched.
    pub fn from_parry(shape: &SharedShape, buffers: &mut ShapeBuffers) -> (r: Option<GpuShape>)
        ensures
            r == spec_encode_shared_shape(shape, old(buffers).vertices@).0,
            final(buffers).vertices@ == spec_encode_shared_shape(shape, old(buffers).vertices@).1,
            r is None ==> final(buffers).vertices@ == old(buffers).vertices@,
            r matches Some(s) ==> {
                &&& valid_tag(s.a.w)
                &&& old(buffers).vertices@.is_prefix_of(final(buffers).vertices@)
                &&& shape_range_in_bounds(s, final(buffers).vertices@.len() as int)
                &&& is_range_shape(s) ==> (s.a.x == old(buffers).vertices@.len() && s.a.y
                    == final(buffers).vertices@.len())
                &&& !is_range_shape(s) ==> final(buffers).vertices@ == old(buffers).vertices@
            },
    {
        if let Some(radius) = engine::shape_as_ball(shape) {
            return Some(GpuShape::ball(radius));
        }
        if let Some(half_extents) = engine::shape_as_cuboid(shape) {
            return Some(GpuShape::cuboid(half_extents));
        }
        if let Some((a, b, radius)) = engine::shape_as_capsule(shape) {
            return Some(GpuShape::capsule(a, b, radius));
        }
        if let Some(vertices) = engine::shape_as_polyline_vertices(shape) {
            if buffers.vertices.len() <= u32::MAX as usize && vertices.len() <= u32::MAX as usize
                - buffers.vertices.len() {
                let input = ShapeInput::Polyline { vertices };
                return Some(GpuShape::from_input(&input, buffers));
            } else {
                return None;
            }
        }
        if let Some(vertices) = engine::shape_as_trimesh_vertices(shape) {
            if buffers.vertices.len() <= u32::MAX as usize && vertices.len() <= u32::MAX as usize
                - buffers.vertices.len() {
                let input = ShapeInput::TriMesh { vertices };
                return Some(GpuShape::from_input(&input, buffers));
            } else {
                return None;
            }
        }
        if let Some(vertices) = engine::shape_as_heightfield_trimesh_vertices(shape) {
            if buffers.vertices.len() <= u32::MAX as usize && vertices.len() <= u32::MAX as usize
                - buffers.vertices.len() {
                let input = ShapeInput::TriMesh { vertices };
                return Some(GpuShape::from_input(&input, buffers));
            } else {
                return None;
            }
        }
        if let Some((half_height, radius)) = engine::shape_as_cone(shape) {
            return Some(GpuShape::cone(half_height, radius));
        }
        if let Some((half_height, radius)) = engine::shape_as_cylinder(shape) {
            return Some(GpuShape::cylinder(half_height, radius));
        }
        None
    }
}

} // verus!
