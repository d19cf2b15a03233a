//! Rigid-body definition and set.
//!
//! A [`GpuBodySet`] holds, for one batch of bodies, the columnar,
//! index-aligned host-side staging buffers that are uploaded to GPU-resident
//! storage: world and local mass properties, velocities, poses and shapes,
//! plus the shared shape vertex pool (staged twice, as the rest-pose "local"
//! copy and the "world" copy the simulation overwrites in place) and the
//! parallel vertex-to-collider map.

use vstd::prelude::*;

use rapier3d::dynamics::RigidBody;
use rapier3d::dynamics::RigidBodyHandle;
use rapier3d::dynamics::RigidBodySet;
use rapier3d::geometry::ColliderHandle;
use rapier3d::geometry::ColliderSet;

use crate::engine;
use crate::engine::EngineMassProps;
use crate::math::{GpuSim, PackedMat3, PackedVec3};
use crate::shapes::{is_range_shape, shape_range_in_bounds, valid_tag, GpuShape, ShapeBuffers};

verus! {

/// Linear and angular forces, with the layout consumed by the GPU kernels.
#[derive(Copy, Clone, Debug, PartialEq, Eq, Structural)]
pub struct GpuForce {
    /// The linear part of the force.
    pub linear: PackedVec3,
    /// The angular part of the force (the torque).
    pub angular: PackedVec3,
}

/// Linear and angular velocities, with the layout consumed by the GPU
/// kernels.
#[derive(Copy, Clone, Debug, PartialEq, Eq, Structural)]
pub struct GpuVelocity {
    /// The linear (translational) velocity.
    pub linear: PackedVec3,
    /// The angular (rotational) velocity.
    pub angular: PackedVec3,
}

impl GpuVelocity {
    /// The zero velocity, as a specification value.
    pub open spec fn spec_zero() -> GpuVelocity {
        GpuVelocity {
            linear: PackedVec3 { x: 0, y: 0, z: 0 },
            angular: PackedVec3 { x: 0, y: 0, z: 0 },
        }
    }

    /// The zero velocity.
    pub fn zero() -> (r: GpuVelocity)
        ensures
            r == GpuVelocity::spec_zero(),
    {
        GpuVelocity {
            linear: PackedVec3 { x: 0, y: 0, z: 0 },
            angular: PackedVec3 { x: 0, y: 0, z: 0 },
        }
    }
}

impl Default for GpuVelocity {
    /// The default velocity is the zero velocity.
    fn default() -> (r: GpuVelocity)
        ensures
            r == GpuVelocity::spec_zero(),
    {
        GpuVelocity::zero()
    }
}

/// Rigid-body mass properties, with the layout consumed by the GPU kernels:
/// inverse angular inertia, inverse mass broadcast per axis, and
/// center-of-mass offset.
#[derive(Copy, Clone, Debug, PartialEq, Eq, Structural)]
pub struct GpuMassProperties {
    /// The inverse angular-inertia tensor.
    pub inv_inertia: PackedMat3,
    /// The inverse mass, broadcast to each axis.
    pub inv_mass: PackedVec3,
    /// The center of mass.
    pub com: PackedVec3,
}

impl GpuMassProperties {
    /// The zero mass properties (infinite effective mass, no momentum
    /// exchange), as a specification value: every component is the bit
    /// pattern of `0.0`.
    pub open spec fn spec_zero() -> GpuMassProperties {
        GpuMassProperties {
            inv_inertia: PackedMat3::spec_zero(),
            inv_mass: PackedVec3 { x: 0, y: 0, z: 0 },
            com: PackedVec3 { x: 0, y: 0, z: 0 },
        }
    }

    /// The zero mass properties: zero inverse mass and zero inverse
    /// inertia, meaning the GPU side sees an immovable object.
    pub fn zero() -> (r: GpuMassProperties)
        ensures
            r == GpuMassProperties::spec_zero(),
    {
        GpuMassProperties {
            inv_inertia: PackedMat3::zero(),
            inv_mass: PackedVec3::zero(),
            com: PackedVec3::zero(),
        }
    }

    /// The default mass properties, as a specification value: unit inverse
    /// mass on every axis, identity inverse angular inertia, center of mass
    /// at the origin.
    pub open spec fn spec_default() -> GpuMassProperties {
        GpuMassProperties {
            inv_inertia: PackedMat3::spec_identity(),
            inv_mass: PackedVec3 {
                x: crate::F32_ONE_BITS,
                y: crate::F32_ONE_BITS,
                z: crate::F32_ONE_BITS,
            },
            com: PackedVec3 { x: 0, y: 0, z: 0 },
        }
    }

    /// The GPU record of an engine mass-properties snapshot, as a
    /// specification value: the inverse inertia and center of mass carry
    /// over unchanged, and the scalar inverse mass is broadcast to all
    /// three axes.
    pub open spec fn spec_from_engine(parts: EngineMassProps) -> GpuMassProperties {
        GpuMassProperties {
            inv_inertia: parts.inv_inertia,
            inv_mass: PackedVec3 { x: parts.inv_mass, y: parts.inv_mass, z: parts.inv_mass },
            com: parts.com,
        }
    }

    /// The GPU record of an engine mass-properties snapshot: the inverse
    /// inertia and center of mass carry over unchanged, and the scalar
    /// inverse mass is broadcast to all three axes.
    pub fn from_engine(parts: EngineMassProps) -> (r: GpuMassProperties)
        ensures
            r == GpuMassProperties::spec_from_engine(parts),
    {
        GpuMassProperties {
            inv_inertia: parts.inv_inertia,
            inv_mass: PackedVec3::splat(parts.inv_mass),
            com: parts.com,
        }
    }
}

impl Default for GpuMassProperties {
    /// The default mass properties: unit inverse mass on every axis,
    /// identity inverse angular inertia, center of mass at the origin.
    fn default() -> (r: GpuMassProperties)
        ensures
            r == GpuMassProperties::spec_default(),
    {
        GpuMassProperties {
            inv_inertia: PackedMat3::identity(),
            inv_mass: PackedVec3::splat(crate::F32_ONE_BITS),
            com: PackedVec3::zero(),
        }
    }
}

/// Coupling mode between an engine body and the GPU simulation.
#[derive(Copy, Clone, Debug, PartialEq, Eq, Structural)]
pub enum BodyCoupling {
    /// The body drives the GPU simulation kinematically and receives no
    /// forces back.
    OneWay,
    /// The body exchanges forces with the GPU simulation in both
    /// directions.
    TwoWays,
}

impl Default for BodyCoupling {
    /// The default coupling is two-way.
    fn default() -> (r: BodyCoupling)
        ensures
            r == BodyCoupling::TwoWays,
    {
        BodyCoupling::TwoWays
    }
}

/// Associates one engine body with one engine collider and a coupling mode:
/// the sole input describing which engine objects participate in the GPU
/// simulation, and how.
#[derive(Copy, Clone)]
pub struct BodyCouplingEntry {
    /// Handle of the rigid-body in the engine's body store.
    pub body: RigidBodyHandle,
    /// Handle of the collider in the engine's collider store.
    pub collider: ColliderHandle,
    /// How the body exchanges forces with the GPU simulation.
    pub mode: BodyCoupling,
}

/// Helper struct defining one rigid-body to be added to a [`GpuBodySet`].
#[derive(Copy, Clone, Debug, PartialEq, Eq, Structural)]
pub struct BodyDesc {
    /// The rigid-body's mass properties in local space.
    pub local_mprops: GpuMassProperties,
    /// The rigid-body's mass properties in world space.
    pub mprops: GpuMassProperties,
    /// The rigid-body's linear and angular velocities.
    pub vel: GpuVelocity,
    /// The rigid-body's world-space pose.
    pub pose: GpuSim,
    /// The rigid-body's shape.
    pub shape: GpuShape,
}

impl Default for BodyDesc {
    /// The default descriptor: default mass properties, zero velocity,
    /// identity pose, and a unit cube (half-extents of one half).
    fn default() -> (r: BodyDesc)
        ensures
            r.local_mprops == GpuMassProperties::spec_default(),
            r.mprops == GpuMassProperties::spec_default(),
            r.vel == GpuVelocity::spec_zero(),
            r.pose == GpuSim::spec_identity(),
            r.shape == crate::shapes::spec_cuboid(
                PackedVec3 {
                    x: crate::F32_HALF_BITS,
                    y: crate::F32_HALF_BITS,
                    z: crate::F32_HALF_BITS,
                },
            ),
    {
        BodyDesc {
            local_mprops: Default::default(),
            mprops: Default::default(),
            vel: GpuVelocity::zero(),
            pose: GpuSim::identity(),
            shape: GpuShape::cuboid(PackedVec3::splat(crate::F32_HALF_BITS)),
        }
    }
}

impl BodyDesc {
    /// Assemble a body descriptor, applying the coupling-mode policy.
    ///
    /// A body contributes its true mass properties only when it is dynamic
    /// and coupled two-ways; otherwise both its local and world mass
    /// properties are forced to the zero mass properties (infinite
    /// effective mass), which is the mechanism enforcing one-way coupling:
    /// the GPU side sees an immovable object regardless of the body's true
    /// mass.
    pub fn with_coupling(
        is_dynamic: bool,
        mode: BodyCoupling,
        local_mprops: GpuMassProperties,
        mprops: GpuMassProperties,
        vel: GpuVelocity,
        pose: GpuSim,
        shape: GpuShape,
    ) -> (r: BodyDesc)
        ensures
            (is_dynamic && mode == BodyCoupling::TwoWays) ==> r == (BodyDesc {
                local_mprops,
                mprops,
                vel,
                pose,
                shape,
            }),
            !(is_dynamic && mode == BodyCoupling::TwoWays) ==> r == (BodyDesc {
                local_mprops: GpuMassProperties::spec_zero(),
                mprops: GpuMassProperties::spec_zero(),
                vel,
                pose,
                shape,
            }),
    {
        let two_ways_coupling = is_dynamic && mode == BodyCoupling::TwoWays;
        if two_ways_coupling {
            BodyDesc { local_mprops, mprops, vel, pose, shape }
        } else {
            let zero = GpuMassProperties::zero();
            BodyDesc { local_mprops: zero, mprops: zero, vel, pose, shape }
        }
    }
}

/// The descriptor one coupling entry yields: velocity and pose snapshots
/// of the engine body (the pose lifted to the similarity representation
/// with the unit scale factor), the given shape record, and the mass
/// properties under the coupling policy — the body's own (local, and
/// pose-transformed world) mass properties when it is dynamic and coupled
/// two-ways, the zero mass properties otherwise.
pub open spec fn spec_body_desc(rb: RigidBody, mode: BodyCoupling, shape: GpuShape) -> BodyDesc {
    let local = GpuMassProperties::spec_from_engine(
        engine::spec_mass_properties_bits(&engine::spec_local_mass_properties(&rb)),
    );
    let world = GpuMassProperties::spec_from_engine(
        engine::spec_mass_properties_bits(
            &engine::spec_transform_by(
                &engine::spec_local_mass_properties(&rb),
                &engine::spec_position(&rb),
            ),
        ),
    );
    let pose_parts = engine::spec_pose_bits(&engine::spec_position(&rb));
    let keep = engine::spec_is_dynamic(&rb) && mode == BodyCoupling::TwoWays;
    BodyDesc {
        local_mprops: if keep {
            local
        } else {
            GpuMassProperties::spec_zero()
        },
        mprops: if keep {
            world
        } else {
            GpuMassProperties::spec_zero()
        },
        vel: GpuVelocity {
            linear: engine::spec_linvel_bits(&rb),
            angular: engine::spec_angvel_bits(&rb),
        },
        pose: GpuSim {
            translation: pose_parts.0,
            rotation: pose_parts.1,
            scale: crate::F32_ONE_BITS,
        },
        shape,
    }
}

/// The exact outcome of walking the coupling entries in order against the
/// given engine stores: the descriptor list, the shared vertex pool, and
/// the parallel vertex-to-owner map — or `None` as soon as one entry's
/// handle is not in its store, its shape has no GPU encoding, or its
/// vertex run would outgrow the range lanes' capacity.
pub open spec fn spec_build_state(
    bodies: &RigidBodySet,
    colliders: &ColliderSet,
    coupling: Seq<BodyCouplingEntry>,
) -> Option<(Seq<BodyDesc>, Seq<PackedVec3>, Seq<u32>)>
    decreases coupling.len(),
{
    if coupling.len() == 0 {
        Some((Seq::empty(), Seq::empty(), Seq::empty()))
    } else {
        match spec_build_state(bodies, colliders, coupling.drop_last()) {
            Option::None => Option::None,
            Option::Some(st) => {
                let entry = coupling.last();
                if engine::spec_collider_at(colliders, entry.collider) is Some
                    && engine::spec_body_at(bodies, entry.body) is Some {
                    let co = engine::spec_collider_at(colliders, entry.collider).unwrap();
                    let rb = engine::spec_body_at(bodies, entry.body).unwrap();
                    let enc = crate::shapes::spec_encode_shared_shape(
                        &engine::spec_shared_shape(&co),
                        st.1,
                    );
                    match enc.0 {
                        Option::None => Option::None,
                        Option::Some(shape) => Option::Some(
                            (
                                st.0.push(spec_body_desc(rb, entry.mode, shape)),
                                enc.1,
                                st.2 + Seq::new(
                                    (enc.1.len() - st.1.len()) as nat,
                                    |j: int| (coupling.len() - 1) as u32,
                                ),
                            ),
                        ),
                    }
                } else {
                    Option::None
                }
            },
        }
    }
}

/// Once the walk has failed on a prefix of the coupling entries, it fails
/// on the whole list: failure is never recovered from.
proof fn lemma_build_state_prefix_none(
    bodies: &RigidBodySet,
    colliders: &ColliderSet,
    coupling: Seq<BodyCouplingEntry>,
    i: int,
)
    requires
        0 <= i <= coupling.len(),
        spec_build_state(bodies, colliders, coupling.subrange(0, i)) is None,
    ensures
        spec_build_state(bodies, colliders, coupling) is None,
    decreases coupling.len() - i,
{
    if i == coupling.len() {
        assert(coupling.subrange(0, i) =~= coupling);
    } else {
        assert(coupling.subrange(0, i + 1).drop_last() =~= coupling.subrange(0, i));
        assert(spec_build_state(bodies, colliders, coupling.subrange(0, i + 1)) is None);
        lemma_build_state_prefix_none(bodies, colliders, coupling, i + 1);
    }
}

/// A batch of rigid-bodies staged as columnar, index-aligned buffers ready
/// for upload to GPU-resident storage.
pub struct GpuBodySet {
    len: u32,
    shapes_data: Vec<GpuShape>,
    mprops: Vec<GpuMassProperties>,
    local_mprops: Vec<GpuMassProperties>,
    vels: Vec<GpuVelocity>,
    poses: Vec<GpuSim>,
    shapes: Vec<GpuShape>,
    shapes_local_vertex_buffers: Vec<PackedVec3>,
    shapes_vertex_buffers: Vec<PackedVec3>,
    shapes_vertex_collider_id: Vec<u32>,
}

/// Copy a slice into a fresh vector.
fn copy_slice<T: Copy>(src: &[T]) -> (r: Vec<T>)
    ensures
        r@ == src@,
{
    let mut out: Vec<T> = Vec::new();
    let mut i: usize = 0;
    while i < src.len()
        invariant
            i <= src@.len(),
            out@.len() == i,
            forall|k: int| 0 <= k < i ==> out@[k] == src@[k],
        decreases src@.len() - i,
    {
        out.push(src[i]);
        i = i + 1;
    }
    proof {
        assert(out@ =~= src@);
    }
    out
}

impl GpuBodySet {
    /// Number of bodies in this set, as a specification value.
    pub closed spec fn spec_len(&self) -> u32 {
        self.len
    }

    /// The world-space mass-properties column, as a specification value.
    pub closed spec fn spec_mprops(&self) -> Seq<GpuMassProperties> {
        self.mprops@
    }

    /// The local-space mass-properties column, as a specification value.
    pub closed spec fn spec_local_mprops(&self) -> Seq<GpuMassProperties> {
        self.local_mprops@
    }

    /// The velocity column, as a specification value.
    pub closed spec fn spec_vels(&self) -> Seq<GpuVelocity> {
        self.vels@
    }

    /// The pose column, as a specification value.
    pub closed spec fn spec_poses(&self) -> Seq<GpuSim> {
        self.poses@
    }

    /// The shape column, as a specification value.
    pub closed spec fn spec_shapes(&self) -> Seq<GpuShape> {
        self.shapes@
    }

    /// The host-side copy of the shape column, as a specification value.
    pub closed spec fn spec_shapes_data(&self) -> Seq<GpuShape> {
        self.shapes_data@
    }

    /// The world-space shape vertex pool, as a specification value.
    pub closed spec fn spec_vertex_buffers(&self) -> Seq<PackedVec3> {
        self.shapes_vertex_buffers@
    }

    /// The rest-pose (local-space) shape vertex pool, as a specification
    /// value.
    pub closed spec fn spec_local_vertex_buffers(&self) -> Seq<PackedVec3> {
        self.shapes_local_vertex_buffers@
    }

    /// The vertex-to-collider map, as a specification value.
    pub closed spec fn spec_vertex_collider_id(&self) -> Seq<u32> {
        self.shapes_vertex_collider_id@
    }

    /// Well-formedness of the set: every body-indexed column holds exactly
    /// one entry per body, the host-side shape copy mirrors the shape
    /// column, the two vertex-pool copies agree, and the vertex-to-collider
    /// map parallels the vertex pool.
    pub open spec fn wf(&self) -> bool {
        &&& self.spec_mprops().len() == self.spec_len()
        &&& self.spec_local_mprops().len() == self.spec_len()
        &&& self.spec_vels().len() == self.spec_len()
        &&& self.spec_poses().len() == self.spec_len()
        &&& self.spec_shapes().len() == self.spec_len()
        &&& self.spec_shapes_data() == self.spec_shapes()
        &&& self.spec_local_vertex_buffers() == self.spec_vertex_buffers()
        &&& self.spec_vertex_collider_id().len() == self.spec_vertex_buffers().len()
    }

    /// Is this set empty?
    pub fn is_empty(&self) -> (r: bool)
        ensures
            r == (self.spec_len() == 0),
    {
        self.len == 0
    }

    /// Number of rigid-bodies in this set.
    pub fn len(&self) -> (r: u32)
        ensures
            r == self.spec_len(),
    {
        self.len
    }

    /// Stage a set of bodies as columnar buffers.
    ///
    /// The descriptor list is transposed into one column per field, in one
    /// stable pass, so every column is index-aligned with the input order;
    /// the vertex pool is staged twice (rest-pose copy and world copy) and
    /// the vertex-to-collider map is taken as given.
    pub fn new(
        bodies: &[BodyDesc],
        pt_collider_ids: &[u32],
        shape_buffers: &ShapeBuffers,
    ) -> (r: GpuBodySet)
        requires
            bodies@.len() <= u32::MAX,
            pt_collider_ids@.len() == shape_buffers.vertices@.len(),
        ensures
            r.wf(),
            r.spec_len() == bodies@.len(),
            r.spec_mprops() == bodies@.map_values(|b: BodyDesc| b.mprops),
            r.spec_local_mprops() == bodies@.map_values(|b: BodyDesc| b.local_mprops),
            r.spec_vels() == bodies@.map_values(|b: BodyDesc| b.vel),
            r.spec_poses() == bodies@.map_values(|b: BodyDesc| b.pose),
            r.spec_shapes() == bodies@.map_values(|b: BodyDesc| b.shape),
            r.spec_shapes_data() == r.spec_shapes(),
            r.spec_vertex_buffers() == shape_buffers.vertices@,
            r.spec_local_vertex_buffers() == shape_buffers.vertices@,
            r.spec_vertex_collider_id() == pt_collider_ids@,
    {
        let mut mprops: Vec<GpuMassProperties> = Vec::new();
        let mut local_mprops: Vec<GpuMassProperties> = Vec::new();
        let mut vels: Vec<GpuVelocity> = Vec::new();
        let mut poses: Vec<GpuSim> = Vec::new();
        let mut shapes: Vec<GpuShape> = Vec::new();
        let mut shapes_data: Vec<GpuShape> = Vec::new();
        let mut i: usize = 0;
        while i < bodies.len()
            invariant
                i <= bodies@.len(),
                mprops@.len() == i,
                local_mprops@.len() == i,
                vels@.len() == i,
                poses@.len() == i,
                shapes@.len() == i,
                shapes_data@.len() == i,
                forall|k: int| 0 <= k < i ==> mprops@[k] == bodies@[k].mprops,
                forall|k: int| 0 <= k < i ==> local_mprops@[k] == bodies@[k].local_mprops,
                forall|k: int| 0 <= k < i ==> vels@[k] == bodies@[k].vel,
                forall|k: int| 0 <= k < i ==> poses@[k] == bodies@[k].pose,
                forall|k: int| 0 <= k < i ==> shapes@[k] == bodies@[k].shape,
                forall|k: int| 0 <= k < i ==> shapes_data@[k] == bodies@[k].shape,
            decreases bodies@.len() - i,
        {
            let b = bodies[i];
            mprops.push(b.mprops);
            local_mprops.push(b.local_mprops);
            vels.push(b.vel);
            poses.push(b.pose);
            shapes.push(b.shape);
            shapes_data.push(b.shape);
            i = i + 1;
        }
        proof {
            assert(mprops@ =~= bodies@.map_values(|b: BodyDesc| b.mprops));
            assert(local_mprops@ =~= bodies@.map_values(|b: BodyDesc| b.local_mprops));
            assert(vels@ =~= bodies@.map_values(|b: BodyDesc| b.vel));
            assert(poses@ =~= bodies@.map_values(|b: BodyDesc| b.pose));
            assert(shapes@ =~= bodies@.map_values(|b: BodyDesc| b.shape));
            assert(shapes_data@ =~= bodies@.map_values(|b: BodyDesc| b.shape));
        }
        let shapes_local_vertex_buffers = copy_slice(shape_buffers.vertices.as_slice());
        let shapes_vertex_buffers = copy_slice(shape_buffers.vertices.as_slice());
        let shapes_vertex_collider_id = copy_slice(pt_collider_ids);
        GpuBodySet {
            len: bodies.len() as u32,
            shapes_data,
            mprops,
            local_mprops,
            vels,
            poses,
            shapes,
            shapes_local_vertex_buffers,
            shapes_vertex_buffers,
            shapes_vertex_collider_id,
        }
    }

    /// Build a body set from engine state.
    ///
    /// Coupling entries are walked in the given order, which becomes the
    /// 0-based body-index order of every column buffer. One vertex pool is
    /// shared across all entries, and for every vertex appended during an
    /// entry's shape conversion, that entry's index is recorded in the
    /// parallel vertex-to-collider map.
    ///
    /// Returns `None` when a handle is not present in its store, when a
    /// shape has no GPU encoding, or when the shared pool would outgrow the
    /// range indices' capacity: a body with no valid shape cannot be
    /// represented, and a partially converted set is never handed out.
    /// Building from an empty coupling list succeeds with a set of length
    /// zero.
    pub fn from_rapier(
        bodies: &RigidBodySet,
        colliders: &ColliderSet,
        coupling: &[BodyCouplingEntry],
    ) -> (r: Option<GpuBodySet>)
        ensures
            coupling@.len() == 0 ==> r is Some,
            (r is Some) == (coupling@.len() <= u32::MAX && spec_build_state(
                bodies,
                colliders,
                coupling@,
            ) is Some),
            r matches Some(set) ==> {
                &&& set.wf()
                &&& set.spec_len() == coupling@.len()
                &&& ({
                    let st = spec_build_state(bodies, colliders, coupling@).unwrap();
                    &&& set.spec_mprops() == st.0.map_values(|b: BodyDesc| b.mprops)
                    &&& set.spec_local_mprops() == st.0.map_values(
                        |b: BodyDesc| b.local_mprops,
                    )
                    &&& set.spec_vels() == st.0.map_values(|b: BodyDesc| b.vel)
                    &&& set.spec_poses() == st.0.map_values(|b: BodyDesc| b.pose)
                    &&& set.spec_shapes() == st.0.map_values(|b: BodyDesc| b.shape)
                    &&& set.spec_vertex_buffers() == st.1
                    &&& set.spec_local_vertex_buffers() == st.1
                    &&& set.spec_vertex_collider_id() == st.2
                })
                &&& forall|i: int|
                    0 <= i < coupling@.len() ==> (#[trigger] set.spec_poses()[i]).scale
                        == crate::F32_ONE_BITS
                &&& forall|k: int|
                    0 <= k < coupling@.len() ==> valid_tag(#[trigger] set.spec_shapes()[k].a.w)
                        && shape_range_in_bounds(
                        set.spec_shapes()[k],
                        set.spec_vertex_buffers().len() as int,
                    )
                &&& forall|j: int|
                    0 <= j < set.spec_vertex_collider_id().len()
                        ==> #[trigger] set.spec_vertex_collider_id()[j] < coupling@.len()
                &&& forall|k1: int, k2: int|
                    0 <= k1 < k2 < coupling@.len() && is_range_shape(
                        #[trigger] set.spec_shapes()[k1],
                    ) && is_range_shape(#[trigger] set.spec_shapes()[k2])
                        ==> set.spec_shapes()[k1].a.y <= set.spec_shapes()[k2].a.x
                &&& forall|k: int, j: int|
                    0 <= k < coupling@.len() && is_range_shape(#[trigger] set.spec_shapes()[k])
                        && set.spec_shapes()[k].a.x <= j < set.spec_shapes()[k].a.y
                        ==> #[trigger] set.spec_vertex_collider_id()[j] == k
            },
    {
        if coupling.len() > u32::MAX as usize {
            return None;
        }
        let mut shape_buffers = ShapeBuffers::new();
        let mut gpu_bodies: Vec<BodyDesc> = Vec::new();
        let mut pt_collider_ids: Vec<u32> = Vec::new();
        let mut co_id: usize = 0;
        while co_id < coupling.len()
            invariant
                co_id <= coupling@.len(),
                coupling@.len() <= u32::MAX,
                gpu_bodies@.len() == co_id,
                pt_collider_ids@.len() == shape_buffers.vertices@.len(),
                Some((gpu_bodies@, shape_buffers.vertices@, pt_collider_ids@))
                    == spec_build_state(bodies, colliders, coupling@.subrange(0, co_id as int)),
                forall|j: int|
                    0 <= j < pt_collider_ids@.len() ==> #[trigger] pt_collider_ids@[j]
                        < coupling@.len(),
                forall|k: int|
                    0 <= k < co_id ==> valid_tag(#[trigger] gpu_bodies@[k].shape.a.w)
                        && shape_range_in_bounds(
                        gpu_bodies@[k].shape,
                        shape_buffers.vertices@.len() as int,
                    ),
                forall|k1: int, k2: int|
                    0 <= k1 < k2 < co_id && is_range_shape(#[trigger] gpu_bodies@[k1].shape)
                        && is_range_shape(#[trigger] gpu_bodies@[k2].shape)
                        ==> gpu_bodies@[k1].shape.a.y <= gpu_bodies@[k2].shape.a.x,
                forall|k: int|
                    0 <= k < co_id ==> (#[trigger] gpu_bodies@[k].pose).scale
                        == crate::F32_ONE_BITS,
                forall|k: int, j: int|
                    0 <= k < co_id && is_range_shape(#[trigger] gpu_bodies@[k].shape)
                        && gpu_bodies@[k].shape.a.x <= j < gpu_bodies@[k].shape.a.y
                        ==> #[trigger] pt_collider_ids@[j] == k,
            decreases coupling@.len() - co_id,
        {
            proof {
                assert(coupling@.subrange(0, co_id + 1 as int).drop_last() =~= coupling@.subrange(
                    0,
                    co_id as int,
                ));
                assert(coupling@.subrange(0, co_id + 1 as int).last() == coupling@[co_id as int]);
            }
            let entry = coupling[co_id];
            let co = match colliders.get(entry.collider) {
                Some(co) => co,
                None => {
                    proof {
                        lemma_build_state_prefix_none(bodies, colliders, coupling@, co_id + 1);
                    }
                    return None;
                },
            };
            let rb = match bodies.get(entry.body) {
                Some(rb) => rb,
                None => {
                    proof {
                        lemma_build_state_prefix_none(bodies, colliders, coupling@, co_id + 1);
                    }
                    return None;
                },
            };
            let ghost prev_ids = pt_collider_ids@;
            let shape = match GpuShape::from_parry(co.shared_shape(), &mut shape_buffers) {
                Some(shape) => shape,
                None => {
                    proof {
                        lemma_build_state_prefix_none(bodies, colliders, coupling@, co_id + 1);
                    }
                    return None;
                },
            };
            while pt_collider_ids.len() < shape_buffers.vertices.len()
                invariant
                    co_id < coupling@.len(),
                    coupling@.len() <= u32::MAX,
                    prev_ids.len() <= pt_collider_ids@.len() <= shape_buffers.vertices@.len(),
                    pt_collider_ids@.subrange(0, prev_ids.len() as int) == prev_ids,
                    forall|j: int|
                        prev_ids.len() <= j < pt_collider_ids@.len()
                            ==> #[trigger] pt_collider_ids@[j] == co_id as u32,
                    forall|j: int|
                        0 <= j < pt_collider_ids@.len() ==> #[trigger] pt_collider_ids@[j]
                            < coupling@.len(),
                decreases shape_buffers.vertices@.len() - pt_collider_ids@.len(),
            {
                proof {
                    assert(pt_collider_ids@.push(co_id as u32).subrange(0, prev_ids.len() as int)
                        =~= pt_collider_ids@.subrange(0, prev_ids.len() as int));
                }
                pt_collider_ids.push(co_id as u32);
            }
            proof {
                assert(pt_collider_ids@ =~= prev_ids + Seq::new(
                    (pt_collider_ids@.len() - prev_ids.len()) as nat,
                    |j: int| co_id as u32,
                ));
            }
            let is_dynamic = rb.is_dynamic();
            let local_engine_mprops = engine::body_local_mass_properties(rb);
            let world_engine_mprops = local_engine_mprops.transform_by(rb.position());
            let local_mprops = GpuMassProperties::from_engine(
                engine::mass_properties_bits(&local_engine_mprops),
            );
            let mprops = GpuMassProperties::from_engine(
                engine::mass_properties_bits(&world_engine_mprops),
            );
            let (translation, rotation) = engine::pose_bits(rb.position());
            let pose = GpuSim::from_isometry(translation, rotation);
            let vel = GpuVelocity {
                linear: engine::body_linvel_bits(rb),
                angular: engine::body_angvel_bits(rb),
            };
            let desc = BodyDesc::with_coupling(
                is_dynamic,
                entry.mode,
                local_mprops,
                mprops,
                vel,
                pose,
                shape,
            );
            proof {
                assert(desc == spec_body_desc(
                    engine::spec_body_at(bodies, entry.body).unwrap(),
                    entry.mode,
                    shape,
                ));
                assert(Seq::new(
                    (pt_collider_ids@.len() - prev_ids.len()) as nat,
                    |j: int| co_id as u32,
                ) =~= Seq::new(
                    (pt_collider_ids@.len() - prev_ids.len()) as nat,
                    |j: int| (coupling@.subrange(0, co_id + 1 as int).len() - 1) as u32,
                ));
            }
            gpu_bodies.push(desc);
            co_id = co_id + 1;
        }
        proof {
            assert(coupling@.subrange(0, coupling@.len() as int) =~= coupling@);
        }
        Some(GpuBodySet::new(gpu_bodies.as_slice(), pt_collider_ids.as_slice(), &shape_buffers))
    }

    /// Staged buffer holding the pose of every rigid-body.
    pub fn poses(&self) -> (r: &Vec<GpuSim>)
        ensures
            r@ == self.spec_poses(),
    {
        &self.poses
    }

    /// Staged buffer holding the velocities of every rigid-body.
    pub fn vels(&self) -> (r: &Vec<GpuVelocity>)
        ensures
            r@ == self.spec_vels(),
    {
        &self.vels
    }

    /// Staged buffer holding the world-space mass properties of every
    /// rigid-body.
    pub fn mprops(&self) -> (r: &Vec<GpuMassProperties>)
        ensures
            r@ == self.spec_mprops(),
    {
        &self.mprops
    }

    /// Staged buffer holding the local-space mass properties of every
    /// rigid-body.
    pub fn local_mprops(&self) -> (r: &Vec<GpuMassProperties>)
        ensures
            r@ == self.spec_local_mprops(),
    {
        &self.local_mprops
    }

    /// Staged buffer holding the shape of every rigid-body.
    pub fn shapes(&self) -> (r: &Vec<GpuShape>)
        ensures
            r@ == self.spec_shapes(),
    {
        &self.shapes
    }

    /// Staged world-space copy of the shape vertex pool (overwritten in
    /// place by later simulation steps).
    pub fn shapes_vertex_buffers(&self) -> (r: &Vec<PackedVec3>)
        ensures
            r@ == self.spec_vertex_buffers(),
    {
        &self.shapes_vertex_buffers
    }

    /// Staged rest-pose copy of the shape vertex pool.
    pub fn shapes_local_vertex_buffers(&self) -> (r: &Vec<PackedVec3>)
        ensures
            r@ == self.spec_local_vertex_buffers(),
    {
        &self.shapes_local_vertex_buffers
    }

    /// Staged map from each vertex-pool entry to the index of the coupling
    /// entry (body/collider) owning it.
    pub fn shapes_vertex_collider_id(&self) -> (r: &Vec<u32>)
        ensures
            r@ == self.spec_vertex_collider_id(),
    {
        &self.shapes_vertex_collider_id
    }

    /// Host-side copy of the shape column.
    pub fn shapes_data(&self) -> (r: &[GpuShape])
        ensures
            r@ == self.spec_shapes_data(),
    {
        self.shapes_data.as_slice()
    }
}

} // verus!
