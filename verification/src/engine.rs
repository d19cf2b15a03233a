//! Trusted interface to the CPU-side physics engine (rapier).
//!
//! The engine's stores, handles and values are opaque to the verifier; this
//! module declares the types the body-set construction walks through and
//! wraps the few engine calls it makes. Every scalar read out of the engine
//! is handed to the verified code as its IEEE-754 bit pattern, so the
//! encoding logic itself never touches a float.

use vstd::prelude::*;

use rapier3d::dynamics::{RigidBody, RigidBodyHandle, RigidBodySet};
use rapier3d::geometry::{Collider, ColliderHandle, ColliderSet, SharedShape};
use rapier3d::math::Pose;
use rapier3d::prelude::MassProperties;

use crate::math::{PackedMat3, PackedVec3, PackedVec4};

verus! {

/// The engine's rigid-body store.
#[verifier::external_type_specification]
#[verifier::external_body]
pub struct ExRigidBodySet(RigidBodySet);

/// The engine's collider store.
#[verifier::external_type_specification]
#[verifier::external_body]
pub struct ExColliderSet(ColliderSet);

/// Handle of one rigid-body inside a [`RigidBodySet`].
#[verifier::external_type_specification]
#[verifier::external_body]
pub struct ExRigidBodyHandle(RigidBodyHandle);

/// Handle of one collider inside a [`ColliderSet`].
#[verifier::external_type_specification]
#[verifier::external_body]
pub struct ExColliderHandle(ColliderHandle);

/// One rigid-body of the engine.
#[verifier::external_type_specification]
#[verifier::external_body]
pub struct ExRigidBody(RigidBody);

/// One collider of the engine.
#[verifier::external_type_specification]
#[verifier::external_body]
pub struct ExCollider(Collider);

/// A shared, type-erased collision shape of the engine.
#[verifier::external_type_specification]
#[verifier::external_body]
pub struct ExSharedShape(SharedShape);

/// The engine's mass-properties value (center of mass, inverse mass,
/// principal inverse angular inertia and its local frame).
#[verifier::external_type_specification]
#[verifier::external_body]
pub struct ExMassProperties(MassProperties);

/// The engine's rigid transformation (rotation + translation).
#[verifier::external_type_specification]
#[verifier::external_body]
pub struct ExPose(Pose);

/// The body `RigidBodySet::get` answers for this store and handle.
pub uninterp spec fn spec_body_at(bodies: &RigidBodySet, handle: RigidBodyHandle) -> Option<
    RigidBody,
>;

/// The collider `ColliderSet::get` answers for this store and handle.
pub uninterp spec fn spec_collider_at(colliders: &ColliderSet, handle: ColliderHandle) -> Option<
    Collider,
>;

/// Whether `RigidBody::is_dynamic` reports the body as force-driven.
pub uninterp spec fn spec_is_dynamic(body: &RigidBody) -> bool;

/// The world-space pose `RigidBody::position` returns.
pub uninterp spec fn spec_position(body: &RigidBody) -> Pose;

/// The shape handle `Collider::shared_shape` returns.
pub uninterp spec fn spec_shared_shape(collider: &Collider) -> SharedShape;

/// The mass properties `MassProperties::transform_by` computes.
pub uninterp spec fn spec_transform_by(mprops: &MassProperties, m: &Pose) -> MassProperties;

/// Relies on `RigidBodySet::get`: looks the handle up in the store, a
/// deterministic read of the store's contents.
pub assume_specification[ RigidBodySet::get ](
    bodies: &RigidBodySet,
    handle: RigidBodyHandle,
) -> (r: Option<&RigidBody>)
    ensures
        (r is Some) == (spec_body_at(bodies, handle) is Some),
        r matches Some(b) ==> *b == spec_body_at(bodies, handle).unwrap(),
;

/// Relies on `ColliderSet::get`: looks the handle up in the store, a
/// deterministic read of the store's contents.
pub assume_specification[ ColliderSet::get ](
    colliders: &ColliderSet,
    handle: ColliderHandle,
) -> (r: Option<&Collider>)
    ensures
        (r is Some) == (spec_collider_at(colliders, handle) is Some),
        r matches Some(c) ==> *c == spec_collider_at(colliders, handle).unwrap(),
;

/// Relies on `RigidBody::is_dynamic`: whether the body is force-driven
/// (as opposed to fixed or kinematic), a deterministic read of the body.
pub assume_specification[ RigidBody::is_dynamic ](body: &RigidBody) -> (r: bool)
    ensures
        r == spec_is_dynamic(body),
;

/// Relies on `RigidBody::position`: the body's current world-space pose, a
/// deterministic read of the body.
pub assume_specification[ RigidBody::position ](body: &RigidBody) -> (r: &Pose)
    ensures
        *r == spec_position(body),
;

/// Relies on `Collider::shared_shape`: the collider's shape handle, a
/// deterministic read of the collider.
pub assume_specification[ Collider::shared_shape ](collider: &Collider) -> (r: &SharedShape)
    ensures
        *r == spec_shared_shape(collider),
;

/// Relies on `MassProperties::transform_by`: the same mass properties
/// expressed after the given transformation; pure float math, a function
/// of its two arguments alone.
pub assume_specification[ MassProperties::transform_by ](
    mprops: &MassProperties,
    m: &Pose,
) -> (r: MassProperties)
    ensures
        r == spec_transform_by(mprops, m),
;

/// The linear-velocity bit patterns `RigidBody::linvel` yields.
pub uninterp spec fn spec_linvel_bits(body: &RigidBody) -> PackedVec3;

/// The angular-velocity bit patterns `RigidBody::angvel` yields.
pub uninterp spec fn spec_angvel_bits(body: &RigidBody) -> PackedVec3;

/// The rest-pose mass properties read through `RigidBody::mass_properties`.
pub uninterp spec fn spec_local_mass_properties(body: &RigidBody) -> MassProperties;

/// The (translation, rotation quaternion) bit patterns of a pose.
pub uninterp spec fn spec_pose_bits(pose: &Pose) -> (PackedVec3, PackedVec4);

/// Relies on `RigidBody::linvel`: snapshot of the linear velocity,
/// converted to component bit patterns; a deterministic read of the body.
#[verifier::external_body]
pub fn body_linvel_bits(body: &RigidBody) -> (r: PackedVec3)
    ensures
        r == spec_linvel_bits(body),
{
    let v = body.linvel();
    PackedVec3 { x: v.x.to_bits(), y: v.y.to_bits(), z: v.z.to_bits() }
}

/// Relies on `RigidBody::angvel`: snapshot of the angular velocity,
/// converted to component bit patterns; a deterministic read of the body.
#[verifier::external_body]
pub fn body_angvel_bits(body: &RigidBody) -> (r: PackedVec3)
    ensures
        r == spec_angvel_bits(body),
{
    let v = body.angvel();
    PackedVec3 { x: v.x.to_bits(), y: v.y.to_bits(), z: v.z.to_bits() }
}

/// Relies on the public `local_mprops` field of the value returned by
/// `RigidBody::mass_properties`: the body's rest-pose mass properties, a
/// deterministic read of the body.
#[verifier::external_body]
pub fn body_local_mass_properties(body: &RigidBody) -> (r: MassProperties)
    ensures
        r == spec_local_mass_properties(body),
{
    body.mass_properties().local_mprops
}

/// Converts a pose into (translation, rotation quaternion) component bit
/// patterns, reading the public `translation` and `rotation` fields; a
/// function of the pose alone.
#[verifier::external_body]
pub fn pose_bits(pose: &Pose) -> (r: (PackedVec3, PackedVec4))
    ensures
        r == spec_pose_bits(pose),
{
    let t = pose.translation;
    let q = pose.rotation;
    (
        PackedVec3 { x: t.x.to_bits(), y: t.y.to_bits(), z: t.z.to_bits() },
        PackedVec4 { x: q.x.to_bits(), y: q.y.to_bits(), z: q.z.to_bits(), w: q.w.to_bits() },
    )
}

/// What the GPU encoding reads of an engine mass-properties value, as plain
/// bit patterns: the scalar inverse mass, the reconstructed inverse angular
/// inertia matrix, and the center of mass.
#[derive(Copy, Clone, Debug, PartialEq, Eq, Structural)]
pub struct EngineMassProps {
    /// Bit pattern of the scalar inverse mass.
    pub inv_mass: u32,
    /// The inverse angular-inertia matrix, by columns.
    pub inv_inertia: PackedMat3,
    /// The center of mass in local coordinates.
    pub com: PackedVec3,
}

/// The bit-pattern flattening of an engine mass-properties value.
pub uninterp spec fn spec_mass_properties_bits(mp: &MassProperties) -> EngineMassProps;

/// Relies on `MassProperties::reconstruct_inverse_inertia_matrix` and on
/// the public `inv_mass` and `local_com` fields: the mass-properties value
/// flattened to plain bit patterns; pure float math, a function of the
/// value alone.
#[verifier::external_body]
pub fn mass_properties_bits(mp: &MassProperties) -> (r: EngineMassProps)
    ensures
        r == spec_mass_properties_bits(mp),
{
    let m = mp.reconstruct_inverse_inertia_matrix();
    EngineMassProps {
        inv_mass: mp.inv_mass.to_bits(),
        inv_inertia: PackedMat3 {
            c0: PackedVec3 { x: m.x_axis.x.to_bits(), y: m.x_axis.y.to_bits(), z: m.x_axis.z.to_bits() },
            c1: PackedVec3 { x: m.y_axis.x.to_bits(), y: m.y_axis.y.to_bits(), z: m.y_axis.z.to_bits() },
            c2: PackedVec3 { x: m.z_axis.x.to_bits(), y: m.z_axis.y.to_bits(), z: m.z_axis.z.to_bits() },
        },
        com: PackedVec3 { x: mp.local_com.x.to_bits(), y: mp.local_com.y.to_bits(), z: mp.local_com.z.to_bits() },
    }
}

/// What `dyn Shape::as_ball` answers for this shape: `Some` with the
/// radius bit pattern exactly when the concrete shape is a ball.
pub uninterp spec fn spec_as_ball(shape: &SharedShape) -> Option<u32>;

/// What `dyn Shape::as_cuboid` answers: `Some` with the half-extent bit
/// patterns exactly when the concrete shape is a cuboid.
pub uninterp spec fn spec_as_cuboid(shape: &SharedShape) -> Option<PackedVec3>;

/// What `dyn Shape::as_capsule` answers: `Some` with the segment endpoints
/// and radius bit patterns exactly when the concrete shape is a capsule.
pub uninterp spec fn spec_as_capsule(shape: &SharedShape) -> Option<(PackedVec3, PackedVec3, u32)>;

/// What `dyn Shape::as_cone` answers: `Some` with the half-height and
/// base-radius bit patterns exactly when the concrete shape is a cone.
pub uninterp spec fn spec_as_cone(shape: &SharedShape) -> Option<(u32, u32)>;

/// What `dyn Shape::as_cylinder` answers: `Some` with the half-height and
/// radius bit patterns exactly when the concrete shape is a cylinder.
pub uninterp spec fn spec_as_cylinder(shape: &SharedShape) -> Option<(u32, u32)>;

/// What `dyn Shape::as_polyline` + `Polyline::vertices` answer: `Some`
/// with the vertex bit patterns, in the polyline's own order, exactly when
/// the concrete shape is a polyline.
pub uninterp spec fn spec_as_polyline_vertices(shape: &SharedShape) -> Option<Seq<PackedVec3>>;

/// What `dyn Shape::as_trimesh` + `TriMesh::vertices` answer: `Some` with
/// the vertex bit patterns, in the mesh's own order, exactly when the
/// concrete shape is a triangle mesh.
pub uninterp spec fn spec_as_trimesh_vertices(shape: &SharedShape) -> Option<Seq<PackedVec3>>;

/// What `dyn Shape::as_heightfield` + `HeightField::to_trimesh` answer:
/// `Some` with the vertices of the heightfield's triangle-mesh
/// discretization exactly when the concrete shape is a heightfield.
pub uninterp spec fn spec_as_heightfield_trimesh_vertices(shape: &SharedShape) -> Option<
    Seq<PackedVec3>,
>;

/// Relies on parry's `dyn Shape::as_ball` (through the shape handle's
/// deref), an `Any` downcast: `Some` with the radius bit pattern iff the
/// shape is a ball; a function of the shape alone.
#[verifier::external_body]
pub fn shape_as_ball(shape: &SharedShape) -> (r: Option<u32>)
    ensures
        r == spec_as_ball(shape),
{
    shape.as_ball().map(|b| b.radius.to_bits())
}

/// Relies on parry's `dyn Shape::as_cuboid`: `Some` with the half-extents
/// bit patterns iff the shape is a cuboid; a function of the shape alone.
#[verifier::external_body]
pub fn shape_as_cuboid(shape: &SharedShape) -> (r: Option<PackedVec3>)
    ensures
        r == spec_as_cuboid(shape),
{
    shape.as_cuboid().map(|c| PackedVec3 {
        x: c.half_extents.x.to_bits(),
        y: c.half_extents.y.to_bits(),
        z: c.half_extents.z.to_bits(),
    })
}

/// Relies on parry's `dyn Shape::as_capsule`: `Some` with the two segment
/// endpoints and the radius, as bit patterns, iff the shape is a capsule;
/// a function of the shape alone.
#[verifier::external_body]
pub fn shape_as_capsule(shape: &SharedShape) -> (r: Option<(PackedVec3, PackedVec3, u32)>)
    ensures
        r == spec_as_capsule(shape),
{
    shape.as_capsule().map(|c| (
        PackedVec3 { x: c.segment.a.x.to_bits(), y: c.segment.a.y.to_bits(), z: c.segment.a.z.to_bits() },
        PackedVec3 { x: c.segment.b.x.to_bits(), y: c.segment.b.y.to_bits(), z: c.segment.b.z.to_bits() },
        c.radius.to_bits(),
    ))
}

/// Relies on parry's `dyn Shape::as_cone`: `Some` with the half-height and
/// base-radius bit patterns iff the shape is a cone; a function of the
/// shape alone.
#[verifier::external_body]
pub fn shape_as_cone(shape: &SharedShape) -> (r: Option<(u32, u32)>)
    ensures
        r == spec_as_cone(shape),
{
    shape.as_cone().map(|c| (c.half_height.to_bits(), c.radius.to_bits()))
}

/// Relies on parry's `dyn Shape::as_cylinder`: `Some` with the half-height
/// and radius bit patterns iff the shape is a cylinder; a function of the
/// shape alone.
#[verifier::external_body]
pub fn shape_as_cylinder(shape: &SharedShape) -> (r: Option<(u32, u32)>)
    ensures
        r == spec_as_cylinder(shape),
{
    shape.as_cylinder().map(|c| (c.half_height.to_bits(), c.radius.to_bits()))
}

/// Relies on parry's `dyn Shape::as_polyline` and `Polyline::vertices`:
/// `Some` with the vertex positions, as bit patterns and in the polyline's
/// own order, iff the shape is a polyline; a function of the shape alone.
#[verifier::external_body]
pub fn shape_as_polyline_vertices(shape: &SharedShape) -> (r: Option<Vec<PackedVec3>>)
    ensures
        (r is Some) == (spec_as_polyline_vertices(shape) is Some),
        r matches Some(v) ==> Some(v@) == spec_as_polyline_vertices(shape),
{
    shape.as_polyline().map(|p| {
        p.vertices().iter().map(|v| PackedVec3 {
            x: v.x.to_bits(), y: v.y.to_bits(), z: v.z.to_bits(),
        }).collect()
    })
}

/// Relies on parry's `dyn Shape::as_trimesh` and `TriMesh::vertices`:
/// `Some` with the vertex positions, as bit patterns and in the mesh's own
/// order, iff the shape is a triangle mesh; a function of the shape alone.
#[verifier::external_body]
pub fn shape_as_trimesh_vertices(shape: &SharedShape) -> (r: Option<Vec<PackedVec3>>)
    ensures
        (r is Some) == (spec_as_trimesh_vertices(shape) is Some),
        r matches Some(v) ==> Some(v@) == spec_as_trimesh_vertices(shape),
{
    shape.as_trimesh().map(|t| {
        t.vertices().iter().map(|v| PackedVec3 {
            x: v.x.to_bits(), y: v.y.to_bits(), z: v.z.to_bits(),
        }).collect()
    })
}

/// Relies on parry's `dyn Shape::as_heightfield` and
/// `HeightField::to_trimesh`: `Some` with the vertices of the heightfield's
/// triangle-mesh discretization, as bit patterns, iff the shape is a
/// heightfield; a function of the shape alone. This tessellation is a
/// lossy, intentional approximation: heightfields have no native GPU
/// encoding.
#[verifier::external_body]
pub fn shape_as_heightfield_trimesh_vertices(shape: &SharedShape) -> (r: Option<Vec<PackedVec3>>)
    ensures
        (r is Some) == (spec_as_heightfield_trimesh_vertices(shape) is Some),
        r matches Some(v) ==> Some(v@) == spec_as_heightfield_trimesh_vertices(shape),
{
    shape.as_heightfield().map(|h| {
        let (vtx, _) = h.to_trimesh();
        vtx.iter().map(|v| PackedVec3 {
            x: v.x.to_bits(), y: v.y.to_bits(), z: v.z.to_bits(),
        }).collect()
    })
}

} // verus!
