use nexus::body::{
    BodyCoupling, BodyCouplingEntry, BodyDesc, GpuBodySet, GpuMassProperties, GpuVelocity,
};
use nexus::integrate::integrate_dispatch_size;
use nexus::math::{GpuSim, PackedVec3, PackedVec4};
use nexus::shapes::{GpuShapeType, ShapeBuffers};
use rapier3d::dynamics::{RigidBodyBuilder, RigidBodySet};
use rapier3d::geometry::{ColliderBuilder, ColliderSet, SharedShape};
use rapier3d::math::Vector;
use rapier3d::prelude::MassProperties;

fn bits3(x: f32, y: f32, z: f32) -> PackedVec3 {
    PackedVec3 { x: x.to_bits(), y: y.to_bits(), z: z.to_bits() }
}

#[test]
fn build_reports_cardinality() {
    let descriptors = vec![BodyDesc::default(); 3];
    let set = GpuBodySet::new(&descriptors, &[], &ShapeBuffers::new());
    assert_eq!(set.len(), 3);
    assert!(!set.is_empty());
    assert_eq!(set.mprops().len(), 3);
    assert_eq!(set.local_mprops().len(), 3);
    assert_eq!(set.vels().len(), 3);
    assert_eq!(set.poses().len(), 3);
    assert_eq!(set.shapes().len(), 3);
    assert_eq!(set.shapes_data().len(), 3);
    assert_eq!(set.shapes_vertex_buffers().len(), 0);
    assert_eq!(set.shapes_local_vertex_buffers().len(), 0);
    assert_eq!(set.shapes_vertex_collider_id().len(), 0);
}

#[test]
fn build_preserves_descriptor_order() {
    let mut first = BodyDesc::default();
    first.shape = nexus::shapes::GpuShape::ball(1.0f32.to_bits());
    first.vel.linear = bits3(1.0, 0.0, 0.0);
    let mut second = BodyDesc::default();
    second.shape = nexus::shapes::GpuShape::ball(2.0f32.to_bits());
    second.vel.linear = bits3(2.0, 0.0, 0.0);
    let set = GpuBodySet::new(&[first, second], &[], &ShapeBuffers::new());
    assert_eq!(set.shapes()[0], first.shape);
    assert_eq!(set.shapes()[1], second.shape);
    assert_eq!(set.vels()[0], first.vel);
    assert_eq!(set.vels()[1], second.vel);
    assert_eq!(set.mprops()[0], first.mprops);
    assert_eq!(set.poses()[1], second.pose);
    assert_eq!(set.shapes_data(), set.shapes().as_slice());
}

#[test]
fn build_from_empty_list_succeeds() {
    let set = GpuBodySet::new(&[], &[], &ShapeBuffers::new());
    assert_eq!(set.len(), 0);
    assert!(set.is_empty());
    assert_eq!(set.mprops().len(), 0);
}

#[test]
fn coupling_policy_two_ways_dynamic_keeps_mass() {
    let local = GpuMassProperties::default();
    let world = GpuMassProperties::default();
    let desc = BodyDesc::with_coupling(
        true,
        BodyCoupling::TwoWays,
        local,
        world,
        GpuVelocity::zero(),
        GpuSim::identity(),
        nexus::shapes::GpuShape::ball(1.0f32.to_bits()),
    );
    assert_eq!(desc.local_mprops, local);
    assert_eq!(desc.mprops, world);
}

#[test]
fn coupling_policy_one_way_zeroes_mass() {
    let local = GpuMassProperties::default();
    let world = GpuMassProperties::default();
    let desc = BodyDesc::with_coupling(
        true,
        BodyCoupling::OneWay,
        local,
        world,
        GpuVelocity::zero(),
        GpuSim::identity(),
        nexus::shapes::GpuShape::ball(1.0f32.to_bits()),
    );
    assert_eq!(desc.local_mprops, GpuMassProperties::zero());
    assert_eq!(desc.mprops, GpuMassProperties::zero());
}

#[test]
fn coupling_policy_non_dynamic_zeroes_mass() {
    let desc = BodyDesc::with_coupling(
        false,
        BodyCoupling::TwoWays,
        GpuMassProperties::default(),
        GpuMassProperties::default(),
        GpuVelocity::zero(),
        GpuSim::identity(),
        nexus::shapes::GpuShape::ball(1.0f32.to_bits()),
    );
    assert_eq!(desc.local_mprops, GpuMassProperties::zero());
    assert_eq!(desc.mprops, GpuMassProperties::zero());
}

#[test]
fn scenario_dynamic_two_ways_keeps_inverse_mass() {
    let mut bodies = RigidBodySet::new();
    let mut colliders = ColliderSet::new();
    let rb = RigidBodyBuilder::dynamic()
        .additional_mass_properties(MassProperties::new(
            Vector::new(0.0, 0.0, 0.0),
            2.0,
            Vector::new(1.0, 1.0, 1.0),
        ))
        .build();
    let body = bodies.insert(rb);
    let collider = colliders.insert_with_parent(
        ColliderBuilder::ball(2.0).density(0.0).build(),
        body,
        &mut bodies,
    );
    bodies
        .get_mut(body)
        .unwrap()
        .recompute_mass_properties_from_colliders(&colliders);
    let coupling = [BodyCouplingEntry { body, collider, mode: BodyCoupling::TwoWays }];
    let set = GpuBodySet::from_rapier(&bodies, &colliders, &coupling).unwrap();
    assert_eq!(set.len(), 1);
    assert_eq!(set.mprops()[0].inv_mass, bits3(0.5, 0.5, 0.5));
    assert_eq!(set.local_mprops()[0].inv_mass, bits3(0.5, 0.5, 0.5));
    assert_eq!(set.shapes()[0].shape_type(), GpuShapeType::Ball);
}

#[test]
fn scenario_kinematic_two_ways_is_zero_mass() {
    let mut bodies = RigidBodySet::new();
    let mut colliders = ColliderSet::new();
    let rb = RigidBodyBuilder::kinematic_position_based()
        .additional_mass_properties(MassProperties::new(
            Vector::new(0.0, 0.0, 0.0),
            2.0,
            Vector::new(1.0, 1.0, 1.0),
        ))
        .build();
    let body = bodies.insert(rb);
    let collider = colliders.insert_with_parent(
        ColliderBuilder::ball(1.0).build(),
        body,
        &mut bodies,
    );
    let coupling = [BodyCouplingEntry { body, collider, mode: BodyCoupling::TwoWays }];
    let set = GpuBodySet::from_rapier(&bodies, &colliders, &coupling).unwrap();
    assert_eq!(set.len(), 1);
    assert_eq!(set.mprops()[0], GpuMassProperties::zero());
    assert_eq!(set.local_mprops()[0], GpuMassProperties::zero());
}

#[test]
fn dynamic_one_way_is_zero_mass() {
    let mut bodies = RigidBodySet::new();
    let mut colliders = ColliderSet::new();
    let body = bodies.insert(RigidBodyBuilder::dynamic().build());
    let collider = colliders.insert_with_parent(
        ColliderBuilder::ball(1.0).build(),
        body,
        &mut bodies,
    );
    let coupling = [BodyCouplingEntry { body, collider, mode: BodyCoupling::OneWay }];
    let set = GpuBodySet::from_rapier(&bodies, &colliders, &coupling).unwrap();
    assert_eq!(set.mprops()[0], GpuMassProperties::zero());
    assert_eq!(set.local_mprops()[0], GpuMassProperties::zero());
}

#[test]
fn snapshot_of_velocity_and_pose() {
    let mut bodies = RigidBodySet::new();
    let mut colliders = ColliderSet::new();
    let rb = RigidBodyBuilder::dynamic()
        .translation(Vector::new(7.0, 8.0, 9.0))
        .linvel(Vector::new(1.0, 2.0, 3.0))
        .angvel(Vector::new(4.0, 5.0, 6.0))
        .build();
    let body = bodies.insert(rb);
    let collider = colliders.insert_with_parent(
        ColliderBuilder::ball(1.0).build(),
        body,
        &mut bodies,
    );
    let coupling = [BodyCouplingEntry { body, collider, mode: BodyCoupling::TwoWays }];
    let set = GpuBodySet::from_rapier(&bodies, &colliders, &coupling).unwrap();
    assert_eq!(set.vels()[0].linear, bits3(1.0, 2.0, 3.0));
    assert_eq!(set.vels()[0].angular, bits3(4.0, 5.0, 6.0));
    let pose = &set.poses()[0];
    assert_eq!(pose.translation, bits3(7.0, 8.0, 9.0));
    assert_eq!(
        pose.rotation,
        PackedVec4 {
            x: 0.0f32.to_bits(),
            y: 0.0f32.to_bits(),
            z: 0.0f32.to_bits(),
            w: 1.0f32.to_bits(),
        }
    );
    assert_eq!(pose.scale, 1.0f32.to_bits());
}

#[test]
fn vertex_owner_map_follows_insertion_order() {
    let mut bodies = RigidBodySet::new();
    let mut colliders = ColliderSet::new();
    let body0 = bodies.insert(RigidBodyBuilder::fixed().build());
    let shape0 = SharedShape::polyline(
        vec![
            Vector::new(0.0, 0.0, 0.0),
            Vector::new(1.0, 0.0, 0.0),
            Vector::new(2.0, 0.0, 0.0),
        ],
        None,
    );
    let collider0 = colliders.insert_with_parent(
        ColliderBuilder::new(shape0).build(),
        body0,
        &mut bodies,
    );
    let body1 = bodies.insert(RigidBodyBuilder::fixed().build());
    let shape1 = SharedShape::polyline(
        vec![Vector::new(3.0, 0.0, 0.0), Vector::new(4.0, 0.0, 0.0)],
        None,
    );
    let collider1 = colliders.insert_with_parent(
        ColliderBuilder::new(shape1).build(),
        body1,
        &mut bodies,
    );
    let coupling = [
        BodyCouplingEntry { body: body0, collider: collider0, mode: BodyCoupling::TwoWays },
        BodyCouplingEntry { body: body1, collider: collider1, mode: BodyCoupling::TwoWays },
    ];
    let set = GpuBodySet::from_rapier(&bodies, &colliders, &coupling).unwrap();
    assert_eq!(set.len(), 2);
    assert_eq!(set.shapes()[0].polyline_rngs(), [0, 3]);
    assert_eq!(set.shapes()[1].polyline_rngs(), [3, 5]);
    assert_eq!(set.shapes_vertex_buffers().len(), 5);
    assert_eq!(
        set.shapes_local_vertex_buffers().as_slice(),
        set.shapes_vertex_buffers().as_slice()
    );
    assert_eq!(set.shapes_vertex_collider_id(), &vec![0u32, 0, 0, 1, 1]);
    assert_eq!(set.shapes_data(), set.shapes().as_slice());
}

#[test]
fn from_rapier_empty_coupling() {
    let bodies = RigidBodySet::new();
    let colliders = ColliderSet::new();
    let set = GpuBodySet::from_rapier(&bodies, &colliders, &[]).unwrap();
    assert_eq!(set.len(), 0);
    assert!(set.is_empty());
}

#[test]
fn from_rapier_unknown_handle_fails() {
    let mut other_bodies = RigidBodySet::new();
    let mut other_colliders = ColliderSet::new();
    let body = other_bodies.insert(RigidBodyBuilder::dynamic().build());
    let collider = other_colliders.insert_with_parent(
        ColliderBuilder::ball(1.0).build(),
        body,
        &mut other_bodies,
    );
    let bodies = RigidBodySet::new();
    let colliders = ColliderSet::new();
    let coupling = [BodyCouplingEntry { body, collider, mode: BodyCoupling::TwoWays }];
    assert!(GpuBodySet::from_rapier(&bodies, &colliders, &coupling).is_none());
}

#[test]
fn defaults_match_documented_values() {
    assert_eq!(BodyCoupling::default(), BodyCoupling::TwoWays);
    let vel = GpuVelocity::default();
    assert_eq!(vel, GpuVelocity::zero());
    assert_eq!(vel.linear, bits3(0.0, 0.0, 0.0));
    let mprops = GpuMassProperties::default();
    assert_eq!(mprops.inv_mass, bits3(1.0, 1.0, 1.0));
    assert_eq!(mprops.inv_inertia.c0, bits3(1.0, 0.0, 0.0));
    assert_eq!(mprops.inv_inertia.c1, bits3(0.0, 1.0, 0.0));
    assert_eq!(mprops.inv_inertia.c2, bits3(0.0, 0.0, 1.0));
    let desc = BodyDesc::default();
    assert_eq!(desc.shape.shape_type(), GpuShapeType::Cuboid);
    assert_eq!(f32::from_bits(desc.shape.a.x), 0.5);
    assert_eq!(desc.pose, GpuSim::identity());
    assert_eq!(f32::from_bits(desc.pose.scale), 1.0);
}

#[test]
fn dispatch_size_is_one_item_per_body() {
    let descriptors = vec![BodyDesc::default(); 4];
    let set = GpuBodySet::new(&descriptors, &[], &ShapeBuffers::new());
    assert_eq!(integrate_dispatch_size(&set), [4, 1, 1]);
    let empty = GpuBodySet::new(&[], &[], &ShapeBuffers::new());
    assert_eq!(integrate_dispatch_size(&empty), [0, 1, 1]);
}

#[test]
fn zero_mass_properties_are_all_zero_bits() {
    let zero = GpuMassProperties::zero();
    assert_eq!(zero.inv_mass, bits3(0.0, 0.0, 0.0));
    assert_eq!(zero.com, bits3(0.0, 0.0, 0.0));
    assert_eq!(zero.inv_inertia.c0, bits3(0.0, 0.0, 0.0));
    assert_eq!(zero.inv_inertia.c1, bits3(0.0, 0.0, 0.0));
    assert_eq!(zero.inv_inertia.c2, bits3(0.0, 0.0, 0.0));
}
