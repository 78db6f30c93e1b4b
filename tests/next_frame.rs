use next_frame::components::{ForceAccumulator, Mass, Pose, Velocity, World, WorldParameters};
use next_frame::integration::{next_frame_integration, next_frame_pose};
use next_frame::planar::{Planar, Vec2};
use next_frame::spatial::{Mat3, Spatial, Vec3};
use next_frame::system::{fits_tick, NextFrameSetupSystem};

fn v2(x: i64, y: i64) -> Vec2 {
    Vec2 { x, y }
}

fn v3(x: i64, y: i64, z: i64) -> Vec3 {
    Vec3 { x, y, z }
}

/// A planar world of `n` entities where entity 0 is a full dynamic body.
fn planar_body(
    n: usize,
    velocity: Velocity<Planar>,
    pose: Pose<Planar>,
    mass: Mass<Planar>,
    forces: ForceAccumulator<Planar>,
) -> World<Planar> {
    let mut w = World::<Planar>::new(n);
    w.dynamic[0] = true;
    w.masses[0] = Some(mass);
    w.poses[0] = Some(pose);
    w.next_velocities[0] = Some(velocity);
    w.next_poses[0] = Some(pose);
    w.forces[0] = Some(forces);
    w
}

fn no_forces() -> ForceAccumulator<Planar> {
    ForceAccumulator { force: v2(0, 0), torque: 0 }
}

#[test]
fn no_force_keeps_velocity_and_moves_by_it() {
    let vel = Velocity { linear: v2(3, -2), angular: 5 };
    let pose = Pose { position: v2(10, 20), rotation: 7 };
    let mass = Mass { inverse_mass: 4, inverse_inertia: 9 };
    let mut w = planar_body(1, vel, pose, mass, no_forces());
    let mut sys = NextFrameSetupSystem::<Planar>::new();
    sys.run(&mut w, &WorldParameters { gravity: v2(0, 0) }, 2);
    assert_eq!(w.next_velocities[0], Some(vel));
    assert_eq!(w.next_poses[0], Some(Pose { position: v2(16, 16), rotation: 17 }));
}

#[test]
fn constant_gravity_accumulates_over_ticks() {
    let vel = Velocity { linear: v2(1, 0), angular: 0 };
    let pose = Pose { position: v2(0, 0), rotation: 0 };
    let mass = Mass { inverse_mass: 1, inverse_inertia: 1 };
    let mut w = planar_body(1, vel, pose, mass, no_forces());
    let params = WorldParameters { gravity: v2(0, -10) };
    let mut sys = NextFrameSetupSystem::<Planar>::new();
    for _ in 0..5 {
        sys.run(&mut w, &params, 1);
        // commit the prediction as the current pose
        w.poses[0] = w.next_poses[0];
    }
    assert_eq!(w.next_velocities[0].unwrap().linear, v2(1, -50));
    // positions: sum over ticks of the velocity after each tick's step
    assert_eq!(w.poses[0].unwrap().position, v2(5, -10 - 20 - 30 - 40 - 50));
}

#[test]
fn accumulator_is_emptied() {
    let vel = Velocity { linear: v2(0, 0), angular: 0 };
    let pose = Pose { position: v2(0, 0), rotation: 0 };
    let mass = Mass { inverse_mass: 1, inverse_inertia: 1 };
    let forces = ForceAccumulator { force: v2(100, -3), torque: 9 };
    let mut w = planar_body(1, vel, pose, mass, forces);
    NextFrameSetupSystem::<Planar>::new().run(&mut w, &WorldParameters { gravity: v2(0, 0) }, 1);
    assert_eq!(w.forces[0], Some(no_forces()));
    assert_eq!(w.next_velocities[0], Some(Velocity { linear: v2(100, -3), angular: 9 }));
}

#[test]
fn non_dynamic_entity_is_untouched() {
    let vel = Velocity { linear: v2(2, 2), angular: 1 };
    let pose = Pose { position: v2(1, 1), rotation: 0 };
    let stale = Pose { position: v2(-5, -5), rotation: 3 };
    let mass = Mass { inverse_mass: 1, inverse_inertia: 1 };
    let forces = ForceAccumulator { force: v2(7, 7), torque: 7 };
    let mut w = planar_body(1, vel, pose, mass, forces);
    w.dynamic[0] = false;
    w.next_poses[0] = Some(stale);
    NextFrameSetupSystem::<Planar>::new().run(&mut w, &WorldParameters { gravity: v2(0, -1) }, 1);
    assert_eq!(w.next_velocities[0], Some(vel));
    assert_eq!(w.next_poses[0], Some(stale));
    assert_eq!(w.forces[0], Some(forces));
}

#[test]
fn massless_entity_keeps_velocity_and_forces() {
    let vel = Velocity { linear: v2(2, 2), angular: 1 };
    let pose = Pose { position: v2(1, 1), rotation: 0 };
    let mass = Mass { inverse_mass: 1, inverse_inertia: 1 };
    let forces = ForceAccumulator { force: v2(7, 7), torque: 7 };
    let mut w = planar_body(1, vel, pose, mass, forces);
    w.masses[0] = None;
    NextFrameSetupSystem::<Planar>::new().run(&mut w, &WorldParameters { gravity: v2(0, -1) }, 1);
    assert_eq!(w.next_velocities[0], Some(vel));
    assert_eq!(w.forces[0], Some(forces));
    // the pose phase still advances it by its unchanged velocity
    assert_eq!(w.next_poses[0], Some(Pose { position: v2(3, 3), rotation: 1 }));
}

#[test]
fn pose_uses_the_new_velocity() {
    let vel = Velocity { linear: v2(0, 0), angular: 0 };
    let pose = Pose { position: v2(1, 0), rotation: 0 };
    let mass = Mass { inverse_mass: 2, inverse_inertia: 3 };
    let forces = ForceAccumulator { force: v2(4, 0), torque: 1 };
    let mut w = planar_body(1, vel, pose, mass, forces);
    NextFrameSetupSystem::<Planar>::new().run(&mut w, &WorldParameters { gravity: v2(0, 0) }, 3);
    // v1 = 0 + (4 * 2) * 3 = 24; w1 = 0 + (1 * 3) * 3 = 9
    assert_eq!(w.next_velocities[0], Some(Velocity { linear: v2(24, 0), angular: 9 }));
    // position 1 + 24 * 3, not 1 + 0 * 3
    assert_eq!(w.next_poses[0], Some(Pose { position: v2(73, 0), rotation: 27 }));
}

#[test]
fn phases_run_alone_give_the_same_tick() {
    let vel = Velocity { linear: v2(0, 0), angular: 0 };
    let pose = Pose { position: v2(1, 0), rotation: 0 };
    let mass = Mass { inverse_mass: 2, inverse_inertia: 3 };
    let forces = ForceAccumulator { force: v2(4, 0), torque: 1 };
    let mut a = planar_body(1, vel, pose, mass, forces);
    let params = WorldParameters { gravity: v2(0, 0) };
    next_frame_integration(&mut a, &params, 3);
    next_frame_pose(&mut a, 3);
    assert_eq!(a.next_poses[0], Some(Pose { position: v2(73, 0), rotation: 27 }));
    // the pose phase alone uses the stale velocity
    let mut b = planar_body(1, vel, pose, mass, forces);
    next_frame_pose(&mut b, 3);
    assert_eq!(b.next_poses[0], Some(Pose { position: v2(1, 0), rotation: 0 }));
}

#[test]
fn linear_formula_exact() {
    let vel = Velocity { linear: v2(1, 2), angular: 1 };
    let pose = Pose { position: v2(0, 0), rotation: 0 };
    let mass = Mass { inverse_mass: 2, inverse_inertia: 4 };
    let forces = ForceAccumulator { force: v2(3, 4), torque: 3 };
    let mut w = planar_body(1, vel, pose, mass, forces);
    next_frame_integration(&mut w, &WorldParameters { gravity: v2(0, -1) }, 2);
    // x: 1 + (3 * 2 + 0) * 2, y: 2 + (4 * 2 - 1) * 2, angular: 1 + (3 * 4) * 2
    assert_eq!(w.next_velocities[0], Some(Velocity { linear: v2(13, 16), angular: 25 }));
    assert_eq!(w.next_poses[0], Some(pose));
}

#[test]
fn spatial_inertia_tensor_applies_to_torque() {
    let mut w = World::<Spatial>::new(2);
    w.dynamic[1] = true;
    w.masses[1] = Some(Mass {
        inverse_mass: 1,
        inverse_inertia: Mat3 { x: v3(1, 2, 0), y: v3(0, 1, 0), z: v3(0, 0, 3) },
    });
    let pose = Pose { position: v3(0, 0, 0), rotation: v3(0, 0, 0) };
    w.poses[1] = Some(pose);
    w.next_velocities[1] = Some(Velocity { linear: v3(0, 0, 0), angular: v3(0, 0, 0) });
    w.next_poses[1] = Some(pose);
    w.forces[1] = Some(ForceAccumulator { force: v3(1, 0, 0), torque: v3(1, 1, 1) });
    NextFrameSetupSystem::<Spatial>::new().run(&mut w, &WorldParameters { gravity: v3(0, 0, -1) }, 2);
    assert_eq!(
        w.next_velocities[1],
        Some(Velocity { linear: v3(2, 0, -2), angular: v3(6, 2, 6) })
    );
    assert_eq!(
        w.next_poses[1],
        Some(Pose { position: v3(4, 0, -4), rotation: v3(12, 4, 12) })
    );
    assert_eq!(w.next_velocities[0], None);
    assert_eq!(w.next_poses[0], None);
}

#[test]
fn planar_and_embedded_spatial_agree() {
    let vel = Velocity { linear: v2(3, -1), angular: 2 };
    let pose = Pose { position: v2(5, 6), rotation: 1 };
    let mass = Mass { inverse_mass: 3, inverse_inertia: 2 };
    let forces = ForceAccumulator { force: v2(1, 2), torque: 4 };
    let mut flat = planar_body(1, vel, pose, mass, forces);
    let mut deep = World::<Spatial>::new(1);
    deep.dynamic[0] = true;
    deep.masses[0] = Some(Mass {
        inverse_mass: 3,
        inverse_inertia: Mat3 { x: v3(2, 0, 0), y: v3(0, 2, 0), z: v3(0, 0, 2) },
    });
    let pose3 = Pose { position: v3(5, 6, 0), rotation: v3(0, 0, 1) };
    deep.poses[0] = Some(pose3);
    deep.next_velocities[0] = Some(Velocity { linear: v3(3, -1, 0), angular: v3(0, 0, 2) });
    deep.next_poses[0] = Some(pose3);
    deep.forces[0] = Some(ForceAccumulator { force: v3(1, 2, 0), torque: v3(0, 0, 4) });
    NextFrameSetupSystem::<Planar>::new().run(&mut flat, &WorldParameters { gravity: v2(0, -2) }, 2);
    NextFrameSetupSystem::<Spatial>::new().run(&mut deep, &WorldParameters { gravity: v3(0, -2, 0) }, 2);
    let fv = flat.next_velocities[0].unwrap();
    let dv = deep.next_velocities[0].unwrap();
    assert_eq!(dv.linear, v3(fv.linear.x, fv.linear.y, 0));
    assert_eq!(dv.angular, v3(0, 0, fv.angular));
    let fp = flat.next_poses[0].unwrap();
    let dp = deep.next_poses[0].unwrap();
    assert_eq!(dp.position, v3(fp.position.x, fp.position.y, 0));
    assert_eq!(dp.rotation, v3(0, 0, fp.rotation));
    // exact planar values: v = (3 + (1*3)*2, -1 + (2*3 - 2)*2), w = 2 + (4*2)*2
    assert_eq!(fv, Velocity { linear: v2(9, 7), angular: 18 });
    assert_eq!(fp, Pose { position: v2(23, 20), rotation: 37 });
}

#[test]
fn partial_entities_are_skipped() {
    let mut w = World::<Planar>::new(3);
    // entity 0: dynamic with a velocity and a pose slot but no current pose
    w.dynamic[0] = true;
    w.masses[0] = Some(Mass { inverse_mass: 1, inverse_inertia: 1 });
    w.next_velocities[0] = Some(Velocity { linear: v2(1, 1), angular: 1 });
    w.next_poses[0] = Some(Pose { position: v2(9, 9), rotation: 9 });
    w.forces[0] = Some(ForceAccumulator { force: v2(5, 5), torque: 5 });
    // entity 2: dynamic with everything but an accumulator
    w.dynamic[2] = true;
    w.masses[2] = Some(Mass { inverse_mass: 1, inverse_inertia: 1 });
    w.poses[2] = Some(Pose { position: v2(0, 0), rotation: 0 });
    w.next_velocities[2] = Some(Velocity { linear: v2(1, 2), angular: 3 });
    w.next_poses[2] = Some(Pose { position: v2(0, 0), rotation: 0 });
    NextFrameSetupSystem::<Planar>::new().run(&mut w, &WorldParameters { gravity: v2(0, -1) }, 1);
    assert_eq!(w.next_velocities[0], Some(Velocity { linear: v2(1, 1), angular: 1 }));
    assert_eq!(w.next_poses[0], Some(Pose { position: v2(9, 9), rotation: 9 }));
    assert_eq!(w.forces[0], Some(ForceAccumulator { force: v2(5, 5), torque: 5 }));
    assert_eq!(w.next_velocities[1], None);
    // entity 2 skips the force phase but is still posed
    assert_eq!(w.next_velocities[2], Some(Velocity { linear: v2(1, 2), angular: 3 }));
    assert_eq!(w.next_poses[2], Some(Pose { position: v2(1, 2), rotation: 3 }));
}

#[test]
fn new_world_is_empty() {
    let w = World::<Planar>::new(4);
    assert_eq!(w.dynamic, vec![false; 4]);
    assert!(w.masses.iter().all(|m| m.is_none()));
    assert!(w.next_poses.iter().all(|m| m.is_none()));
}

#[test]
fn tick_that_overflows_is_reported() {
    let vel = Velocity { linear: v2(0, 0), angular: 0 };
    let pose = Pose { position: v2(0, 0), rotation: 0 };
    let mass = Mass { inverse_mass: 2, inverse_inertia: 1 };
    let forces = ForceAccumulator { force: v2(i64::MAX, 0), torque: 0 };
    let w = planar_body(1, vel, pose, mass, forces);
    let params = WorldParameters { gravity: v2(0, 0) };
    assert!(!fits_tick(&w, &params, 1));
    // the same body with an ordinary force fits
    let w = planar_body(1, vel, pose, mass, ForceAccumulator { force: v2(3, 0), torque: 0 });
    assert!(fits_tick(&w, &params, 1));
}

#[test]
fn pose_overflow_uses_the_stepped_velocity() {
    // the velocity itself fits, but advancing the position by it does not
    let vel = Velocity { linear: v2(0, 0), angular: 0 };
    let pose = Pose { position: v2(i64::MAX - 10, 0), rotation: 0 };
    let mass = Mass { inverse_mass: 1, inverse_inertia: 1 };
    let forces = ForceAccumulator { force: v2(20, 0), torque: 0 };
    let w = planar_body(1, vel, pose, mass, forces);
    assert!(!fits_tick(&w, &WorldParameters { gravity: v2(0, 0) }, 1));
    let w = planar_body(1, vel, pose, mass, ForceAccumulator { force: v2(5, 0), torque: 0 });
    assert!(fits_tick(&w, &WorldParameters { gravity: v2(0, 0) }, 1));
}

#[test]
fn spatial_tensor_overflow_is_reported() {
    let mut w = World::<Spatial>::new(1);
    w.dynamic[0] = true;
    w.masses[0] = Some(Mass {
        inverse_mass: 1,
        inverse_inertia: Mat3 { x: v3(i64::MAX, 0, 0), y: v3(0, 1, 0), z: v3(0, 0, 1) },
    });
    let pose = Pose { position: v3(0, 0, 0), rotation: v3(0, 0, 0) };
    w.poses[0] = Some(pose);
    w.next_velocities[0] = Some(Velocity { linear: v3(0, 0, 0), angular: v3(0, 0, 0) });
    w.next_poses[0] = Some(pose);
    w.forces[0] = Some(ForceAccumulator { force: v3(0, 0, 0), torque: v3(2, 0, 0) });
    assert!(!fits_tick(&w, &WorldParameters { gravity: v3(0, 0, 0) }, 1));
}

#[test]
fn embedded_spatial_with_principal_z_tensor_agrees() {
    let vel = Velocity { linear: v2(1, 1), angular: -1 };
    let pose = Pose { position: v2(0, 2), rotation: 4 };
    let mass = Mass { inverse_mass: 2, inverse_inertia: 3 };
    let forces = ForceAccumulator { force: v2(-1, 2), torque: 5 };
    let mut flat = planar_body(1, vel, pose, mass, forces);
    let mut deep = World::<Spatial>::new(1);
    deep.dynamic[0] = true;
    deep.masses[0] = Some(Mass {
        inverse_mass: 2,
        inverse_inertia: Mat3 { x: v3(5, 1, 0), y: v3(2, 7, 0), z: v3(0, 0, 3) },
    });
    let pose3 = Pose { position: v3(0, 2, 0), rotation: v3(0, 0, 4) };
    deep.poses[0] = Some(pose3);
    deep.next_velocities[0] = Some(Velocity { linear: v3(1, 1, 0), angular: v3(0, 0, -1) });
    deep.next_poses[0] = Some(pose3);
    deep.forces[0] = Some(ForceAccumulator { force: v3(-1, 2, 0), torque: v3(0, 0, 5) });
    NextFrameSetupSystem::<Planar>::new().run(&mut flat, &WorldParameters { gravity: v2(1, 0) }, 3);
    NextFrameSetupSystem::<Spatial>::new().run(&mut deep, &WorldParameters { gravity: v3(1, 0, 0) }, 3);
    // v = (1 + (-2 + 1) * 3, 1 + 4 * 3) = (-2, 13); w = -1 + 15 * 3 = 44
    assert_eq!(flat.next_velocities[0], Some(Velocity { linear: v2(-2, 13), angular: 44 }));
    // p = (0 - 2 * 3, 2 + 13 * 3) = (-6, 41); r = 4 + 44 * 3 = 136
    assert_eq!(flat.next_poses[0], Some(Pose { position: v2(-6, 41), rotation: 136 }));
    assert_eq!(
        deep.next_velocities[0],
        Some(Velocity { linear: v3(-2, 13, 0), angular: v3(0, 0, 44) })
    );
    assert_eq!(
        deep.next_poses[0],
        Some(Pose { position: v3(-6, 41, 0), rotation: v3(0, 0, 136) })
    );
    assert_eq!(deep.forces[0], Some(ForceAccumulator { force: v3(0, 0, 0), torque: v3(0, 0, 0) }));
}
