use particle_sim::fixed::{Vec2, ONE};
use particle_sim::particle_system::{Entity, ParticleSystem};
use particle_sim::particles::ParticleType;

fn v(x: i64, y: i64) -> Vec2 {
    Vec2::new(x, y)
}

fn spawn(sys: &mut ParticleSystem<ParticleType>, counter: u32) -> Entity {
    sys.new_particle(ParticleType::Smoke, counter, v(0, 0), v(10 * ONE, 10 * ONE))
}

#[test]
fn new_particle_has_baseline_components() {
    let mut sys = ParticleSystem::new();
    let e = sys.new_particle(ParticleType::Explosion, 7, v(3, 4), v(5, 6));
    let p = sys.get(e).unwrap();
    assert_eq!(p.particle_type.particle_type, ParticleType::Explosion);
    assert_eq!(p.counter.counter, 7);
    assert_eq!(p.position.pos, v(3, 4));
    assert_eq!(p.size.size, v(5, 6));
    assert_eq!(p.rotation.rot, 0);
    assert_eq!(p.draw_layer.draw_layer, 0);
    assert_eq!(p.alpha.alpha, ONE);
    assert!(p.velocity.is_none());
    assert!(p.spline.is_none());
}

#[test]
fn velocity_and_acceleration_two_steps() {
    let mut sys = ParticleSystem::new();
    let e = spawn(&mut sys, 5);
    sys.add_velocity(e, v(ONE, 0));
    sys.add_acceleration(e, v(0, ONE));
    sys.step();
    let p = sys.get(e).unwrap();
    assert_eq!(p.velocity.unwrap().vel, v(ONE, ONE));
    assert_eq!(p.position.pos, v(ONE, ONE));
    sys.step();
    let p = sys.get(e).unwrap();
    assert_eq!(p.velocity.unwrap().vel, v(ONE, 2 * ONE));
    assert_eq!(p.position.pos, v(2 * ONE, 3 * ONE));
    assert_eq!(p.counter.counter, 3);
}

#[test]
fn velocity_without_acceleration_is_constant() {
    let mut sys = ParticleSystem::new();
    let e = spawn(&mut sys, 5);
    sys.add_velocity(e, v(2, -3));
    sys.step();
    sys.step();
    let p = sys.get(e).unwrap();
    assert_eq!(p.velocity.unwrap().vel, v(2, -3));
    assert_eq!(p.position.pos, v(4, -6));
}

#[test]
fn shrinking_size_clamps_at_zero() {
    let mut sys = ParticleSystem::new();
    let e = spawn(&mut sys, 5);
    sys.add_size_velocity(e, -100 * ONE);
    sys.add_size_acceleration(e, 0);
    sys.step();
    let p = sys.get(e).unwrap();
    assert_eq!(p.size.size, v(0, 0));
    assert_eq!(p.size_velocity.unwrap().size_vel, -100 * ONE);
}

#[test]
fn size_grows_uniformly() {
    let mut sys = ParticleSystem::new();
    let e = sys.new_particle(ParticleType::Smoke, 5, v(0, 0), v(10, 20));
    sys.add_size_velocity(e, 5);
    sys.add_size_acceleration(e, 1);
    sys.step();
    assert_eq!(sys.get(e).unwrap().size.size, v(16, 26));
}

#[test]
fn rotation_is_not_clamped() {
    let mut sys = ParticleSystem::new();
    let e = spawn(&mut sys, 5);
    sys.add_rotation(e, 10);
    sys.add_rotation_velocity(e, -30);
    sys.add_rotation_acceleration(e, -5);
    sys.step();
    let p = sys.get(e).unwrap();
    assert_eq!(p.rotation_velocity.unwrap().rot_vel, -35);
    assert_eq!(p.rotation.rot, -25);
}

#[test]
fn alpha_clamps_into_unit_range() {
    let mut sys = ParticleSystem::new();
    let a = spawn(&mut sys, 5);
    let b = spawn(&mut sys, 5);
    sys.add_alpha(a, ONE / 2);
    sys.add_alpha_velocity(a, ONE);
    sys.add_alpha(b, ONE / 10);
    sys.add_alpha_velocity(b, -ONE / 5);
    sys.add_alpha_acceleration(b, 0);
    sys.step();
    assert_eq!(sys.get(a).unwrap().alpha.alpha, ONE);
    assert_eq!(sys.get(b).unwrap().alpha.alpha, 0);
}

#[test]
fn alpha_fades_with_acceleration() {
    let mut sys = ParticleSystem::new();
    let e = spawn(&mut sys, 5);
    sys.add_alpha_velocity(e, -1000);
    sys.add_alpha_acceleration(e, -500);
    sys.step();
    assert_eq!(sys.get(e).unwrap().alpha.alpha, ONE - 1500);
}

#[test]
fn counter_one_lives_exactly_one_step() {
    let mut sys = ParticleSystem::new();
    let e = spawn(&mut sys, 1);
    assert_eq!(sys.particles().len(), 1);
    sys.step();
    let listed = sys.particles();
    assert_eq!(listed.len(), 1);
    assert_eq!(listed[0].0, e);
    assert_eq!(listed[0].1.counter.counter, 0);
    sys.step();
    assert!(sys.particles().is_empty());
    assert!(!sys.is_alive(e));
    sys.step();
    assert!(sys.particles().is_empty());
}

#[test]
fn counter_zero_is_removed_by_next_step() {
    let mut sys = ParticleSystem::new();
    let e = spawn(&mut sys, 0);
    let listed = sys.particles();
    assert_eq!(listed.len(), 1);
    assert_eq!(listed[0].0, e);
    sys.step();
    assert!(sys.particles().is_empty());
    assert!(sys.get(e).is_none());
}

#[test]
fn expired_particle_is_not_simulated() {
    let mut sys = ParticleSystem::new();
    let e = spawn(&mut sys, 0);
    sys.add_velocity(e, v(ONE, ONE));
    sys.step();
    assert!(!sys.is_alive(e));
}

#[test]
fn query_lists_exactly_live_particles() {
    let mut sys = ParticleSystem::new();
    let a = spawn(&mut sys, 0);
    let b = spawn(&mut sys, 3);
    let c = spawn(&mut sys, 3);
    assert!(sys.despawn(c));
    assert!(!sys.despawn(c));
    let listed = sys.particles();
    let handles: Vec<Entity> = listed.iter().map(|x| x.0).collect();
    assert_eq!(handles, vec![a, b]);
    sys.step();
    let listed = sys.particles();
    assert_eq!(listed.len(), 1);
    assert_eq!(listed[0].0, b);
    assert_eq!(listed[0].1.counter.counter, 2);
}

#[test]
fn reused_slot_does_not_alias_old_handle() {
    let mut sys = ParticleSystem::new();
    let old = spawn(&mut sys, 0);
    sys.step();
    let new = sys.new_particle(ParticleType::BloodBall, 9, v(1, 1), v(2, 2));
    assert_eq!(new.index, old.index);
    assert_ne!(new.generation, old.generation);
    assert!(!sys.is_alive(old));
    assert!(sys.get(old).is_none());
    sys.add_velocity(old, v(5, 5));
    assert!(sys.get(new).unwrap().velocity.is_none());
    assert_eq!(sys.particles().len(), 1);
}

#[test]
fn attach_on_unknown_handle_is_a_no_op() {
    let mut sys: ParticleSystem<ParticleType> = ParticleSystem::new();
    let ghost = Entity { index: 4, generation: 0 };
    sys.add_velocity(ghost, v(1, 1));
    sys.add_spline(ghost, v(0, 0), v(1, 1), v(2, 2), ONE);
    assert!(sys.particles().is_empty());
}

#[test]
fn attach_overwrites_earlier_value() {
    let mut sys = ParticleSystem::new();
    let e = spawn(&mut sys, 5);
    sys.add_velocity(e, v(1, 1));
    sys.add_velocity(e, v(7, 8));
    sys.add_draw_layer(e, 3);
    let p = sys.get(e).unwrap();
    assert_eq!(p.velocity.unwrap().vel, v(7, 8));
    assert_eq!(p.draw_layer.draw_layer, 3);
}

#[test]
fn full_strength_spline_follows_the_curve() {
    let mut sys = ParticleSystem::new();
    let e = spawn(&mut sys, 5);
    sys.add_spline(e, v(0, 0), v(ONE, 2 * ONE), v(2 * ONE, 0), ONE);
    sys.add_spline_velocity(e, ONE / 2);
    sys.step();
    let p = sys.get(e).unwrap();
    assert_eq!(p.spline.unwrap().t, ONE / 2);
    assert_eq!(p.position.pos, v(ONE, ONE));
}

#[test]
fn half_strength_spline_moves_halfway() {
    let mut sys = ParticleSystem::new();
    let e = sys.new_particle(ParticleType::Smoke, 5, v(4 * ONE, 0), v(1, 1));
    sys.add_spline(e, v(0, 0), v(ONE, 2 * ONE), v(2 * ONE, 0), ONE / 2);
    sys.add_spline_velocity(e, ONE / 2);
    sys.step();
    let p = sys.get(e).unwrap();
    assert_eq!(p.position.pos, v(4 * ONE + (ONE - 4 * ONE) / 2, ONE / 2));
}

#[test]
fn spline_parameter_clamps_at_both_ends() {
    let mut sys = ParticleSystem::new();
    let a = spawn(&mut sys, 5);
    let b = spawn(&mut sys, 5);
    sys.add_spline(a, v(1, 2), v(50, 60), v(7, 9), ONE);
    sys.add_spline_velocity(a, 3 * ONE);
    sys.add_spline(b, v(1, 2), v(50, 60), v(7, 9), ONE);
    sys.add_spline_velocity(b, ONE / 4);
    sys.add_spline_acceleration(b, -ONE);
    sys.step();
    let pa = sys.get(a).unwrap();
    assert_eq!(pa.spline.unwrap().t, ONE);
    assert_eq!(pa.position.pos, v(7, 9));
    let pb = sys.get(b).unwrap();
    assert_eq!(pb.spline_velocity.unwrap().tvel, ONE / 4 - ONE);
    assert_eq!(pb.spline.unwrap().t, 0);
    assert_eq!(pb.position.pos, v(1, 2));
}

#[test]
fn spline_without_velocity_leaves_position() {
    let mut sys = ParticleSystem::new();
    let e = spawn(&mut sys, 5);
    sys.add_velocity(e, v(3, 3));
    sys.add_spline(e, v(100, 100), v(200, 200), v(300, 300), ONE);
    sys.step();
    let p = sys.get(e).unwrap();
    assert_eq!(p.position.pos, v(3, 3));
    assert_eq!(p.spline.unwrap().t, 0);
}

#[test]
fn spline_overrides_linear_motion_at_full_strength() {
    let mut sys = ParticleSystem::new();
    let e = spawn(&mut sys, 5);
    sys.add_velocity(e, v(ONE, ONE));
    sys.add_spline(e, v(0, 0), v(0, 0), v(0, 0), ONE);
    sys.add_spline_velocity(e, 1);
    sys.step();
    let p = sys.get(e).unwrap();
    assert_eq!(p.position.pos, v(0, 0));
}

#[test]
fn velocity_saturates_instead_of_overflowing() {
    let mut sys = ParticleSystem::new();
    let e = sys.new_particle(ParticleType::Smoke, 5, v(i64::MAX - 1, i64::MIN + 1), v(0, 0));
    sys.add_velocity(e, v(10, -10));
    sys.step();
    assert_eq!(sys.get(e).unwrap().position.pos, v(i64::MAX, i64::MIN));
}

#[test]
fn freed_slots_are_reused_before_growing() {
    let mut sys = ParticleSystem::new();
    assert_eq!(sys.slot_count(), 0);
    let a = spawn(&mut sys, 0);
    let _b = spawn(&mut sys, 4);
    assert_eq!(sys.slot_count(), 2);
    sys.step();
    assert!(!sys.is_alive(a));
    let c = spawn(&mut sys, 4);
    assert_eq!(sys.slot_count(), 2);
    assert_eq!(c.index, a.index);
    assert_eq!(c.generation, a.generation + 1);
    let _d = spawn(&mut sys, 4);
    assert_eq!(sys.slot_count(), 3);
}

#[test]
fn spawning_leaves_live_particles_untouched() {
    let mut sys = ParticleSystem::new();
    let a = spawn(&mut sys, 3);
    sys.add_velocity(a, v(5, 6));
    let before = sys.get(a).unwrap();
    let b = sys.new_particle(ParticleType::BloodBall, 1, v(9, 9), v(1, 1));
    assert_ne!(a, b);
    let after = sys.get(a).unwrap();
    assert_eq!(after.velocity, before.velocity);
    assert_eq!(after.position.pos, before.position.pos);
    assert_eq!(after.particle_type.particle_type, ParticleType::Smoke);
    let handles: Vec<Entity> = sys.particles().iter().map(|x| x.0).collect();
    assert_eq!(handles, vec![a, b]);
}
