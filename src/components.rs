//! The components a particle carries, and the per-tick update of one
//! particle, phase by phase.
use crate::fixed::{add_sat, clamp_spec, sat, Vec2, ONE};
use crate::spline::{bezier_point_spec, blend_point, blend_spec, calculate_bezier_point};
use vstd::prelude::*;

verus! {

/// Ticks left before the particle expires.
#[derive(Clone, Copy, Debug, PartialEq, Eq, Structural)]
pub struct Counter {
    pub counter: u32,
}

/// Drawing order key.
#[derive(Clone, Copy, Debug, PartialEq, Eq, Structural)]
pub struct DrawLayer {
    pub draw_layer: u32,
}

#[derive(Clone, Copy, Debug, PartialEq, Eq, Structural)]
pub struct Position {
    pub pos: Vec2,
}

#[derive(Clone, Copy, Debug, PartialEq, Eq, Structural)]
pub struct Velocity {
    pub vel: Vec2,
}

#[derive(Clone, Copy, Debug, PartialEq, Eq, Structural)]
pub struct Acceleration {
    pub acc: Vec2,
}

#[derive(Clone, Copy, Debug, PartialEq, Eq, Structural)]
pub struct Size {
    pub size: Vec2,
}

/// Growth of the size per tick, the same on both axes.
#[derive(Clone, Copy, Debug, PartialEq, Eq, Structural)]
pub struct SizeVelocity {
    pub size_vel: i64,
}

#[derive(Clone, Copy, Debug, PartialEq, Eq, Structural)]
pub struct SizeAcceleration {
    pub size_acc: i64,
}

#[derive(Clone, Copy, Debug, PartialEq, Eq, Structural)]
pub struct Rotation {
    pub rot: i64,
}

#[derive(Clone, Copy, Debug, PartialEq, Eq, Structural)]
pub struct RotationVelocity {
    pub rot_vel: i64,
}

#[derive(Clone, Copy, Debug, PartialEq, Eq, Structural)]
pub struct RotationAcceleration {
    pub rot_acc: i64,
}

/// Opacity, where `ONE` is opaque.
#[derive(Clone, Copy, Debug, PartialEq, Eq, Structural)]
pub struct Alpha {
    pub alpha: i64,
}

#[derive(Clone, Copy, Debug, PartialEq, Eq, Structural)]
pub struct AlphaVelocity {
    pub alpha_vel: i64,
}

#[derive(Clone, Copy, Debug, PartialEq, Eq, Structural)]
pub struct AlphaAcceleration {
    pub alpha_acc: i64,
}

/// Motion along the quadratic Bezier curve `point_1, point_2, point_3`: `t`
/// is the parameter reached so far, and `strength` how far a tick pulls the
/// position toward the curve.
#[derive(Clone, Copy, Debug, PartialEq, Eq, Structural)]
pub struct Spline {
    pub t: i64,
    pub strength: i64,
    pub point_1: Vec2,
    pub point_2: Vec2,
    pub point_3: Vec2,
}

#[derive(Clone, Copy, Debug, PartialEq, Eq, Structural)]
pub struct SplineVelocity {
    pub tvel: i64,
}

#[derive(Clone, Copy, Debug, PartialEq, Eq, Structural)]
pub struct SplineAcceleration {
    pub tacc: i64,
}

/// A category of particles, chosen by the user of the system.
pub trait ParticleTypeTrait {}

/// The category a particle belongs to.
#[derive(Clone, Copy, Debug, PartialEq, Eq)]
pub struct ParticleTypeComponent<T: ParticleTypeTrait> {
    pub particle_type: T,
}

/// All components of one particle: the baseline ones, always present, and
/// the optional ones, each present or not.
#[derive(Clone, Copy, Debug)]
pub struct Particle<T: ParticleTypeTrait> {
    pub particle_type: ParticleTypeComponent<T>,
    pub counter: Counter,
    pub position: Position,
    pub size: Size,
    pub rotation: Rotation,
    pub draw_layer: DrawLayer,
    pub alpha: Alpha,
    pub velocity: Option<Velocity>,
    pub acceleration: Option<Acceleration>,
    pub size_velocity: Option<SizeVelocity>,
    pub size_acceleration: Option<SizeAcceleration>,
    pub rotation_velocity: Option<RotationVelocity>,
    pub rotation_acceleration: Option<RotationAcceleration>,
    pub alpha_velocity: Option<AlphaVelocity>,
    pub alpha_acceleration: Option<AlphaAcceleration>,
    pub spline: Option<Spline>,
    pub spline_velocity: Option<SplineVelocity>,
    pub spline_acceleration: Option<SplineAcceleration>,
}

/// A spline's parameter and strength both lie in `[0, ONE]`.
pub open spec fn spline_wf(s: Spline) -> bool {
    0 <= s.t <= ONE && 0 <= s.strength <= ONE
}

pub open spec fn particle_wf<T: ParticleTypeTrait>(p: Particle<T>) -> bool {
    p.spline matches Some(s) ==> spline_wf(s)
}

/// The particle as `create` makes it.
pub open spec fn fresh_spec<T: ParticleTypeTrait>(
    particle_type: T,
    counter: u32,
    pos: Vec2,
    size: Vec2,
) -> Particle<T> {
    Particle {
        particle_type: ParticleTypeComponent { particle_type },
        counter: Counter { counter },
        position: Position { pos },
        size: Size { size },
        rotation: Rotation { rot: 0 },
        draw_layer: DrawLayer { draw_layer: 0 },
        alpha: Alpha { alpha: ONE },
        velocity: None,
        acceleration: None,
        size_velocity: None,
        size_acceleration: None,
        rotation_velocity: None,
        rotation_acceleration: None,
        alpha_velocity: None,
        alpha_acceleration: None,
        spline: None,
        spline_velocity: None,
        spline_acceleration: None,
    }
}

pub open spec fn sat_vec(a: Vec2, b: Vec2) -> Vec2 {
    Vec2 { x: sat(a.x + b.x) as i64, y: sat(a.y + b.y) as i64 }
}

/// Decrement phase: a positive counter goes down by one.
pub open spec fn counted<T: ParticleTypeTrait>(p: Particle<T>) -> Particle<T> {
    if p.counter.counter > 0 {
        Particle { counter: Counter { counter: (p.counter.counter - 1) as u32 }, ..p }
    } else {
        p
    }
}

/// Linear phase: acceleration into velocity, then velocity into position.
pub open spec fn moved<T: ParticleTypeTrait>(p: Particle<T>) -> Particle<T> {
    let vel = match (p.velocity, p.acceleration) {
        (Some(v), Some(a)) => Some(Velocity { vel: sat_vec(v.vel, a.acc) }),
        _ => p.velocity,
    };
    let pos = match vel {
        Some(v) => Position { pos: sat_vec(p.position.pos, v.vel) },
        None => p.position,
    };
    Particle { velocity: vel, position: pos, ..p }
}

/// A size coordinate after growing by `v`: never negative.
pub open spec fn grown(s: i64, v: i64) -> i64 {
    clamp_spec(sat(s + v), 0, i64::MAX as int) as i64
}

/// Size phase: size acceleration into size velocity, then size velocity
/// into both coordinates of the size, each kept non-negative.
pub open spec fn resized<T: ParticleTypeTrait>(p: Particle<T>) -> Particle<T> {
    let vel = match (p.size_velocity, p.size_acceleration) {
        (Some(v), Some(a)) => Some(SizeVelocity { size_vel: sat(v.size_vel + a.size_acc) as i64 }),
        _ => p.size_velocity,
    };
    let size = match vel {
        Some(v) => Size {
            size: Vec2 {
                x: grown(p.size.size.x, v.size_vel),
                y: grown(p.size.size.y, v.size_vel),
            },
        },
        None => p.size,
    };
    Particle { size_velocity: vel, size, ..p }
}

/// Rotation phase: the same pattern, without clamping.
pub open spec fn rotated<T: ParticleTypeTrait>(p: Particle<T>) -> Particle<T> {
    let vel = match (p.rotation_velocity, p.rotation_acceleration) {
        (Some(v), Some(a)) => Some(RotationVelocity { rot_vel: sat(v.rot_vel + a.rot_acc) as i64 }),
        _ => p.rotation_velocity,
    };
    let rot = match vel {
        Some(v) => Rotation { rot: sat(p.rotation.rot + v.rot_vel) as i64 },
        None => p.rotation,
    };
    Particle { rotation_velocity: vel, rotation: rot, ..p }
}

/// Alpha phase: the same pattern, the alpha kept in `[0, ONE]`.
pub open spec fn faded<T: ParticleTypeTrait>(p: Particle<T>) -> Particle<T> {
    let vel = match (p.alpha_velocity, p.alpha_acceleration) {
        (Some(v), Some(a)) => Some(AlphaVelocity { alpha_vel: sat(v.alpha_vel + a.alpha_acc) as i64 }),
        _ => p.alpha_velocity,
    };
    let alpha = match vel {
        Some(v) => Alpha { alpha: clamp_spec(sat(p.alpha.alpha + v.alpha_vel), 0, ONE as int) as i64 },
        None => p.alpha,
    };
    Particle { alpha_velocity: vel, alpha, ..p }
}

/// Where a tick of spline motion puts a particle at `pos` whose parameter
/// has just become `t`.
pub open spec fn spline_target(pos: Vec2, s: Spline, t: int) -> Vec2 {
    let target = bezier_point_spec(t, s.point_1, s.point_2, s.point_3);
    if s.strength == ONE {
        target
    } else {
        Vec2 {
            x: blend_spec(pos.x as int, target.x as int, s.strength as int) as i64,
            y: blend_spec(pos.y as int, target.y as int, s.strength as int) as i64,
        }
    }
}

/// Spline phase: parameter acceleration into parameter velocity; then, for
/// a particle with a spline and a parameter velocity, the parameter advances
/// and is kept in `[0, ONE]`, and the position follows the curve.
pub open spec fn splined<T: ParticleTypeTrait>(p: Particle<T>) -> Particle<T> {
    let vel = match (p.spline_velocity, p.spline_acceleration) {
        (Some(v), Some(a)) => Some(SplineVelocity { tvel: sat(v.tvel + a.tacc) as i64 }),
        _ => p.spline_velocity,
    };
    match (p.spline, vel) {
        (Some(s), Some(v)) => {
            let t = clamp_spec(sat(s.t + v.tvel), 0, ONE as int);
            Particle {
                spline_velocity: vel,
                spline: Some(Spline { t: t as i64, ..s }),
                position: Position { pos: spline_target(p.position.pos, s, t) },
                ..p
            }
        },
        _ => Particle { spline_velocity: vel, ..p },
    }
}

/// A surviving particle after one tick: every phase, in order.
pub open spec fn advanced<T: ParticleTypeTrait>(p: Particle<T>) -> Particle<T> {
    splined(faded(rotated(resized(moved(counted(p))))))
}

fn clamp_i64(x: i64, lo: i64, hi: i64) -> (r: i64)
    requires
        lo <= hi,
    ensures
        r == clamp_spec(x as int, lo as int, hi as int),
{
    if x < lo {
        lo
    } else if x > hi {
        hi
    } else {
        x
    }
}

fn add_vec(a: Vec2, b: Vec2) -> (r: Vec2)
    ensures
        r == sat_vec(a, b),
{
    a.add_sat(b)
}

fn step_counter<T: ParticleTypeTrait + Copy>(p: Particle<T>) -> (r: Particle<T>)
    ensures
        r == counted(p),
{
    if p.counter.counter > 0 {
        Particle { counter: Counter { counter: p.counter.counter - 1 }, ..p }
    } else {
        p
    }
}

fn step_motion<T: ParticleTypeTrait + Copy>(p: Particle<T>) -> (r: Particle<T>)
    ensures
        r == moved(p),
{
    let vel = match (p.velocity, p.acceleration) {
        (Some(v), Some(a)) => Some(Velocity { vel: add_vec(v.vel, a.acc) }),
        _ => p.velocity,
    };
    let pos = match vel {
        Some(v) => Position { pos: add_vec(p.position.pos, v.vel) },
        None => p.position,
    };
    Particle { velocity: vel, position: pos, ..p }
}

fn grow(s: i64, v: i64) -> (r: i64)
    ensures
        r == grown(s, v),
        r >= 0,
{
    clamp_i64(add_sat(s, v), 0, i64::MAX)
}

fn step_size<T: ParticleTypeTrait + Copy>(p: Particle<T>) -> (r: Particle<T>)
    ensures
        r == resized(p),
{
    let vel = match (p.size_velocity, p.size_acceleration) {
        (Some(v), Some(a)) => Some(SizeVelocity { size_vel: add_sat(v.size_vel, a.size_acc) }),
        _ => p.size_velocity,
    };
    let size = match vel {
        Some(v) => Size {
            size: Vec2 { x: grow(p.size.size.x, v.size_vel), y: grow(p.size.size.y, v.size_vel) },
        },
        None => p.size,
    };
    Particle { size_velocity: vel, size, ..p }
}

fn step_rotation<T: ParticleTypeTrait + Copy>(p: Particle<T>) -> (r: Particle<T>)
    ensures
        r == rotated(p),
{
    let vel = match (p.rotation_velocity, p.rotation_acceleration) {
        (Some(v), Some(a)) => Some(RotationVelocity { rot_vel: add_sat(v.rot_vel, a.rot_acc) }),
        _ => p.rotation_velocity,
    };
    let rot = match vel {
        Some(v) => Rotation { rot: add_sat(p.rotation.rot, v.rot_vel) },
        None => p.rotation,
    };
    Particle { rotation_velocity: vel, rotation: rot, ..p }
}

fn step_alpha<T: ParticleTypeTrait + Copy>(p: Particle<T>) -> (r: Particle<T>)
    ensures
        r == faded(p),
{
    let vel = match (p.alpha_velocity, p.alpha_acceleration) {
        (Some(v), Some(a)) => Some(AlphaVelocity { alpha_vel: add_sat(v.alpha_vel, a.alpha_acc) }),
        _ => p.alpha_velocity,
    };
    let alpha = match vel {
        Some(v) => Alpha { alpha: clamp_i64(add_sat(p.alpha.alpha, v.alpha_vel), 0, ONE) },
        None => p.alpha,
    };
    Particle { alpha_velocity: vel, alpha, ..p }
}

fn step_spline<T: ParticleTypeTrait + Copy>(p: Particle<T>) -> (r: Particle<T>)
    requires
        particle_wf(p),
    ensures
        r == splined(p),
{
    let vel = match (p.spline_velocity, p.spline_acceleration) {
        (Some(v), Some(a)) => Some(SplineVelocity { tvel: add_sat(v.tvel, a.tacc) }),
        _ => p.spline_velocity,
    };
    match (p.spline, vel) {
        (Some(s), Some(v)) => {
            let t = clamp_i64(add_sat(s.t, v.tvel), 0, ONE);
            let target = calculate_bezier_point(t, s.point_1, s.point_2, s.point_3);
            let pos = if s.strength == ONE {
                target
            } else {
                blend_point(p.position.pos, target, s.strength)
            };
            Particle {
                spline_velocity: vel,
                spline: Some(Spline { t, ..s }),
                position: Position { pos },
                ..p
            }
        },
        _ => Particle { spline_velocity: vel, ..p },
    }
}

/// One tick of a particle that survives the tick: decrement, then linear,
/// size, rotation, alpha and spline phases, in that order.
pub fn advance<T: ParticleTypeTrait + Copy>(p: Particle<T>) -> (r: Particle<T>)
    requires
        particle_wf(p),
    ensures
        r == advanced(p),
        particle_wf(r),
{
    step_spline(step_alpha(step_rotation(step_size(step_motion(step_counter(p))))))
}

} // verus!
