//! What holds of every tick, stated over the system before and after it.
use crate::components::{counted, moved, particle_wf, ParticleTypeTrait};
use crate::fixed::{Vec2, ONE};
use crate::particle_system::{slot_wf, stepped_slot, Entity, ParticleSystem};
use crate::spline::{bezier_point_spec, blend_spec, lemma_bezier_endpoints};
use vstd::prelude::*;

verus! {

/// A tick keeps every particle well formed: in particular the parameter of
/// every spline stays in `[0, ONE]`.
pub proof fn lemma_step_keeps_spline_parameter<T: ParticleTypeTrait + Copy>(
    a: ParticleSystem<T>,
    b: ParticleSystem<T>,
    e: Entity,
)
    requires
        a.wf(),
        a.steps_to(&b),
        b.live(e),
    ensures
        particle_wf(b.particle_of(e)),
        b.particle_of(e).spline matches Some(s) ==> 0 <= s.t <= ONE,
{
    assert(b@[e.index as int] == stepped_slot(a@[e.index as int]));
    assert(slot_wf(a@[e.index as int]));
}

/// After a tick the size of a particle is non-negative on both axes when the
/// particle grows by a size velocity, or when its size was non-negative
/// before the tick.
pub proof fn lemma_step_keeps_size_nonnegative<T: ParticleTypeTrait + Copy>(
    a: ParticleSystem<T>,
    b: ParticleSystem<T>,
    e: Entity,
)
    requires
        a.steps_to(&b),
        b.live(e),
        a.particle_of(e).size_velocity is Some || (a.particle_of(e).size.size.x >= 0
            && a.particle_of(e).size.size.y >= 0),
    ensures
        b.particle_of(e).size.size.x >= 0,
        b.particle_of(e).size.size.y >= 0,
{
    assert(b@[e.index as int] == stepped_slot(a@[e.index as int]));
}

/// After a tick the alpha of a particle lies in `[0, ONE]` when the particle
/// fades by an alpha velocity, or when its alpha lay there before the tick.
pub proof fn lemma_step_keeps_alpha_in_range<T: ParticleTypeTrait + Copy>(
    a: ParticleSystem<T>,
    b: ParticleSystem<T>,
    e: Entity,
)
    requires
        a.steps_to(&b),
        b.live(e),
        a.particle_of(e).alpha_velocity is Some || (0 <= a.particle_of(e).alpha.alpha <= ONE),
    ensures
        0 <= b.particle_of(e).alpha.alpha <= ONE,
{
    assert(b@[e.index as int] == stepped_slot(a@[e.index as int]));
}

/// A live particle whose counter is 0 is gone after the next tick.
pub proof fn lemma_zero_counter_expires<T: ParticleTypeTrait + Copy>(
    a: ParticleSystem<T>,
    b: ParticleSystem<T>,
    e: Entity,
)
    requires
        a.steps_to(&b),
        a.live(e),
        a.particle_of(e).counter.counter == 0,
    ensures
        !b.live(e),
{
    assert(b@[e.index as int] == stepped_slot(a@[e.index as int]));
}

/// A live particle whose counter is 1 is still live, with counter 0, after
/// the next tick, and gone after the one after.
pub proof fn lemma_counter_one_lives_one_step<T: ParticleTypeTrait + Copy>(
    a: ParticleSystem<T>,
    b: ParticleSystem<T>,
    c: ParticleSystem<T>,
    e: Entity,
)
    requires
        a.steps_to(&b),
        b.steps_to(&c),
        a.live(e),
        a.particle_of(e).counter.counter == 1,
    ensures
        b.live(e),
        b.particle_of(e).counter.counter == 0,
        !c.live(e),
{
    assert(b@[e.index as int] == stepped_slot(a@[e.index as int]));
    assert(c@[e.index as int] == stepped_slot(b@[e.index as int]));
}

/// A handle that does not reach a live particle does not reach one after a
/// tick either: an expired particle never comes back.
pub proof fn lemma_dead_stays_dead<T: ParticleTypeTrait + Copy>(
    a: ParticleSystem<T>,
    b: ParticleSystem<T>,
    e: Entity,
)
    requires
        a.steps_to(&b),
        !a.live(e),
    ensures
        !b.live(e),
{
    if e.index < b@.len() {
        assert(b@[e.index as int] == stepped_slot(a@[e.index as int]));
    }
}

/// The curve starts at its first control point and ends at its last.
pub proof fn lemma_bezier_point_endpoints(p1: Vec2, p2: Vec2, p3: Vec2)
    ensures
        bezier_point_spec(0, p1, p2, p3) == p1,
        bezier_point_spec(ONE as int, p1, p2, p3) == p3,
{
    lemma_bezier_endpoints(p1.x as int, p2.x as int, p3.x as int);
    lemma_bezier_endpoints(p1.y as int, p2.y as int, p3.y as int);
}

/// A tick that drives a particle along its spline puts it on the curve at
/// the new parameter when the strength is `ONE`, and halfway from where the
/// linear phase left it to that point of the curve when the strength is
/// `ONE / 2`.
pub proof fn lemma_spline_strength<T: ParticleTypeTrait + Copy>(
    a: ParticleSystem<T>,
    b: ParticleSystem<T>,
    e: Entity,
)
    requires
        a.wf(),
        a.steps_to(&b),
        a.live(e),
        a.particle_of(e).counter.counter > 0,
        a.particle_of(e).spline is Some,
        a.particle_of(e).spline_velocity is Some,
    ensures
        b.live(e),
        b.particle_of(e).spline is Some,
        ({
            let s = a.particle_of(e).spline->Some_0;
            let t = b.particle_of(e).spline->Some_0.t;
            let target = bezier_point_spec(t as int, s.point_1, s.point_2, s.point_3);
            let before = moved(counted(a.particle_of(e))).position.pos;
            let after = b.particle_of(e).position.pos;
            &&& s.strength == ONE ==> after == target
            &&& s.strength == ONE / 2 ==> after.x == blend_spec(
                before.x as int,
                target.x as int,
                ONE / 2,
            ) && after.y == blend_spec(before.y as int, target.y as int, ONE / 2)
        }),
{
    assert(b@[e.index as int] == stepped_slot(a@[e.index as int]));
    assert(slot_wf(a@[e.index as int]));
}

} // verus!
