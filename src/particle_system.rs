//! The particle system: a store of particles addressed by generational
//! handles, the attach operations, the tick and the query.
use crate::components::{
    advance, advanced, fresh_spec, particle_wf, Acceleration, Alpha, AlphaAcceleration, AlphaVelocity,
    Counter, DrawLayer, Particle, ParticleTypeComponent, ParticleTypeTrait, Position, Rotation,
    RotationAcceleration, RotationVelocity, Size, SizeAcceleration, SizeVelocity, Spline,
    SplineAcceleration, SplineVelocity, Velocity,
};
use crate::fixed::{Vec2, ONE};
use vstd::prelude::*;

verus! {

/// A handle to a particle: a slot index and the generation of the slot's
/// occupant it was issued for.
#[derive(Clone, Copy, Debug, PartialEq, Eq, Structural)]
pub struct Entity {
    pub index: usize,
    pub generation: u64,
}

/// One place in the store. `generation` counts the occupants the slot has
/// had; a handle only reaches the occupant of its own generation.
#[derive(Clone, Copy, Debug)]
pub struct Slot<T: ParticleTypeTrait> {
    pub generation: u64,
    pub particle: Option<Particle<T>>,
}

pub struct ParticleSystem<T: ParticleTypeTrait> {
    slots: Vec<Slot<T>>,
}

pub open spec fn slot_wf<T: ParticleTypeTrait>(s: Slot<T>) -> bool {
    s.particle matches Some(p) ==> particle_wf(p)
}

/// A slot after one tick: an expired occupant leaves, any other advances.
pub open spec fn stepped_slot<T: ParticleTypeTrait>(s: Slot<T>) -> Slot<T> {
    match s.particle {
        Some(p) => if p.counter.counter == 0 {
            Slot { generation: s.generation, particle: None }
        } else {
            Slot { generation: s.generation, particle: Some(advanced(p)) }
        },
        None => s,
    }
}

impl<T: ParticleTypeTrait + Copy> View for ParticleSystem<T> {
    type V = Seq<Slot<T>>;

    closed spec fn view(&self) -> Seq<Slot<T>> {
        self.slots@
    }
}

impl<T: ParticleTypeTrait + Copy> ParticleSystem<T> {
    pub open spec fn wf(&self) -> bool {
        forall|i: int| 0 <= i < self@.len() ==> #[trigger] slot_wf(self@[i])
    }

    /// The handle reaches a particle that is alive.
    pub open spec fn live(&self, e: Entity) -> bool {
        &&& e.index < self@.len()
        &&& self@[e.index as int].generation == e.generation
        &&& self@[e.index as int].particle is Some
    }

    /// The particle a live handle reaches.
    pub open spec fn particle_of(&self, e: Entity) -> Particle<T> {
        self@[e.index as int].particle->Some_0
    }

    /// `next` is what one tick makes of this system.
    pub open spec fn steps_to(&self, next: &Self) -> bool {
        &&& next@.len() == self@.len()
        &&& forall|i: int| 0 <= i < next@.len() ==> #[trigger] next@[i] == stepped_slot(self@[i])
    }

    /// The slots with the particle of `e` replaced by `p` when `e` is live,
    /// and unchanged otherwise.
    pub open spec fn replaced(&self, e: Entity, p: Particle<T>) -> Seq<Slot<T>> {
        if self.live(e) {
            self@.update(e.index as int, Slot { generation: e.generation, particle: Some(p) })
        } else {
            self@
        }
    }

    /// An empty system.
    pub fn new() -> (r: Self)
        ensures
            r@ == Seq::<Slot<T>>::empty(),
            r.wf(),
    {
        ParticleSystem { slots: Vec::new() }
    }

    /// The number of slots, live or free.
    pub fn slot_count(&self) -> (r: usize)
        ensures
            r == self@.len(),
    {
        self.slots.len()
    }

    /// Whether the handle reaches a live particle.
    pub fn is_alive(&self, entity: Entity) -> (r: bool)
        ensures
            r == self.live(entity),
    {
        entity.index < self.slots.len() && self.slots[entity.index].generation == entity.generation
            && self.slots[entity.index].particle.is_some()
    }

    /// The particle the handle reaches, if it is live.
    pub fn get(&self, entity: Entity) -> (r: Option<Particle<T>>)
        ensures
            self.live(entity) ==> r == Some(self.particle_of(entity)),
            !self.live(entity) ==> r is None,
            self.wf() && self.live(entity) ==> particle_wf(self.particle_of(entity)),
    {
        proof {
            if self.live(entity) {
                assert(self.wf() ==> slot_wf(self@[entity.index as int]));
            }
        }
        if self.is_alive(entity) {
            self.slots[entity.index].particle
        } else {
            None
        }
    }

    /// Spawns a particle with the given category, counter, position and size,
    /// rotation 0, draw layer 0 and alpha `ONE`, and returns its handle. A
    /// free slot is taken again under a new generation, so no handle issued
    /// before reaches the new particle.
    pub fn new_particle(&mut self, particle_type: T, counter: u32, pos: Vec2, size: Vec2) -> (r:
        Entity)
        requires
            old(self).wf(),
            old(self)@.len() < usize::MAX,
        ensures
            final(self).wf(),
            !old(self).live(r),
            final(self).live(r),
            final(self).particle_of(r) == fresh_spec(particle_type, counter, pos, size),
            final(self)@.len() == old(self)@.len() || final(self)@.len() == old(self)@.len() + 1,
            r.index < old(self)@.len() ==> old(self)@[r.index as int].particle is None
                && r.generation > old(self)@[r.index as int].generation,
            r.index == old(self)@.len() ==> final(self)@.len() == old(self)@.len() + 1,
            r.index <= old(self)@.len(),
            forall|e: Entity|
                #[trigger] old(self).live(e) ==> final(self).live(e) && final(self).particle_of(e)
                    == old(self).particle_of(e),
            forall|e: Entity| #[trigger] final(self).live(e) && e != r ==> old(self).live(e),
            forall|i: int|
                0 <= i < final(self)@.len() && i != r.index ==> #[trigger] final(self)@[i]
                    == old(self)@[i],
    {
        let p = Particle {
            particle_type: ParticleTypeComponent { particle_type },
            counter: Counter { counter },
            position: Position { pos },
            size: Size { size },
            rotation: Rotation { rot: 0 },
            draw_layer: DrawLayer { draw_layer: 0 },
            alpha: Alpha { alpha: ONE },
            velocity: None,
            acceleration: None,
            size_velocity: None,
            size_acceleration: None,
            rotation_velocity: None,
            rotation_acceleration: None,
            alpha_velocity: None,
            alpha_acceleration: None,
            spline: None,
            spline_velocity: None,
            spline_acceleration: None,
        };
        let n = self.slots.len();
        let mut i: usize = 0;
        while i < n
            invariant
                n == self.slots.len(),
                0 <= i <= n,
                self@ == old(self)@,
                self.wf(),
                p == fresh_spec(particle_type, counter, pos, size),
            decreases n - i,
        {
            let s = self.slots[i];
            if s.particle.is_none() && s.generation < u64::MAX {
                let e = Entity { index: i, generation: s.generation + 1 };
                self.slots.set(i, Slot { generation: e.generation, particle: Some(p) });
                return e;
            }
            i = i + 1;
        }
        self.slots.push(Slot { generation: 0, particle: Some(p) });
        assert(self@ == old(self)@.push(Slot { generation: 0, particle: Some(p) }));
        Entity { index: n, generation: 0 }
    }

    fn put(&mut self, entity: Entity, p: Particle<T>)
        requires
            old(self).wf(),
            old(self).live(entity),
            particle_wf(p),
        ensures
            final(self).wf(),
            final(self)@ == old(self).replaced(entity, p),
    {
        self.slots.set(entity.index, Slot { generation: entity.generation, particle: Some(p) });
    }

    /// Removes the particle the handle reaches, if it is live; returns
    /// whether it was.
    pub fn despawn(&mut self, entity: Entity) -> (r: bool)
        requires
            old(self).wf(),
        ensures
            final(self).wf(),
            r == old(self).live(entity),
            r ==> final(self)@ == old(self)@.update(
                entity.index as int,
                Slot { generation: entity.generation, particle: None },
            ),
            !r ==> final(self)@ == old(self)@,
    {
        if self.is_alive(entity) {
            self.slots.set(entity.index, Slot { generation: entity.generation, particle: None });
            true
        } else {
            false
        }
    }

    /// Sets the draw layer of the particle the handle reaches, replacing any
    /// earlier one; does nothing when the handle is not live.
    pub fn add_draw_layer(&mut self, entity: Entity, draw_layer: u32)
        requires
            old(self).wf(),
        ensures
            final(self).wf(),
            final(self)@ == old(self).replaced(
                entity,
                (Particle { draw_layer: DrawLayer { draw_layer }, ..old(self).particle_of(entity) }),
            ),
    {
        match self.get(entity) {
            Some(p) => self.put(entity, Particle { draw_layer: DrawLayer { draw_layer }, ..p }),
            None => {},
        }
    }

    /// Sets the velocity of the particle the handle reaches, replacing any
    /// earlier one; does nothing when the handle is not live.
    pub fn add_velocity(&mut self, entity: Entity, vel: Vec2)
        requires
            old(self).wf(),
        ensures
            final(self).wf(),
            final(self)@ == old(self).replaced(
                entity,
                (Particle { velocity: Some(Velocity { vel }), ..old(self).particle_of(entity) }),
            ),
    {
        match self.get(entity) {
            Some(p) => self.put(entity, Particle { velocity: Some(Velocity { vel }), ..p }),
            None => {},
        }
    }

    /// Sets the acceleration of the particle the handle reaches, replacing any
    /// earlier one; does nothing when the handle is not live.
    pub fn add_acceleration(&mut self, entity: Entity, acc: Vec2)
        requires
            old(self).wf(),
        ensures
            final(self).wf(),
            final(self)@ == old(self).replaced(
                entity,
                (Particle { acceleration: Some(Acceleration { acc }), ..old(self).particle_of(entity) }),
            ),
    {
        match self.get(entity) {
            Some(p) => self.put(entity, Particle { acceleration: Some(Acceleration { acc }), ..p }),
            None => {},
        }
    }

    /// Sets the size velocity of the particle the handle reaches, replacing any
    /// earlier one; does nothing when the handle is not live.
    pub fn add_size_velocity(&mut self, entity: Entity, size_vel: i64)
        requires
            old(self).wf(),
        ensures
            final(self).wf(),
            final(self)@ == old(self).replaced(
                entity,
                (Particle { size_velocity: Some(SizeVelocity { size_vel }), ..old(self).particle_of(entity) }),
            ),
    {
        match self.get(entity) {
            Some(p) => self.put(entity, Particle { size_velocity: Some(SizeVelocity { size_vel }), ..p }),
            None => {},
        }
    }

    /// Sets the size acceleration of the particle the handle reaches, replacing any
    /// earlier one; does nothing when the handle is not live.
    pub fn add_size_acceleration(&mut self, entity: Entity, size_acc: i64)
        requires
            old(self).wf(),
        ensures
            final(self).wf(),
            final(self)@ == old(self).replaced(
                entity,
                (Particle { size_acceleration: Some(SizeAcceleration { size_acc }), ..old(self).particle_of(entity) }),
            ),
    {
        match self.get(entity) {
            Some(p) => self.put(entity, Particle { size_acceleration: Some(SizeAcceleration { size_acc }), ..p }),
            None => {},
        }
    }

    /// Sets the rotation of the particle the handle reaches, replacing any
    /// earlier one; does nothing when the handle is not live.
    pub fn add_rotation(&mut self, entity: Entity, rot: i64)
        requires
            old(self).wf(),
        ensures
            final(self).wf(),
            final(self)@ == old(self).replaced(
                entity,
                (Particle { rotation: Rotation { rot }, ..old(self).particle_of(entity) }),
            ),
    {
        match self.get(entity) {
            Some(p) => self.put(entity, Particle { rotation: Rotation { rot }, ..p }),
            None => {},
        }
    }

    /// Sets the rotation velocity of the particle the handle reaches, replacing any
    /// earlier one; does nothing when the handle is not live.
    pub fn add_rotation_velocity(&mut self, entity: Entity, rot_vel: i64)
        requires
            old(self).wf(),
        ensures
            final(self).wf(),
            final(self)@ == old(self).replaced(
                entity,
                (Particle { rotation_velocity: Some(RotationVelocity { rot_vel }), ..old(self).particle_of(entity) }),
            ),
    {
        match self.get(entity) {
            Some(p) => self.put(entity, Particle { rotation_velocity: Some(RotationVelocity { rot_vel }), ..p }),
            None => {},
        }
    }

    /// Sets the rotation acceleration of the particle the handle reaches, replacing any
    /// earlier one; does nothing when the handle is not live.
    pub fn add_rotation_acceleration(&mut self, entity: Entity, rot_acc: i64)
        requires
            old(self).wf(),
        ensures
            final(self).wf(),
            final(self)@ == old(self).replaced(
                entity,
                (Particle { rotation_acceleration: Some(RotationAcceleration { rot_acc }), ..old(self).particle_of(entity) }),
            ),
    {
        match self.get(entity) {
            Some(p) => self.put(entity, Particle { rotation_acceleration: Some(RotationAcceleration { rot_acc }), ..p }),
            None => {},
        }
    }

    /// Sets the alpha of the particle the handle reaches, replacing any
    /// earlier one; does nothing when the handle is not live.
    pub fn add_alpha(&mut self, entity: Entity, alpha: i64)
        requires
            old(self).wf(),
        ensures
            final(self).wf(),
            final(self)@ == old(self).replaced(
                entity,
                (Particle { alpha: Alpha { alpha }, ..old(self).particle_of(entity) }),
            ),
    {
        match self.get(entity) {
            Some(p) => self.put(entity, Particle { alpha: Alpha { alpha }, ..p }),
            None => {},
        }
    }

    /// Sets the alpha velocity of the particle the handle reaches, replacing any
    /// earlier one; does nothing when the handle is not live.
    pub fn add_alpha_velocity(&mut self, entity: Entity, alpha_vel: i64)
        requires
            old(self).wf(),
        ensures
            final(self).wf(),
            final(self)@ == old(self).replaced(
                entity,
                (Particle { alpha_velocity: Some(AlphaVelocity { alpha_vel }), ..old(self).particle_of(entity) }),
            ),
    {
        match self.get(entity) {
            Some(p) => self.put(entity, Particle { alpha_velocity: Some(AlphaVelocity { alpha_vel }), ..p }),
            None => {},
        }
    }

    /// Sets the alpha acceleration of the particle the handle reaches, replacing any
    /// earlier one; does nothing when the handle is not live.
    pub fn add_alpha_acceleration(&mut self, entity: Entity, alpha_acc: i64)
        requires
            old(self).wf(),
        ensures
            final(self).wf(),
            final(self)@ == old(self).replaced(
                entity,
                (Particle { alpha_acceleration: Some(AlphaAcceleration { alpha_acc }), ..old(self).particle_of(entity) }),
            ),
    {
        match self.get(entity) {
            Some(p) => self.put(entity, Particle { alpha_acceleration: Some(AlphaAcceleration { alpha_acc }), ..p }),
            None => {},
        }
    }

    /// Sets the spline parameter velocity of the particle the handle reaches, replacing any
    /// earlier one; does nothing when the handle is not live.
    pub fn add_spline_velocity(&mut self, entity: Entity, tvel: i64)
        requires
            old(self).wf(),
        ensures
            final(self).wf(),
            final(self)@ == old(self).replaced(
                entity,
                (Particle { spline_velocity: Some(SplineVelocity { tvel }), ..old(self).particle_of(entity) }),
            ),
    {
        match self.get(entity) {
            Some(p) => self.put(entity, Particle { spline_velocity: Some(SplineVelocity { tvel }), ..p }),
            None => {},
        }
    }

    /// Sets the spline parameter acceleration of the particle the handle reaches, replacing any
    /// earlier one; does nothing when the handle is not live.
    pub fn add_spline_acceleration(&mut self, entity: Entity, tacc: i64)
        requires
            old(self).wf(),
        ensures
            final(self).wf(),
            final(self)@ == old(self).replaced(
                entity,
                (Particle { spline_acceleration: Some(SplineAcceleration { tacc }), ..old(self).particle_of(entity) }),
            ),
    {
        match self.get(entity) {
            Some(p) => self.put(entity, Particle { spline_acceleration: Some(SplineAcceleration { tacc }), ..p }),
            None => {},
        }
    }

    /// Puts the particle the handle reaches on the curve `point_1, point_2,
    /// point_3` at parameter 0, pulled toward it with `strength`, which lies
    /// in `[0, ONE]`; does nothing when the handle is not live.
    pub fn add_spline(
        &mut self,
        entity: Entity,
        point_1: Vec2,
        point_2: Vec2,
        point_3: Vec2,
        strength: i64,
    )
        requires
            old(self).wf(),
            0 <= strength <= ONE,
        ensures
            final(self).wf(),
            final(self)@ == old(self).replaced(
                entity,
                (Particle {
                    spline: Some(Spline { t: 0, strength, point_1, point_2, point_3 }),
                    ..old(self).particle_of(entity)
                }),
            ),
    {
        match self.get(entity) {
            Some(p) => self.put(
                entity,
                Particle { spline: Some(Spline { t: 0, strength, point_1, point_2, point_3 }), ..p },
            ),
            None => {},
        }
    }

    /// Advances the simulation by one tick. Every particle whose counter is
    /// already 0 is removed; every other one goes through the decrement,
    /// linear, size, rotation, alpha and spline phases, in that order. No
    /// phase of one particle reads another particle, so taking the particles
    /// one at a time gives what running each phase over all of them in turn
    /// gives.
    pub fn step(&mut self)
        requires
            old(self).wf(),
        ensures
            final(self).wf(),
            old(self).steps_to(&*final(self)),
    {
        let n = self.slots.len();
        let mut i: usize = 0;
        while i < n
            invariant
                n == self.slots.len(),
                n == old(self)@.len(),
                0 <= i <= n,
                forall|j: int| 0 <= j < i ==> #[trigger] self@[j] == stepped_slot(old(self)@[j]),
                forall|j: int| i <= j < n ==> #[trigger] self@[j] == old(self)@[j],
                self.wf(),
            decreases n - i,
        {
            let s = self.slots[i];
            proof {
                assert(slot_wf(self@[i as int]));
            }
            match s.particle {
                Some(p) => {
                    if p.counter.counter == 0 {
                        self.slots.set(i, Slot { generation: s.generation, particle: None });
                    } else {
                        let q = advance(p);
                        self.slots.set(i, Slot { generation: s.generation, particle: Some(q) });
                    }
                },
                None => {},
            }
            i = i + 1;
        }
    }

    /// Every live particle with its handle, in slot order: each handle
    /// appears once, and exactly the live handles appear.
    pub fn particles(&self) -> (r: Vec<(Entity, Particle<T>)>)
        ensures
            forall|k: int|
                0 <= k < r@.len() ==> self.live(#[trigger] r@[k].0) && r@[k].1 == self.particle_of(
                    r@[k].0,
                ),
            forall|k1: int, k2: int|
                0 <= k1 < k2 < r@.len() ==> #[trigger] r@[k1].0.index < #[trigger] r@[k2].0.index,
            forall|e: Entity| #[trigger]
                self.live(e) ==> exists|k: int| 0 <= k < r@.len() && #[trigger] r@[k].0 == e,
    {
        let mut r: Vec<(Entity, Particle<T>)> = Vec::new();
        let n = self.slots.len();
        let mut i: usize = 0;
        while i < n
            invariant
                n == self@.len(),
                0 <= i <= n,
                forall|k: int|
                    0 <= k < r@.len() ==> self.live(#[trigger] r@[k].0) && r@[k].1
                        == self.particle_of(r@[k].0) && r@[k].0.index < i,
                forall|k1: int, k2: int|
                    0 <= k1 < k2 < r@.len() ==> #[trigger] r@[k1].0.index < #[trigger] r@[k2].0.index,
                forall|e: Entity|
                    #[trigger] self.live(e) && e.index < i ==> exists|k: int|
                        0 <= k < r@.len() && #[trigger] r@[k].0 == e,
            decreases n - i,
        {
            let s = self.slots[i];
            match s.particle {
                Some(p) => {
                    let e = Entity { index: i, generation: s.generation };
                    let ghost before = r@;
                    r.push((e, p));
                    proof {
                        assert(r@[r@.len() - 1].0 == e);
                        assert forall|e2: Entity|
                            #[trigger] self.live(e2) && e2.index < i + 1 implies exists|k: int|
                                0 <= k < r@.len() && #[trigger] r@[k].0 == e2 by {
                            if e2.index < i {
                                let k0 = choose|k: int| 0 <= k < before.len() && #[trigger] before[k].0 == e2;
                                assert(r@[k0] == before[k0]);
                            } else {
                                assert(e2 == e);
                            }
                        }
                    }
                },
                None => {},
            }
            i = i + 1;
        }
        r
    }
}

} // verus!
