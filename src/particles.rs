//! The particle categories of the demo scene and the part of the sprite
//! sheet that draws each of them.
use crate::components::ParticleTypeTrait;
use vstd::prelude::*;

verus! {

#[derive(Clone, Copy, Debug, PartialEq, Eq, Structural)]
pub enum ParticleType {
    Smoke,
    Explosion,
    BloodBall,
}

impl ParticleTypeTrait for ParticleType {}

/// A pair of integer coordinates on the sprite sheet.
#[derive(Clone, Copy, Debug, PartialEq, Eq, Structural)]
pub struct IVec2 {
    pub x: i32,
    pub y: i32,
}

/// A rectangle of the sprite sheet: its top-left corner and its size.
#[derive(Clone, Copy, Debug, PartialEq, Eq, Structural)]
pub struct SampleRegion {
    pub pos: IVec2,
    pub size: IVec2,
}

pub open spec fn region(x: i32, y: i32, w: i32, h: i32) -> SampleRegion {
    SampleRegion { pos: IVec2 { x, y }, size: IVec2 { x: w, y: h } }
}

/// The rectangle that draws a particle of the category with `counter` ticks
/// left: an explosion runs through four frames as its counter falls from 7
/// to 0, and shows the blood ball above that.
pub open spec fn sample_region_spec(particle_type: ParticleType, counter: u32) -> SampleRegion {
    match particle_type {
        ParticleType::Explosion => if counter <= 1 {
            region(0, 206, 65, 61)
        } else if counter <= 3 {
            region(0, 101, 61, 62)
        } else if counter <= 5 {
            region(0, 40, 62, 60)
        } else if counter <= 7 {
            region(0, 164, 45, 42)
        } else {
            region(63, 38, 16, 17)
        },
        ParticleType::Smoke => region(0, 269, 65, 61),
        ParticleType::BloodBall => region(63, 38, 16, 17),
    }
}

fn make_region(x: i32, y: i32, w: i32, h: i32) -> (r: SampleRegion)
    ensures
        r == region(x, y, w, h),
{
    SampleRegion { pos: IVec2 { x, y }, size: IVec2 { x: w, y: h } }
}

/// The rectangle of the sprite sheet that draws a particle of the category
/// with `counter` ticks left.
pub fn get_sample_region(particle_type: ParticleType, counter: u32) -> (r: SampleRegion)
    ensures
        r == sample_region_spec(particle_type, counter),
{
    match particle_type {
        ParticleType::Explosion => if counter <= 1 {
            make_region(0, 206, 65, 61)
        } else if counter <= 3 {
            make_region(0, 101, 61, 62)
        } else if counter <= 5 {
            make_region(0, 40, 62, 60)
        } else if counter <= 7 {
            make_region(0, 164, 45, 42)
        } else {
            make_region(63, 38, 16, 17)
        },
        ParticleType::Smoke => make_region(0, 269, 65, 61),
        ParticleType::BloodBall => make_region(63, 38, 16, 17),
    }
}

} // verus!
