//! The integration system: every entity owning both a location and a
//! velocity advances by `velocity * elapsed` each tick, one explicit Euler
//! step per axis.

use vstd::prelude::*;

use crate::fixed::{cl64, mul_cl, spec_add3, Vec3};
use crate::world::{world_wf, Slot, World};

verus! {

/// The elapsed time as a signed factor, saturated at the signed range.
pub open spec fn spec_delta_factor(delta: u64) -> int {
    if delta > i64::MAX as u64 {
        i64::MAX as int
    } else {
        delta as int
    }
}

/// One Euler step of a slot: a live occupant with both a location and a
/// velocity moves by `velocity * delta`; anything else is untouched.
pub open spec fn spec_integrate_slot(s: Slot, delta: u64) -> Slot {
    if s.alive && s.location is Some && s.velocity is Some {
        let loc = s.location.unwrap();
        let v = s.velocity.unwrap().0;
        let d = spec_delta_factor(delta);
        let step = Vec3 {
            x: cl64(v.x * d) as i64,
            y: cl64(v.y * d) as i64,
            z: cl64(v.z * d) as i64,
        };
        Slot {
            gen: s.gen,
            alive: s.alive,
            location: Some(
                crate::transform::BodyLocation {
                    position: spec_add3(loc.position, step),
                    yaw: loc.yaw,
                    pitch: loc.pitch,
                },
            ),
            velocity: s.velocity,
            render: s.render,
        }
    } else {
        s
    }
}

/// Every slot advanced by one Euler step.
pub open spec fn spec_integrated(slots: Seq<Slot>, delta: u64) -> Seq<Slot> {
    Seq::new(slots.len(), |i: int| spec_integrate_slot(slots[i], delta))
}

/// The integration system. It holds no state of its own.
pub struct UpdateLocation;

impl UpdateLocation {
    /// Advance every entity owning both a location and a velocity by
    /// `velocity * elapsed`.
    pub fn run(&self, world: &mut World)
        requires
            world_wf(old(world)),
        ensures
            world_wf(final(world)),
            final(world).slots@ == spec_integrated(old(world).slots@, old(world).delta.0),
            final(world).pending == old(world).pending,
            final(world).active_camera == old(world).active_camera,
            final(world).delta == old(world).delta,
            final(world).keyboard_events == old(world).keyboard_events,
            final(world).mouse_events == old(world).mouse_events,
            final(world).resize_events == old(world).resize_events,
    {
        let delta: u64 = world.delta.0;
        let d: i64 = if delta > 9223372036854775807 {
            i64::MAX
        } else {
            delta as i64
        };
        let n: usize = world.slots.len();
        let mut i: usize = 0;
        while i < n
            invariant
                world_wf(old(world)),
                n == world.slots@.len(),
                n == old(world).slots@.len(),
                i <= n,
                d as int == spec_delta_factor(old(world).delta.0),
                world.pending == old(world).pending,
                world.active_camera == old(world).active_camera,
                world.delta == old(world).delta,
                world.keyboard_events == old(world).keyboard_events,
                world.mouse_events == old(world).mouse_events,
                world.resize_events == old(world).resize_events,
                forall|j: int| 0 <= j < i ==> world.slots@[j]
                    == spec_integrate_slot(#[trigger] old(world).slots@[j], old(world).delta.0),
                forall|j: int| i <= j < n ==> world.slots@[j] == #[trigger] old(world).slots@[j],
            decreases n - i,
        {
            let s = &world.slots[i];
            if s.alive {
                match (s.location, s.velocity) {
                    (Some(loc), Some(vel)) => {
                        let g: u64 = s.gen;
                        let render = s.render;
                        let step = Vec3 {
                            x: mul_cl(vel.0.x, d),
                            y: mul_cl(vel.0.y, d),
                            z: mul_cl(vel.0.z, d),
                        };
                        let mut new_loc = loc;
                        new_loc.translate(step);
                        world.slots.set(
                            i,
                            Slot {
                                gen: g,
                                alive: true,
                                location: Some(new_loc),
                                velocity: Some(vel),
                                render,
                            },
                        );
                    }
                    _ => {}
                }
            }
            i = i + 1;
        }
        proof {
            assert(world.slots@ =~= spec_integrated(old(world).slots@, old(world).delta.0));
        }
    }
}

} // verus!
