//! The application: one world, one dispatcher, one `update` per external
//! tick.
//!
//! Each tick writes the elapsed time into the shared resource, then runs
//! the systems strictly in the configured order — integration, movement,
//! presentation — and finally applies deferred entity destruction. No
//! reordering and no parallelism: presentation must run last and alone,
//! since the surface it draws to is not shareable.

use vstd::prelude::*;

use crate::fixed::Vec3;
use crate::input::{KeyboardEvent, MouseMoveEvent, ResizeEvent};
use crate::integrate::{spec_integrated, UpdateLocation};
use crate::movement::{
    keys_to_read, move_sys_wf, moves_to_read, spec_dir_after, spec_dir_empty, spec_moved_slots,
    PlayerMoveSystem,
};
use crate::render::{resizes_to_read, spec_draws, spec_resized, Camera, Frame, RenderSystem};
use crate::transform::BodyLocation;
use crate::world::{
    live, location_of, render_of, spec_maintained, velocity_of, world_wf, ActiveCamera,
    DeltaTime, Entity, RenderBody, World,
};

verus! {

/// The default vertical field of view, in thousandths of a degree.
pub const DEFAULT_FOV: i64 = 45000;

/// The ordered list of per-tick systems. The order is fixed: integration,
/// then movement, then presentation.
pub struct Dispatcher {
    pub update_location: UpdateLocation,
    pub player_move: PlayerMoveSystem,
    pub render_system: RenderSystem,
}

/// Every system cursor is within its channel's log.
pub open spec fn dispatcher_wf(d: &Dispatcher, w: &World) -> bool {
    &&& move_sys_wf(&d.player_move, w)
    &&& d.render_system.resize_reader.pos <= w.resize_events.end()
}

impl Dispatcher {
    /// Run the systems once, strictly in order: integration advances
    /// ballistic entities, movement applies the drained input to the active
    /// camera, and presentation builds the frame from the resulting scene.
    pub fn dispatch(&mut self, world: &mut World) -> (frame: Frame)
        requires
            world_wf(old(world)),
            dispatcher_wf(old(self), old(world)),
        ensures
            world_wf(final(world)),
            dispatcher_wf(final(self), final(world)),
            final(world).slots@ == spec_moved_slots(
                old(self).player_move.dir,
                keys_to_read(&old(self).player_move, old(world)),
                moves_to_read(&old(self).player_move, old(world)),
                old(world).active_camera.0,
                spec_integrated(old(world).slots@, old(world).delta.0),
            ),
            final(self).player_move.dir == spec_dir_after(
                old(self).player_move.dir,
                keys_to_read(&old(self).player_move, old(world)),
            ),
            final(self).render_system.camera == spec_resized(
                old(self).render_system.camera,
                resizes_to_read(&old(self).render_system, old(world)),
            ),
            final(self).player_move.keyboard_reader.pos as int
                == old(world).keyboard_events.end(),
            final(self).player_move.mouse_reader.pos as int == old(world).mouse_events.end(),
            final(self).render_system.resize_reader.pos as int
                == old(world).resize_events.end(),
            frame.draws@ == spec_draws(final(world).slots@),
            final(world).pending == old(world).pending,
            final(world).active_camera == old(world).active_camera,
            final(world).delta == old(world).delta,
            final(world).keyboard_events == old(world).keyboard_events,
            final(world).mouse_events == old(world).mouse_events,
            final(world).resize_events == old(world).resize_events,
    {
        self.update_location.run(world);
        self.player_move.run(world);
        let frame = self.render_system.run(world);
        frame
    }
}

/// The whole application: the world and the scheduler over it.
pub struct App {
    pub world: World,
    pub dispatcher: Dispatcher,
}

impl App {
    /// Build the initial scene: a player entity five units down the
    /// positive Z axis designated as the active camera, and one renderable
    /// body at the origin carrying the given mesh handle.
    pub fn create(cube_model: u64) -> (r: App)
        ensures
            world_wf(&r.world),
            dispatcher_wf(&r.dispatcher, &r.world),
            r.dispatcher.player_move.dir == spec_dir_empty(),
            r.world.delta.0 == 0,
            r.world.pending@.len() == 0,
            r.world.keyboard_events.history() == Seq::<KeyboardEvent>::empty(),
            r.world.mouse_events.history() == Seq::<MouseMoveEvent>::empty(),
            r.world.resize_events.history() == Seq::<ResizeEvent>::empty(),
            r.dispatcher.player_move.keyboard_reader.pos as int == r.world.keyboard_events.end(),
            r.dispatcher.player_move.mouse_reader.pos as int == r.world.mouse_events.end(),
            r.dispatcher.render_system.resize_reader.pos as int == r.world.resize_events.end(),
            r.world.active_camera.0 is Some,
            (exists|p: Entity| r.world.active_camera.0 == Some(p)
                && #[trigger] location_of(&r.world, p) == Some(BodyLocation {
                    position: Vec3 { x: 0i64, y: 0i64, z: 5000i64 },
                    yaw: 0i64,
                    pitch: 0i64,
                })
                && velocity_of(&r.world, p) is None
                && render_of(&r.world, p) is None),
            (exists|c: Entity| #[trigger] location_of(&r.world, c) == Some(BodyLocation {
                    position: Vec3 { x: 0i64, y: 0i64, z: 0i64 },
                    yaw: 0i64,
                    pitch: 0i64,
                })
                && render_of(&r.world, c) == Some(RenderBody { model: cube_model })),
    {
        let mut world = World::new();
        let player = world.create_entity(
            Some(BodyLocation::at_pos(Vec3 { x: 0, y: 0, z: 5000 })),
            None,
            None,
        );
        let cube = world.create_entity(
            Some(BodyLocation::zero()),
            None,
            Some(RenderBody { model: cube_model }),
        );
        proof {
            assert(live(&world, player));
            assert(location_of(&world, player) == Some(BodyLocation {
                position: Vec3 { x: 0i64, y: 0i64, z: 5000i64 },
                yaw: 0i64,
                pitch: 0i64,
            }));
        }
        world.active_camera = ActiveCamera(Some(player));
        let player_move = PlayerMoveSystem::new(&world);
        let render_system = RenderSystem::new(Camera::new(DEFAULT_FOV, 1000), &world);
        let app = App {
            world,
            dispatcher: Dispatcher { update_location: UpdateLocation, player_move, render_system },
        };
        proof {
            assert(location_of(&app.world, player) == Some(BodyLocation {
                position: Vec3 { x: 0i64, y: 0i64, z: 5000i64 },
                yaw: 0i64,
                pitch: 0i64,
            }));
            assert(location_of(&app.world, cube) == Some(BodyLocation {
                position: Vec3 { x: 0i64, y: 0i64, z: 0i64 },
                yaw: 0i64,
                pitch: 0i64,
            }));
        }
        app
    }

    /// One external tick: write the elapsed milliseconds into the shared
    /// resource, run the systems in their fixed order, and finish with the
    /// deferred-destruction maintenance step.
    pub fn update(&mut self, delta_millis: u64) -> (frame: Frame)
        requires
            world_wf(&old(self).world),
            dispatcher_wf(&old(self).dispatcher, &old(self).world),
        ensures
            world_wf(&final(self).world),
            dispatcher_wf(&final(self).dispatcher, &final(self).world),
            final(self).world.delta.0 == delta_millis,
            ({
                let slots2 = spec_moved_slots(
                    old(self).dispatcher.player_move.dir,
                    keys_to_read(&old(self).dispatcher.player_move, &old(self).world),
                    moves_to_read(&old(self).dispatcher.player_move, &old(self).world),
                    old(self).world.active_camera.0,
                    spec_integrated(old(self).world.slots@, delta_millis),
                );
                &&& final(self).world.slots@ == spec_maintained(slots2, old(self).world.pending@)
                &&& frame.draws@ == spec_draws(slots2)
            }),
            final(self).dispatcher.player_move.dir == spec_dir_after(
                old(self).dispatcher.player_move.dir,
                keys_to_read(&old(self).dispatcher.player_move, &old(self).world),
            ),
            final(self).dispatcher.render_system.camera == spec_resized(
                old(self).dispatcher.render_system.camera,
                resizes_to_read(&old(self).dispatcher.render_system, &old(self).world),
            ),
            final(self).dispatcher.player_move.keyboard_reader.pos as int
                == old(self).world.keyboard_events.end(),
            final(self).dispatcher.player_move.mouse_reader.pos as int
                == old(self).world.mouse_events.end(),
            final(self).dispatcher.render_system.resize_reader.pos as int
                == old(self).world.resize_events.end(),
            final(self).world.pending@.len() == 0,
            final(self).world.active_camera == old(self).world.active_camera,
            final(self).world.keyboard_events == old(self).world.keyboard_events,
            final(self).world.mouse_events == old(self).world.mouse_events,
            final(self).world.resize_events == old(self).world.resize_events,
    {
        self.world.delta = DeltaTime(delta_millis);
        let frame = self.dispatcher.dispatch(&mut self.world);
        self.world.maintain();
        frame
    }
}

} // verus!
