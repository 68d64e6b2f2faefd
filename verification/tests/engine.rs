use simcore::app::{App, Dispatcher};
use simcore::fixed::Vec3;
use simcore::input::{KeyState, KeyboardEvent, MouseMoveEvent, ResizeEvent};
use simcore::integrate::UpdateLocation;
use simcore::movement::PlayerMoveSystem;
use simcore::render::{Camera, RenderSystem};
use simcore::transform::BodyLocation;
use simcore::world::{RenderBody, Velocity, World};

#[test]
fn deferred_destruction_stays_visible_until_maintain() {
    let mut world = World::new();
    let e = world.create_entity(Some(BodyLocation::zero()), None, None);
    world.destroy_entity(e);
    // Queued for destruction, but still fully visible.
    assert!(world.location(e).is_some());
    world.maintain();
    // Gone, and the slot was recycled with a higher generation.
    assert!(world.location(e).is_none());
    let reused = world.create_entity(Some(BodyLocation::zero()), None, None);
    assert_eq!(reused.index, e.index);
    assert_eq!(reused.generation, e.generation + 1);
    // The stale handle still resolves to nothing.
    assert!(world.location(e).is_none());
}

#[test]
fn destroy_is_idempotent() {
    let mut world = World::new();
    let e = world.create_entity(Some(BodyLocation::zero()), None, None);
    world.destroy_entity(e);
    world.destroy_entity(e);
    world.maintain();
    assert!(world.location(e).is_none());
    // Destroying an already-destroyed or never-created entity is a no-op.
    world.destroy_entity(e);
    world.maintain();
    let other = simcore::world::Entity { index: 99, generation: 0 };
    world.destroy_entity(other);
    world.maintain();
}

#[test]
fn integration_advances_by_velocity_times_elapsed() {
    let mut world = World::new();
    let e = world.create_entity(
        Some(BodyLocation::at_pos(Vec3 { x: 100, y: 0, z: 0 })),
        Some(Velocity(Vec3 { x: 10, y: -5, z: 0 })),
        None,
    );
    world.delta = simcore::world::DeltaTime(3);
    UpdateLocation.run(&mut world);
    let loc = world.location(e).unwrap();
    assert_eq!(loc.position, Vec3 { x: 130, y: -15, z: 0 });
}

#[test]
fn tick_without_camera_drains_events_and_moves_nothing() {
    let mut world = World::new();
    let e = world.create_entity(Some(BodyLocation::zero()), None, None);
    let player_move = PlayerMoveSystem::new(&world);
    let render_system = RenderSystem::new(Camera::new(45_000, 1000), &world);
    let mut app = App {
        world,
        dispatcher: Dispatcher {
            update_location: UpdateLocation,
            player_move,
            render_system,
        },
    };
    app.world.push_mouse_event(MouseMoveEvent { dx: 20_000, dy: 0 });
    app.update(16);
    // The pointer event was drained (the cursor advanced past it)...
    assert_eq!(app.dispatcher.player_move.mouse_reader.pos, 1);
    // ...but with no active camera nothing moved.
    let loc = app.world.location(e).unwrap();
    assert_eq!(loc.position, Vec3 { x: 0, y: 0, z: 0 });
    assert_eq!(loc.yaw, 0);
    assert_eq!(loc.pitch, 0);
}

#[test]
fn held_forward_moves_camera_down_negative_z() {
    let mut app = App::create(0);
    let player = app.world.active_camera.0.unwrap();
    app.world.push_key_event(KeyboardEvent { state: KeyState::DOWN, key: "w".to_string() });
    app.update(1);
    let loc = app.world.location(player).unwrap();
    // Forward maps to negative Z; the step is exactly the speed constant.
    assert_eq!(loc.position, Vec3 { x: 0, y: 0, z: 5000 - 100 });
}

#[test]
fn opposing_held_directions_cancel() {
    let mut app = App::create(0);
    let player = app.world.active_camera.0.unwrap();
    app.world.push_key_event(KeyboardEvent { state: KeyState::DOWN, key: "w".to_string() });
    app.world.push_key_event(KeyboardEvent { state: KeyState::DOWN, key: "s".to_string() });
    app.update(1);
    let loc = app.world.location(player).unwrap();
    assert_eq!(loc.position, Vec3 { x: 0, y: 0, z: 5000 });
    assert!(app.dispatcher.player_move.dir.forward);
    assert!(app.dispatcher.player_move.dir.back);
}

#[test]
fn releasing_a_key_empties_the_direction_state() {
    let mut app = App::create(0);
    app.world.push_key_event(KeyboardEvent { state: KeyState::DOWN, key: "w".to_string() });
    app.update(1);
    assert!(app.dispatcher.player_move.dir.forward);
    app.world.push_key_event(KeyboardEvent { state: KeyState::UP, key: "W".to_string() });
    app.update(1);
    let dir = app.dispatcher.player_move.dir;
    assert!(!dir.forward && !dir.back && !dir.left && !dir.right);
}

#[test]
fn parse_key_names_only_the_uppercase_identifiers() {
    let up = PlayerMoveSystem::parse_key(&"W".to_string());
    assert!(up.forward && !up.back && !up.left && !up.right);
    let back = PlayerMoveSystem::parse_key(&"S".to_string());
    assert!(back.back);
    let left = PlayerMoveSystem::parse_key(&"A".to_string());
    assert!(left.left);
    let right = PlayerMoveSystem::parse_key(&"D".to_string());
    assert!(right.right);
    // The helper itself is case-sensitive; the fold happens where a key
    // transition is consumed.
    for key in ["w", "s", "a", "d", "Q", "Shift", ""] {
        let none = PlayerMoveSystem::parse_key(&key.to_string());
        assert!(!none.forward && !none.back && !none.left && !none.right, "{}", key);
    }
}

#[test]
fn lowercase_keys_still_steer_through_the_fold() {
    let mut app = App::create(0);
    app.world.push_key_event(KeyboardEvent { state: KeyState::DOWN, key: "s".to_string() });
    app.update(1);
    assert!(app.dispatcher.player_move.dir.back);
    let player = app.world.active_camera.0.unwrap();
    assert_eq!(app.world.location(player).unwrap().position, Vec3 { x: 0, y: 0, z: 5100 });
}

#[test]
fn unrecognized_keys_are_ignored() {
    let mut app = App::create(0);
    let player = app.world.active_camera.0.unwrap();
    app.world.push_key_event(KeyboardEvent { state: KeyState::DOWN, key: "Shift".to_string() });
    app.world.push_key_event(KeyboardEvent { state: KeyState::DOWN, key: "q".to_string() });
    app.update(1);
    let dir = app.dispatcher.player_move.dir;
    assert!(!dir.forward && !dir.back && !dir.left && !dir.right);
    assert_eq!(app.world.location(player).unwrap().position, Vec3 { x: 0, y: 0, z: 5000 });
}

#[test]
fn pointer_deltas_rotate_the_camera_in_order() {
    let mut app = App::create(0);
    let player = app.world.active_camera.0.unwrap();
    // Twenty fixed-point pixels at 0.05 degrees per pixel: one degree.
    app.world.push_mouse_event(MouseMoveEvent { dx: 20_000, dy: 0 });
    app.world.push_mouse_event(MouseMoveEvent { dx: 0, dy: -40_000 });
    app.update(16);
    let loc = app.world.location(player).unwrap();
    assert_eq!(loc.yaw, 1000);
    assert_eq!(loc.pitch, -2000);
}

#[test]
fn diagonal_motion_is_unit_length() {
    let mut app = App::create(0);
    let player = app.world.active_camera.0.unwrap();
    app.world.push_key_event(KeyboardEvent { state: KeyState::DOWN, key: "w".to_string() });
    app.world.push_key_event(KeyboardEvent { state: KeyState::DOWN, key: "d".to_string() });
    app.update(1);
    let loc = app.world.location(player).unwrap();
    assert_eq!(loc.position, Vec3 { x: 70, y: 0, z: 5000 - 70 });
}

#[test]
fn resize_rebuilds_the_projection() {
    let mut app = App::create(0);
    let before = app.dispatcher.render_system.camera.projection_matrix;
    app.world.push_resize_event(ResizeEvent { width: 800, height: 600 });
    app.update(16);
    let cam = &app.dispatcher.render_system.camera;
    assert_eq!(cam.aspect_ratio, 800 * 1000 / 600);
    assert_ne!(cam.projection_matrix, before);
    assert_eq!(app.dispatcher.render_system.resize_reader.pos, 1);
}

#[test]
fn frame_lists_every_renderable_entity() {
    let mut app = App::create(7);
    let frame = app.update(16);
    assert_eq!(frame.draws.len(), 1);
    assert_eq!(frame.draws[0].model, 7);
}

#[test]
fn destroyed_renderable_leaves_the_frame_after_maintain() {
    let mut world = World::new();
    let body = world.create_entity(
        Some(BodyLocation::zero()),
        None,
        Some(RenderBody::from_model(3)),
    );
    let player_move = PlayerMoveSystem::new(&world);
    let render_system = RenderSystem::new(Camera::new(45_000, 1000), &world);
    let mut app = App {
        world,
        dispatcher: Dispatcher {
            update_location: UpdateLocation,
            player_move,
            render_system,
        },
    };
    // Destroy mid-tick: the entity is still visible to this tick's systems.
    app.world.destroy_entity(body);
    let frame = app.update(16);
    assert_eq!(frame.draws.len(), 1);
    // After the end-of-tick maintenance it is gone.
    let frame = app.update(16);
    assert_eq!(frame.draws.len(), 0);
    assert!(app.world.location(body).is_none());
}
