//! The movement system: key transitions toggle a persistent set of held
//! directions, pointer deltas rotate the active camera, and the held
//! directions move it along its own facing.

use vstd::prelude::*;
use vstd::string::StrSliceExecFns;

use crate::events::{m_clamp, m_end, m_read, ReaderId};
use crate::fixed::{cl64, scaled_unit, spec_scaled_unit, tdiv, tdiv128, clamp128, Vec3};
use crate::input::{KeyState, KeyboardEvent, MouseMoveEvent};
use crate::transform::{spec_forward, spec_rotate, BodyLocation};
use crate::world::{location_in, location_of, world_wf, Entity, Slot, World};

verus! {

/// Units moved per tick while a direction is held (one tenth of a world
/// unit).
pub const MOVE_SPEED: i64 = 100;

/// Pointer sensitivity: each fixed-point pixel of pointer delta turns the
/// camera by a twentieth of a thousandth of a degree (0.05 degrees per
/// pixel).
pub const SENS_DIV: i64 = 20;

/// The set of movement directions currently held.
#[derive(Clone, Copy, Debug, PartialEq, Eq, Structural)]
pub struct MoveDirection {
    pub forward: bool,
    pub back: bool,
    pub left: bool,
    pub right: bool,
}

/// No direction held.
pub open spec fn spec_dir_empty() -> MoveDirection {
    MoveDirection { forward: false, back: false, left: false, right: false }
}

/// Which directions a key names: the identifiers W, S, A and D name one
/// each; any other key names none. Keys are looked up after the case fold
/// of `spec_fold_key`, so a lowercase letter still steers.
pub open spec fn spec_parse_key(key: Seq<char>) -> MoveDirection {
    if key.len() == 1 {
        spec_key_bit(key[0])
    } else {
        spec_dir_empty()
    }
}

/// The direction a single key character names.
pub open spec fn spec_key_bit(c: char) -> MoveDirection {
    if c == 'W' {
        MoveDirection { forward: true, back: false, left: false, right: false }
    } else if c == 'S' {
        MoveDirection { forward: false, back: true, left: false, right: false }
    } else if c == 'A' {
        MoveDirection { forward: false, back: false, left: true, right: false }
    } else if c == 'D' {
        MoveDirection { forward: false, back: false, left: false, right: true }
    } else {
        spec_dir_empty()
    }
}

/// Fold the lowercase movement letters to their uppercase identifiers;
/// every other character is kept (the lookup ignores it either way).
pub open spec fn spec_upper_char(c: char) -> char {
    if c == 'w' {
        'W'
    } else if c == 's' {
        'S'
    } else if c == 'a' {
        'A'
    } else if c == 'd' {
        'D'
    } else {
        c
    }
}

/// The case fold applied to a key before the direction lookup.
pub open spec fn spec_fold_key(key: Seq<char>) -> Seq<char> {
    key.map_values(|c: char| spec_upper_char(c))
}

/// Set the named directions when the key went down, clear them when it
/// went up; directions the key does not name are untouched.
pub open spec fn spec_toggle(d: MoveDirection, mask: MoveDirection, pressed: bool) -> MoveDirection {
    MoveDirection {
        forward: if mask.forward { pressed } else { d.forward },
        back: if mask.back { pressed } else { d.back },
        left: if mask.left { pressed } else { d.left },
        right: if mask.right { pressed } else { d.right },
    }
}

/// The direction state after one key transition: the key is case-folded,
/// looked up, and the named directions set or cleared.
pub open spec fn spec_apply_key(d: MoveDirection, e: KeyboardEvent) -> MoveDirection {
    spec_toggle(d, spec_parse_key(spec_fold_key(e.key@)), e.state == KeyState::DOWN)
}

/// The direction state after a sequence of key transitions, oldest first.
pub open spec fn spec_dir_after(d: MoveDirection, es: Seq<KeyboardEvent>) -> MoveDirection
    decreases es.len(),
{
    if es.len() == 0 {
        d
    } else {
        spec_apply_key(spec_dir_after(d, es.drop_last()), es.last())
    }
}

/// The raw movement vector of a direction set: forward is negative Z,
/// right is positive X, and opposing held directions cancel to zero on
/// their axis.
pub open spec fn spec_move_vec(d: MoveDirection) -> Vec3 {
    Vec3 {
        x: ((if d.right { 1000int } else { 0int }) - (if d.left { 1000int } else { 0int })) as i64,
        y: 0,
        z: ((if d.back { 1000int } else { 0int }) - (if d.forward { 1000int } else { 0int })) as i64,
    }
}

/// The location after the held directions are applied: none held (or all
/// cancelling) means no motion; otherwise the unit-length combination of
/// the held directions, scaled to `MOVE_SPEED`, is applied along the
/// current facing.
pub open spec fn spec_apply_vel(d: MoveDirection, loc: BodyLocation) -> BodyLocation {
    let v = spec_move_vec(d);
    if v == (Vec3 { x: 0i64, y: 0i64, z: 0i64 }) {
        loc
    } else {
        spec_forward(loc, spec_scaled_unit(v, MOVE_SPEED))
    }
}

/// One pointer-delta step of the camera rotation.
pub open spec fn spec_rotate_by_event(loc: BodyLocation, e: MouseMoveEvent) -> BodyLocation {
    spec_rotate(loc, cl64(tdiv(e.dx as int, SENS_DIV as int)), cl64(tdiv(e.dy as int, SENS_DIV as int)))
}

/// The camera location after a sequence of pointer deltas, oldest first.
pub open spec fn spec_rotated(loc: BodyLocation, es: Seq<MouseMoveEvent>) -> BodyLocation
    decreases es.len(),
{
    if es.len() == 0 {
        loc
    } else {
        spec_rotate_by_event(spec_rotated(loc, es.drop_last()), es.last())
    }
}

/// Held directions that oppose each other contribute no motion on their
/// axis: holding both forward and back moves neither way, and likewise
/// left and right.
pub proof fn lemma_opposing_directions_cancel(d: MoveDirection)
    ensures
        d.forward == d.back ==> spec_move_vec(d).z == 0,
        d.left == d.right ==> spec_move_vec(d).x == 0,
{
}

/// Pressing one direction and then its opposite (both then held) yields a
/// state whose net motion on that axis is zero, whatever was held before.
pub proof fn lemma_press_forward_then_back(d: MoveDirection)
    ensures
        spec_move_vec(
            spec_toggle(
                spec_toggle(d, spec_key_bit('W'), true),
                spec_key_bit('S'),
                true,
            ),
        ).z == 0,
{
}

/// Pressing a direction and then releasing it restores the empty state.
pub proof fn lemma_press_then_release_is_empty()
    ensures
        spec_toggle(
            spec_toggle(spec_dir_empty(), spec_key_bit('W'), true),
            spec_key_bit('W'),
            false,
        ) == spec_dir_empty(),
{
}

/// The slots after one movement tick: with an active camera entity that is
/// live and has a location, that location is rotated by every pending
/// pointer delta in order and then moved along the held directions; in
/// every other case the slots are untouched.
pub open spec fn spec_moved_slots(
    dir0: MoveDirection,
    kevts: Seq<KeyboardEvent>,
    mevts: Seq<MouseMoveEvent>,
    cam: Option<Entity>,
    slots: Seq<Slot>,
) -> Seq<Slot> {
    match cam {
        Some(e) => match location_in(slots, e) {
            Some(loc0) => slots.update(
                e.index as int,
                Slot {
                    gen: slots[e.index as int].gen,
                    alive: true,
                    location: Some(spec_apply_vel(
                        spec_dir_after(dir0, kevts),
                        spec_rotated(loc0, mevts),
                    )),
                    velocity: slots[e.index as int].velocity,
                    render: slots[e.index as int].render,
                },
            ),
            None => slots,
        },
        None => slots,
    }
}

/// The per-tick movement system: holds its two event cursors and the
/// persistent direction state.
pub struct PlayerMoveSystem {
    pub keyboard_reader: ReaderId,
    pub mouse_reader: ReaderId,
    pub dir: MoveDirection,
}

/// The system's cursors do not run ahead of the world's channels.
pub open spec fn move_sys_wf(sys: &PlayerMoveSystem, w: &World) -> bool {
    &&& sys.keyboard_reader.pos <= w.keyboard_events.end()
    &&& sys.mouse_reader.pos <= w.mouse_events.end()
}

/// The key transitions this system would drain from the world right now.
pub open spec fn keys_to_read(sys: &PlayerMoveSystem, w: &World) -> Seq<KeyboardEvent> {
    m_read(w.keyboard_events.model(), sys.keyboard_reader.pos as int)
}

/// The pointer deltas this system would drain from the world right now.
pub open spec fn moves_to_read(sys: &PlayerMoveSystem, w: &World) -> Seq<MouseMoveEvent> {
    m_read(w.mouse_events.model(), sys.mouse_reader.pos as int)
}

impl PlayerMoveSystem {
    /// A fresh system: cursors at "now", nothing held.
    pub fn new(world: &World) -> (r: PlayerMoveSystem)
        requires
            world_wf(world),
        ensures
            r.keyboard_reader.pos as int == world.keyboard_events.end(),
            r.mouse_reader.pos as int == world.mouse_events.end(),
            r.dir == spec_dir_empty(),
            move_sys_wf(&r, world),
    {
        PlayerMoveSystem {
            keyboard_reader: world.keyboard_events.register_reader(),
            mouse_reader: world.mouse_events.register_reader(),
            dir: MoveDirection { forward: false, back: false, left: false, right: false },
        }
    }

    /// Which directions a key names: exactly the four uppercase
    /// identifiers; everything else names none.
    pub fn parse_key(key: &String) -> (r: MoveDirection)
        ensures
            r == spec_parse_key(key@),
    {
        if key.as_str().unicode_len() != 1 {
            return MoveDirection { forward: false, back: false, left: false, right: false };
        }
        let c: char = key.as_str().get_char(0);
        if c == 'W' {
            MoveDirection { forward: true, back: false, left: false, right: false }
        } else if c == 'S' {
            MoveDirection { forward: false, back: true, left: false, right: false }
        } else if c == 'A' {
            MoveDirection { forward: false, back: false, left: true, right: false }
        } else if c == 'D' {
            MoveDirection { forward: false, back: false, left: false, right: true }
        } else {
            MoveDirection { forward: false, back: false, left: false, right: false }
        }
    }

    /// The direction lookup applied to the case-folded key: what
    /// `parse_key` yields for the key's uppercase form.
    fn key_mask(key: &String) -> (r: MoveDirection)
        ensures
            r == spec_parse_key(spec_fold_key(key@)),
    {
        proof {
            assert(spec_fold_key(key@).len() == key@.len());
        }
        if key.as_str().unicode_len() != 1 {
            return MoveDirection { forward: false, back: false, left: false, right: false };
        }
        let c: char = key.as_str().get_char(0);
        let folded: char = if c == 'w' {
            'W'
        } else if c == 's' {
            'S'
        } else if c == 'a' {
            'A'
        } else if c == 'd' {
            'D'
        } else {
            c
        };
        proof {
            assert(spec_fold_key(key@)[0] == spec_upper_char(key@[0]));
        }
        if folded == 'W' {
            MoveDirection { forward: true, back: false, left: false, right: false }
        } else if folded == 'S' {
            MoveDirection { forward: false, back: true, left: false, right: false }
        } else if folded == 'A' {
            MoveDirection { forward: false, back: false, left: true, right: false }
        } else if folded == 'D' {
            MoveDirection { forward: false, back: false, left: false, right: true }
        } else {
            MoveDirection { forward: false, back: false, left: false, right: false }
        }
    }

    /// The raw movement vector of the held directions.
    pub fn move_vec(&self) -> (r: Vec3)
        ensures
            r == spec_move_vec(self.dir),
    {
        let mut v = Vec3 { x: 0i64, y: 0i64, z: 0i64 };
        if self.dir.forward {
            v.z = v.z - 1000;
        }
        if self.dir.back {
            v.z = v.z + 1000;
        }
        if self.dir.left {
            v.x = v.x - 1000;
        }
        if self.dir.right {
            v.x = v.x + 1000;
        }
        v
    }

    /// Run one tick of the system: drain every pending key transition into
    /// the direction state; then, if an entity is the active camera and has
    /// a location, apply every pending pointer delta as rotation in event
    /// order and move along the resulting facing; without an active camera
    /// the pointer deltas are still drained, and nothing moves.
    pub fn run(&mut self, world: &mut World)
        requires
            world_wf(old(world)),
            move_sys_wf(old(self), old(world)),
        ensures
            world_wf(final(world)),
            final(self).keyboard_reader.pos as int == old(world).keyboard_events.end(),
            final(self).mouse_reader.pos as int == old(world).mouse_events.end(),
            final(self).dir == spec_dir_after(old(self).dir, keys_to_read(old(self), old(world))),
            final(world).keyboard_events == old(world).keyboard_events,
            final(world).mouse_events == old(world).mouse_events,
            final(world).resize_events == old(world).resize_events,
            final(world).active_camera == old(world).active_camera,
            final(world).delta == old(world).delta,
            final(world).pending == old(world).pending,
            final(world).slots@ == spec_moved_slots(
                old(self).dir,
                keys_to_read(old(self), old(world)),
                moves_to_read(old(self), old(world)),
                old(world).active_camera.0,
                old(world).slots@,
            ),
            (forall|e: Entity| old(world).active_camera.0 == Some(e)
                && #[trigger] location_of(old(world), e) is Some
                ==> final(world).slots@ == old(world).slots@.update(
                    e.index as int,
                    Slot {
                        gen: old(world).slots@[e.index as int].gen,
                        alive: true,
                        location: Some(spec_apply_vel(
                            spec_dir_after(old(self).dir, keys_to_read(old(self), old(world))),
                            spec_rotated(
                                location_of(old(world), e).unwrap(),
                                moves_to_read(old(self), old(world)),
                            ),
                        )),
                        velocity: old(world).slots@[e.index as int].velocity,
                        render: old(world).slots@[e.index as int].render,
                    },
                )),
            old(world).active_camera.0 is None ==> final(world).slots == old(world).slots,
            (forall|e: Entity| old(world).active_camera.0 == Some(e)
                && #[trigger] location_of(old(world), e) is None
                ==> final(world).slots == old(world).slots),
    {
        proof {
            world.keyboard_events.lemma_abs();
            world.mouse_events.lemma_abs();
        }
        let ghost kmodel = world.keyboard_events.model();
        let ghost khist = world.keyboard_events.history();
        let ghost kstart = m_clamp(kmodel, self.keyboard_reader.pos as int);
        let ghost kend = world.keyboard_events.end();
        proof {
            assert(keys_to_read(self, world) =~= khist.subrange(kstart, kend));
        }
        proof {
            assert(kstart <= kend);
        }
        loop
            invariant
                world_wf(world),
                *world == *old(world),
                self.mouse_reader == old(self).mouse_reader,
                kmodel == world.keyboard_events.model(),
                khist == world.keyboard_events.history(),
                kend == world.keyboard_events.end(),
                m_end(kmodel) == kend,
                kstart == m_clamp(kmodel, old(self).keyboard_reader.pos as int),
                keys_to_read(old(self), old(world)) == khist.subrange(kstart, kend),
                self.keyboard_reader.pos as int <= kend,
                kstart <= m_clamp(kmodel, self.keyboard_reader.pos as int) <= kend,
                self.dir == spec_dir_after(
                    old(self).dir,
                    khist.subrange(kstart, m_clamp(kmodel, self.keyboard_reader.pos as int)),
                ),
            ensures
                *world == *old(world),
                self.mouse_reader == old(self).mouse_reader,
                self.keyboard_reader.pos as int == kend,
                self.dir == spec_dir_after(old(self).dir, keys_to_read(old(self), old(world))),
            decreases kend - m_clamp(kmodel, self.keyboard_reader.pos as int),
        {
            let ghost prepos = m_clamp(kmodel, self.keyboard_reader.pos as int);
            let next = world.keyboard_events.read_next(&mut self.keyboard_reader);
            match next {
                Some(e) => {
                    let mask = PlayerMoveSystem::key_mask(&e.key);
                    let pressed: bool = match e.state {
                        KeyState::DOWN => true,
                        KeyState::UP => false,
                    };
                    self.dir = MoveDirection {
                        forward: if mask.forward { pressed } else { self.dir.forward },
                        back: if mask.back { pressed } else { self.dir.back },
                        left: if mask.left { pressed } else { self.dir.left },
                        right: if mask.right { pressed } else { self.dir.right },
                    };
                    proof {
                        let pre = khist.subrange(kstart, prepos);
                        let post = khist.subrange(kstart, prepos + 1);
                        assert(post =~= pre.push(khist[prepos]));
                        assert(post.drop_last() =~= pre);
                        assert(self.dir == spec_apply_key(spec_dir_after(old(self).dir, pre), *e));
                        assert(self.dir == spec_dir_after(old(self).dir, post));
                    }
                }
                None => {
                    proof {
                        assert(m_clamp(kmodel, self.keyboard_reader.pos as int) == kend);
                        assert(self.keyboard_reader.pos as int == kend);
                    }
                    break;
                }
            }
        }
        proof {
            assert(self.dir == spec_dir_after(old(self).dir, keys_to_read(old(self), old(world))));
        }

        let cam_entity: Option<Entity> = world.active_camera.0;
        let camera_loc: Option<BodyLocation> = match cam_entity {
            Some(e) => world.location(e),
            None => None,
        };
        match (cam_entity, camera_loc) {
            (Some(e), Some(loc0)) => {
                let ms = world.mouse_events.read(&mut self.mouse_reader);
                let mut loc: BodyLocation = loc0;
                let n: usize = ms.len();
                let mut i: usize = 0;
                while i < n
                    invariant
                        n == ms@.len(),
                        i <= n,
                        loc == spec_rotated(loc0, ms@.subrange(0, i as int)),
                    decreases n - i,
                {
                    let ev: MouseMoveEvent = ms[i];
                    let dyaw: i64 = clamp128(tdiv128(ev.dx as i128, SENS_DIV));
                    let dpitch: i64 = clamp128(tdiv128(ev.dy as i128, SENS_DIV));
                    loc.rotate(dyaw, dpitch);
                    proof {
                        let pre = ms@.subrange(0, i as int);
                        let post = ms@.subrange(0, i + 1);
                        assert(post =~= pre.push(ms@[i as int]));
                        assert(post.drop_last() =~= pre);
                    }
                    i = i + 1;
                }
                proof {
                    assert(ms@.subrange(0, n as int) =~= ms@);
                }
                let mv = self.move_vec();
                if !(mv.x == 0 && mv.y == 0 && mv.z == 0) {
                    let step = scaled_unit(mv, MOVE_SPEED);
                    loc.forward(step);
                }
                world.set_location(e, loc);
            }
            _ => {
                world.mouse_events.read(&mut self.mouse_reader);
            }
        }
    }
}

} // verus!
