//! The entity store: entities, their components, and shared resources.
//!
//! An `Entity` is a slot index plus a generation counter; a stale handle
//! (one whose generation no longer matches the slot's) never reaches the
//! slot's current occupant. Destruction is deferred: `destroy_entity` only
//! queues the entity, every component stays visible until `maintain`
//! applies the queue between ticks, clears the slot and bumps its
//! generation so the slot can be recycled.

use vstd::prelude::*;

use crate::events::{m_push, EventChannel};
use crate::fixed::Vec3;
use crate::input::{KeyboardEvent, MouseMoveEvent, ResizeEvent};
use crate::transform::BodyLocation;

verus! {

/// How many events each channel retains.
pub const CHANNEL_CAPACITY: usize = 64;

/// A stable handle to a simulated object.
#[derive(Clone, Copy, Debug, PartialEq, Eq, Structural)]
pub struct Entity {
    pub index: usize,
    pub generation: u64,
}

/// Entity-local displacement per millisecond, in fixed point.
#[derive(Clone, Copy, Debug, PartialEq, Eq, Structural)]
pub struct Velocity(pub Vec3);

/// An opaque handle to a renderable mesh owned by the rendering
/// collaborator; the simulation only stores and forwards it.
#[derive(Clone, Copy, Debug, PartialEq, Eq, Structural)]
pub struct RenderBody {
    pub model: u64,
}

impl RenderBody {
    /// Wrap a mesh handle.
    pub fn from_model(model: u64) -> (r: RenderBody)
        ensures
            r.model == model,
    {
        RenderBody { model }
    }
}

/// The entity currently designated as the viewpoint, if any.
#[derive(Clone, Copy, Debug)]
pub struct ActiveCamera(pub Option<Entity>);

/// Duration of the most recent tick, in milliseconds.
#[derive(Clone, Copy, Debug, PartialEq, Eq, Structural)]
pub struct DeltaTime(pub u64);

/// One storage slot: its current generation, whether it is occupied, and
/// the components of its occupant.
pub struct Slot {
    pub gen: u64,
    pub alive: bool,
    pub location: Option<BodyLocation>,
    pub velocity: Option<Velocity>,
    pub render: Option<RenderBody>,
}

/// A destroyed slot: unoccupied, components gone, generation advanced (a
/// slot whose generation counter is exhausted is retired instead of
/// recycled).
pub open spec fn cleared(s: Slot) -> Slot {
    Slot {
        gen: if s.gen < u64::MAX {
            (s.gen + 1) as u64
        } else {
            s.gen
        },
        alive: false,
        location: None,
        velocity: None,
        render: None,
    }
}

/// The entity store and the shared resources of the scene.
pub struct World {
    pub slots: Vec<Slot>,
    pub pending: Vec<Entity>,
    pub active_camera: ActiveCamera,
    pub delta: DeltaTime,
    pub keyboard_events: EventChannel<KeyboardEvent>,
    pub mouse_events: EventChannel<MouseMoveEvent>,
    pub resize_events: EventChannel<ResizeEvent>,
}

/// The store's invariant: each channel is well formed.
pub open spec fn world_wf(w: &World) -> bool {
    &&& w.keyboard_events.wf()
    &&& w.mouse_events.wf()
    &&& w.resize_events.wf()
}

/// `e` currently names the occupant of its slot.
pub open spec fn live_in(slots: Seq<Slot>, e: Entity) -> bool {
    &&& e.index < slots.len()
    &&& slots[e.index as int].gen == e.generation
    &&& slots[e.index as int].alive
}

/// The location component of `e`, when `e` is live and has one.
pub open spec fn location_in(slots: Seq<Slot>, e: Entity) -> Option<BodyLocation> {
    if live_in(slots, e) {
        slots[e.index as int].location
    } else {
        None
    }
}

/// The velocity component of `e`, when `e` is live and has one.
pub open spec fn velocity_in(slots: Seq<Slot>, e: Entity) -> Option<Velocity> {
    if live_in(slots, e) {
        slots[e.index as int].velocity
    } else {
        None
    }
}

/// The render component of `e`, when `e` is live and has one.
pub open spec fn render_in(slots: Seq<Slot>, e: Entity) -> Option<RenderBody> {
    if live_in(slots, e) {
        slots[e.index as int].render
    } else {
        None
    }
}

/// `e` currently names the occupant of its slot.
pub open spec fn live(w: &World, e: Entity) -> bool {
    live_in(w.slots@, e)
}

/// The location component of `e`, when `e` is live and has one.
pub open spec fn location_of(w: &World, e: Entity) -> Option<BodyLocation> {
    location_in(w.slots@, e)
}

/// The velocity component of `e`, when `e` is live and has one.
pub open spec fn velocity_of(w: &World, e: Entity) -> Option<Velocity> {
    velocity_in(w.slots@, e)
}

/// The render component of `e`, when `e` is live and has one.
pub open spec fn render_of(w: &World, e: Entity) -> Option<RenderBody> {
    render_in(w.slots@, e)
}

/// Entity `i` of slot state `slots` is queued for destruction by the
/// pending list `pending`.
pub open spec fn doomed(slots: Seq<Slot>, pending: Seq<Entity>, i: int) -> bool {
    &&& 0 <= i < slots.len()
    &&& slots[i].alive
    &&& exists|k: int|
        0 <= k < pending.len() && pending[k].index == i && pending[k].generation == slots[i].gen
}

/// The slots after `maintain`: each queued live entity's slot cleared,
/// every other slot untouched.
pub open spec fn spec_maintained(slots: Seq<Slot>, pending: Seq<Entity>) -> Seq<Slot> {
    Seq::new(
        slots.len(),
        |i: int| if doomed(slots, pending, i) {
            cleared(slots[i])
        } else {
            slots[i]
        },
    )
}

/// Deferred destruction: queueing an entity leaves every slot — and so
/// every component — untouched (that is `destroy_entity`'s contract), and
/// the maintenance step then removes exactly the queued entities: a queued
/// live entity's slot is freed with its generation advanced, so the old
/// handle goes stale.
pub proof fn lemma_queued_entity_removed_at_maintain(
    slots: Seq<Slot>,
    pending: Seq<Entity>,
    e: Entity,
)
    requires
        live_in(slots, e),
        pending.contains(e),
        e.generation < u64::MAX,
    ensures
        !live_in(spec_maintained(slots, pending), e),
        spec_maintained(slots, pending)[e.index as int].gen == e.generation + 1,
        spec_maintained(slots, pending)[e.index as int].location is None,
        spec_maintained(slots, pending)[e.index as int].velocity is None,
        spec_maintained(slots, pending)[e.index as int].render is None,
{
    let i = e.index as int;
    let k = choose|k: int| 0 <= k < pending.len() && pending[k] == e;
    assert(pending[k].index == i && pending[k].generation == slots[i].gen);
    assert(doomed(slots, pending, i));
    assert(spec_maintained(slots, pending)[i] == cleared(slots[i]));
}

/// Entities that are live and not queued survive the maintenance step with
/// every component intact.
pub proof fn lemma_unqueued_entity_survives_maintain(
    slots: Seq<Slot>,
    pending: Seq<Entity>,
    e: Entity,
)
    requires
        live_in(slots, e),
        !pending.contains(e),
    ensures
        live_in(spec_maintained(slots, pending), e),
        spec_maintained(slots, pending)[e.index as int] == slots[e.index as int],
{
    let i = e.index as int;
    if doomed(slots, pending, i) {
        let k = choose|k: int|
            0 <= k < pending.len() && pending[k].index == i
                && pending[k].generation == slots[i].gen;
        assert(pending[k] == e);
        assert(pending.contains(e));
    }
}

impl World {
    /// An empty world: no entities, no pending destruction, no active
    /// camera, zero elapsed time, and one empty channel per event kind.
    pub fn new() -> (w: World)
        ensures
            world_wf(&w),
            w.slots@.len() == 0,
            w.pending@.len() == 0,
            w.active_camera.0 is None,
            w.delta.0 == 0,
            w.keyboard_events.history() == Seq::<KeyboardEvent>::empty(),
            w.mouse_events.history() == Seq::<MouseMoveEvent>::empty(),
            w.resize_events.history() == Seq::<ResizeEvent>::empty(),
            w.keyboard_events.model().cap == CHANNEL_CAPACITY as int,
            w.mouse_events.model().cap == CHANNEL_CAPACITY as int,
            w.resize_events.model().cap == CHANNEL_CAPACITY as int,
    {
        World {
            slots: Vec::new(),
            pending: Vec::new(),
            active_camera: ActiveCamera(None),
            delta: DeltaTime(0),
            keyboard_events: EventChannel::with_capacity(CHANNEL_CAPACITY),
            mouse_events: EventChannel::with_capacity(CHANNEL_CAPACITY),
            resize_events: EventChannel::with_capacity(CHANNEL_CAPACITY),
        }
    }

    /// Create an entity with the given initial components, reusing the
    /// first free slot if one exists and appending a fresh slot otherwise.
    pub fn create_entity(
        &mut self,
        location: Option<BodyLocation>,
        velocity: Option<Velocity>,
        render: Option<RenderBody>,
    ) -> (r: Entity)
        requires
            world_wf(old(self)),
            old(self).slots@.len() < usize::MAX,
        ensures
            world_wf(final(self)),
            live(final(self), r),
            location_of(final(self), r) == location,
            velocity_of(final(self), r) == velocity,
            render_of(final(self), r) == render,
            !live(old(self), r),
            old(self).slots@.len() <= final(self).slots@.len()
                <= old(self).slots@.len() + 1,
            forall|e: Entity| live(old(self), e) ==> #[trigger] live(final(self), e)
                && final(self).slots@[e.index as int] == old(self).slots@[e.index as int],
            forall|e: Entity| !live(old(self), e) && e != r ==> !#[trigger] live(final(self), e),
            final(self).pending == old(self).pending,
            final(self).active_camera == old(self).active_camera,
            final(self).delta == old(self).delta,
            final(self).keyboard_events == old(self).keyboard_events,
            final(self).mouse_events == old(self).mouse_events,
            final(self).resize_events == old(self).resize_events,
    {
        let n: usize = self.slots.len();
        let mut i: usize = 0;
        while i < n
            invariant
                world_wf(old(self)),
                n == self.slots@.len(),
                i <= n,
                *self == *old(self),
                forall|j: int| 0 <= j < i ==>
                    (#[trigger] self.slots@[j].alive || self.slots@[j].gen == u64::MAX),
            decreases n - i,
        {
            if !self.slots[i].alive && self.slots[i].gen < u64::MAX {
                let g: u64 = self.slots[i].gen;
                self.slots.set(i, Slot { gen: g, alive: true, location, velocity, render });
                let r = Entity { index: i, generation: g };
                assert(forall|e: Entity| live(old(self), e)
                    ==> #[trigger] live(self, e)
                        && self.slots@[e.index as int] == old(self).slots@[e.index as int]);
                return r;
            }
            i = i + 1;
        }
        let g: u64 = 0;
        self.slots.push(Slot { gen: g, alive: true, location, velocity, render });
        let r = Entity { index: n, generation: g };
        assert(forall|e: Entity| live(old(self), e)
            ==> #[trigger] live(self, e)
                && self.slots@[e.index as int] == old(self).slots@[e.index as int]);
        r
    }

    /// Queue `e` for destruction at the next `maintain`. Idempotent: a
    /// stale or never-created handle is ignored. Nothing is removed yet —
    /// every component of `e` stays visible until `maintain` runs.
    pub fn destroy_entity(&mut self, e: Entity)
        ensures
            final(self).slots == old(self).slots,
            live(old(self), e) ==> final(self).pending@ == old(self).pending@.push(e),
            !live(old(self), e) ==> final(self).pending == old(self).pending,
            final(self).active_camera == old(self).active_camera,
            final(self).delta == old(self).delta,
            final(self).keyboard_events == old(self).keyboard_events,
            final(self).mouse_events == old(self).mouse_events,
            final(self).resize_events == old(self).resize_events,
    {
        if e.index < self.slots.len() {
            let s = &self.slots[e.index];
            if s.alive && s.gen == e.generation {
                self.pending.push(e);
            }
        }
    }

    /// Apply every queued destruction atomically, between ticks: each
    /// queued live entity's slot is cleared and its generation advanced;
    /// every other slot is untouched; the queue empties.
    pub fn maintain(&mut self)
        ensures
            final(self).slots@ == spec_maintained(old(self).slots@, old(self).pending@),
            final(self).slots@.len() == old(self).slots@.len(),
            forall|i: int| 0 <= i < old(self).slots@.len() ==> #[trigger] final(self).slots@[i]
                == if doomed(old(self).slots@, old(self).pending@, i) {
                    cleared(old(self).slots@[i])
                } else {
                    old(self).slots@[i]
                },
            final(self).pending@.len() == 0,
            final(self).active_camera == old(self).active_camera,
            final(self).delta == old(self).delta,
            final(self).keyboard_events == old(self).keyboard_events,
            final(self).mouse_events == old(self).mouse_events,
            final(self).resize_events == old(self).resize_events,
    {
        let m: usize = self.pending.len();
        let mut k: usize = 0;
        while k < m
            invariant
                m == old(self).pending@.len(),
                k <= m,
                self.pending == old(self).pending,
                self.active_camera == old(self).active_camera,
                self.delta == old(self).delta,
                self.keyboard_events == old(self).keyboard_events,
                self.mouse_events == old(self).mouse_events,
                self.resize_events == old(self).resize_events,
                self.slots@.len() == old(self).slots@.len(),
                forall|i: int| 0 <= i < old(self).slots@.len() ==> #[trigger] self.slots@[i]
                    == if doomed(old(self).slots@, old(self).pending@.subrange(0, k as int), i) {
                        cleared(old(self).slots@[i])
                    } else {
                        old(self).slots@[i]
                    },
            decreases m - k,
        {
            let e: Entity = self.pending[k];
            let ghost pre = self.slots@;
            if e.index < self.slots.len() {
                let s = &self.slots[e.index];
                if s.alive && s.gen == e.generation {
                    let g: u64 = s.gen;
                    let bumped: u64 = if g < u64::MAX {
                        g + 1
                    } else {
                        g
                    };
                    self.slots.set(
                        e.index,
                        Slot { gen: bumped, alive: false, location: None, velocity: None, render: None },
                    );
                }
            }
            proof {
                let oldslots = old(self).slots@;
                let prefix0 = old(self).pending@.subrange(0, k as int);
                let prefix1 = old(self).pending@.subrange(0, k + 1);
                assert(prefix1 =~= prefix0.push(e));
                assert forall|i: int| 0 <= i < oldslots.len() implies #[trigger] self.slots@[i]
                    == if doomed(oldslots, prefix1, i) {
                        cleared(oldslots[i])
                    } else {
                        oldslots[i]
                    } by {
                    if doomed(oldslots, prefix0, i) {
                        let kk = choose|kk: int|
                            0 <= kk < prefix0.len() && prefix0[kk].index == i
                                && prefix0[kk].generation == oldslots[i].gen;
                        assert(prefix1[kk].index == i && prefix1[kk].generation == oldslots[i].gen);
                        assert(doomed(oldslots, prefix1, i));
                        assert(pre[i] == cleared(oldslots[i]));
                        assert(!pre[i].alive);
                        assert(self.slots@[i] == pre[i]);
                    } else if i == e.index && oldslots[i].alive
                        && e.generation == oldslots[i].gen {
                        assert(prefix1[k as int].index == i
                            && prefix1[k as int].generation == oldslots[i].gen);
                        assert(doomed(oldslots, prefix1, i));
                        assert(pre[i] == oldslots[i]);
                        assert(self.slots@[i] == cleared(oldslots[i]));
                    } else {
                        if doomed(oldslots, prefix1, i) {
                            let kk = choose|kk: int|
                                0 <= kk < prefix1.len() && prefix1[kk].index == i
                                    && prefix1[kk].generation == oldslots[i].gen;
                            if kk < k {
                                assert(prefix0[kk].index == i
                                    && prefix0[kk].generation == oldslots[i].gen);
                                assert(doomed(oldslots, prefix0, i));
                            } else {
                                assert(prefix1[kk] == e);
                            }
                            assert(false);
                        }
                        assert(pre[i] == oldslots[i]);
                        if i == e.index {
                            assert(!(pre[i].alive && pre[i].gen == e.generation));
                            assert(self.slots@[i] == pre[i]);
                        } else {
                            assert(self.slots@[i] == pre[i]);
                        }
                    }
                }
            }
            k = k + 1;
        }
        self.pending.clear();
        proof {
            assert(old(self).pending@.subrange(0, m as int) == old(self).pending@);
            assert(self.slots@ =~= spec_maintained(old(self).slots@, old(self).pending@));
        }
    }

    /// Broadcast one key transition to every keyboard consumer.
    pub fn push_key_event(&mut self, e: KeyboardEvent)
        requires
            world_wf(old(self)),
            old(self).keyboard_events.end() < u64::MAX,
        ensures
            world_wf(final(self)),
            final(self).keyboard_events.model()
                == m_push(old(self).keyboard_events.model(), e),
            final(self).keyboard_events.history()
                == old(self).keyboard_events.history().push(e),
            final(self).slots == old(self).slots,
            final(self).pending == old(self).pending,
            final(self).active_camera == old(self).active_camera,
            final(self).delta == old(self).delta,
            final(self).mouse_events == old(self).mouse_events,
            final(self).resize_events == old(self).resize_events,
    {
        self.keyboard_events.push(e);
    }

    /// Broadcast one pointer delta to every pointer consumer.
    pub fn push_mouse_event(&mut self, e: MouseMoveEvent)
        requires
            world_wf(old(self)),
            old(self).mouse_events.end() < u64::MAX,
        ensures
            world_wf(final(self)),
            final(self).mouse_events.model() == m_push(old(self).mouse_events.model(), e),
            final(self).mouse_events.history()
                == old(self).mouse_events.history().push(e),
            final(self).slots == old(self).slots,
            final(self).pending == old(self).pending,
            final(self).active_camera == old(self).active_camera,
            final(self).delta == old(self).delta,
            final(self).keyboard_events == old(self).keyboard_events,
            final(self).resize_events == old(self).resize_events,
    {
        self.mouse_events.push(e);
    }

    /// Broadcast one surface resize to every resize consumer.
    pub fn push_resize_event(&mut self, e: ResizeEvent)
        requires
            world_wf(old(self)),
            old(self).resize_events.end() < u64::MAX,
        ensures
            world_wf(final(self)),
            final(self).resize_events.model() == m_push(old(self).resize_events.model(), e),
            final(self).resize_events.history()
                == old(self).resize_events.history().push(e),
            final(self).slots == old(self).slots,
            final(self).pending == old(self).pending,
            final(self).active_camera == old(self).active_camera,
            final(self).delta == old(self).delta,
            final(self).keyboard_events == old(self).keyboard_events,
            final(self).mouse_events == old(self).mouse_events,
    {
        self.resize_events.push(e);
    }

    /// The location component of `e`, when `e` is live and has one.
    pub fn location(&self, e: Entity) -> (r: Option<BodyLocation>)
        ensures
            r == location_of(self, e),
    {
        if e.index < self.slots.len() {
            let s = &self.slots[e.index];
            if s.alive && s.gen == e.generation {
                s.location
            } else {
                None
            }
        } else {
            None
        }
    }

    /// The velocity component of `e`, when `e` is live and has one.
    pub fn velocity(&self, e: Entity) -> (r: Option<Velocity>)
        ensures
            r == velocity_of(self, e),
    {
        if e.index < self.slots.len() {
            let s = &self.slots[e.index];
            if s.alive && s.gen == e.generation {
                s.velocity
            } else {
                None
            }
        } else {
            None
        }
    }

    /// The render component of `e`, when `e` is live and has one.
    pub fn render(&self, e: Entity) -> (r: Option<RenderBody>)
        ensures
            r == render_of(self, e),
    {
        if e.index < self.slots.len() {
            let s = &self.slots[e.index];
            if s.alive && s.gen == e.generation {
                s.render
            } else {
                None
            }
        } else {
            None
        }
    }

    /// Replace the location component of a live `e`; a stale handle is
    /// ignored.
    pub fn set_location(&mut self, e: Entity, loc: BodyLocation)
        ensures
            live(old(self), e) ==> final(self).slots@ == old(self).slots@.update(
                e.index as int,
                Slot {
                    gen: old(self).slots@[e.index as int].gen,
                    alive: true,
                    location: Some(loc),
                    velocity: old(self).slots@[e.index as int].velocity,
                    render: old(self).slots@[e.index as int].render,
                },
            ),
            !live(old(self), e) ==> final(self).slots == old(self).slots,
            final(self).pending == old(self).pending,
            final(self).active_camera == old(self).active_camera,
            final(self).delta == old(self).delta,
            final(self).keyboard_events == old(self).keyboard_events,
            final(self).mouse_events == old(self).mouse_events,
            final(self).resize_events == old(self).resize_events,
    {
        if e.index < self.slots.len() {
            let s = &self.slots[e.index];
            if s.alive && s.gen == e.generation {
                let g: u64 = s.gen;
                let velocity = s.velocity;
                let render = s.render;
                self.slots.set(
                    e.index,
                    Slot { gen: g, alive: true, location: Some(loc), velocity, render },
                );
            }
        }
    }
}

} // verus!
