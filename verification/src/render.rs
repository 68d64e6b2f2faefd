//! The presentation system: applies pending surface resizes to the camera,
//! resolves the active camera into a combined view-projection matrix, and
//! collects every renderable entity into a draw list for the rendering
//! collaborator.

use vstd::prelude::*;

use crate::events::{m_read, ReaderId};
use crate::fixed::{cl64, clamp128, mul_i128, spec_neg3, tdiv, tdiv128, Vec3};
use crate::input::ResizeEvent;
use crate::transform::{
    spec_mat_mul, spec_rotation_matrix, spec_translation, BodyLocation, Mat4,
};
use crate::trig::{cos_fp, sin_fp, spec_cos, spec_sin};
use crate::world::{location_in, world_wf, Entity, Slot, World};

verus! {

/// Projection entry scaling depth into the clip range (near 0.1, far 100
/// world units): `(far + near) / (near - far)` in fixed point.
pub const PROJ_ZZ: i64 = -1002;

/// Projection entry translating depth (same near and far planes):
/// `2 * far * near / (near - far)` in fixed point.
pub const PROJ_ZW: i64 = -200;

/// The perspective projection for a field of view (thousandths of a
/// degree) and an aspect ratio (fixed point). Degenerate arguments are
/// guarded: every divisor is forced positive, so the builder is total.
pub open spec fn spec_projection(fov: int, aspect: int) -> Mat4 {
    let half = tdiv(fov, 2);
    let s = spec_sin(half);
    let c = spec_cos(half);
    let cg = if c <= 0 {
        1int
    } else {
        c
    };
    let t = cl64(tdiv(s * 1000, cg));
    let tg = if t <= 0 {
        1int
    } else {
        t
    };
    let f = tdiv(1000000, tg);
    let ag = if aspect <= 0 {
        1int
    } else {
        aspect
    };
    Mat4 {
        m00: cl64(tdiv(f * 1000, ag)) as i64, m01: 0, m02: 0, m03: 0,
        m10: 0, m11: f as i64, m12: 0, m13: 0,
        m20: 0, m21: 0, m22: PROJ_ZZ, m23: PROJ_ZW,
        m30: 0, m31: 0, m32: (-1000int) as i64, m33: 0,
    }
}

/// Projection parameters and the matrix rebuilt from them.
pub struct Camera {
    pub projection_matrix: Mat4,
    pub fov: i64,
    pub aspect_ratio: i64,
}

/// The camera's matrix matches its current parameters; every rebuild
/// restores this, so no frame is ever projected through stale parameters.
pub open spec fn camera_wf(c: Camera) -> bool {
    c.projection_matrix == spec_projection(c.fov as int, c.aspect_ratio as int)
}

impl Camera {
    /// A camera with the given field of view (thousandths of a degree) and
    /// aspect ratio (fixed point), its projection already built.
    pub fn new(fov: i64, aspect_ratio: i64) -> (r: Camera)
        ensures
            r.fov == fov,
            r.aspect_ratio == aspect_ratio,
            camera_wf(r),
    {
        let mut camera = Camera { projection_matrix: Mat4::identity(), fov, aspect_ratio };
        camera.rebuild_projection();
        camera
    }

    /// Rebuild the projection matrix from the current parameters.
    pub fn rebuild_projection(&mut self)
        ensures
            final(self).fov == old(self).fov,
            final(self).aspect_ratio == old(self).aspect_ratio,
            camera_wf(*final(self)),
    {
        let half: i64 = clamp128(tdiv128(self.fov as i128, 2));
        let s: i64 = sin_fp(half);
        let c: i64 = cos_fp(half);
        let cg: i64 = if c <= 0 {
            1
        } else {
            c
        };
        let t: i64 = clamp128(tdiv128(mul_i128(s, 1000), cg));
        let tg: i64 = if t <= 0 {
            1
        } else {
            t
        };
        let f: i64 = clamp128(tdiv128(1000000, tg));
        let ag: i64 = if self.aspect_ratio <= 0 {
            1
        } else {
            self.aspect_ratio
        };
        let m00: i64 = clamp128(tdiv128(mul_i128(f, 1000), ag));
        proof {
            assert(tdiv(self.fov as int, 2) == cl64(tdiv(self.fov as int, 2)));
            assert(tdiv(1000000, tg as int) == cl64(tdiv(1000000, tg as int)));
        }
        self.projection_matrix = Mat4 {
            m00, m01: 0, m02: 0, m03: 0,
            m10: 0, m11: f, m12: 0, m13: 0,
            m20: 0, m21: 0, m22: PROJ_ZZ, m23: PROJ_ZW,
            m30: 0, m31: 0, m32: -1000, m33: 0,
        };
    }

    /// The combined world-to-clip transform for a viewpoint: projection,
    /// then the viewpoint's rotation, then translation by its negated
    /// position, composed left to right.
    pub fn to_matrix(&self, loc: &BodyLocation) -> (r: Mat4)
        ensures
            r == spec_mat_mul(
                spec_mat_mul(
                    self.projection_matrix,
                    spec_rotation_matrix(loc.yaw as int, loc.pitch as int),
                ),
                spec_translation(spec_neg3(loc.position)),
            ),
    {
        let rot = loc.rotation_matrix();
        let tr = Mat4::translation(loc.position.neg3());
        self.projection_matrix.mat_mul(&rot).mat_mul(&tr)
    }
}

/// One renderable entity: its mesh handle and its placement transform.
#[derive(Clone, Copy, Debug, PartialEq, Eq, Structural)]
pub struct DrawCall {
    pub model: u64,
    pub model_to_world: Mat4,
}

/// A finished frame handed to the rendering collaborator.
pub struct Frame {
    pub world_to_screen: Mat4,
    pub draws: Vec<DrawCall>,
}

/// The camera after one resize: the aspect ratio is recomputed from the
/// new surface size and the projection rebuilt immediately.
pub open spec fn spec_on_resize(c: Camera, e: ResizeEvent) -> Camera {
    let hg = if e.height == 0 {
        1int
    } else {
        e.height as int
    };
    let aspect = cl64(tdiv(e.width * 1000, hg)) as i64;
    Camera {
        projection_matrix: spec_projection(c.fov as int, aspect as int),
        fov: c.fov,
        aspect_ratio: aspect,
    }
}

/// The camera after a sequence of resizes, oldest first.
pub open spec fn spec_resized(c: Camera, es: Seq<ResizeEvent>) -> Camera
    decreases es.len(),
{
    if es.len() == 0 {
        c
    } else {
        spec_on_resize(spec_resized(c, es.drop_last()), es.last())
    }
}

/// The placement transform of a location: its view-style transform,
/// rotation composed with translation by the negated position.
pub open spec fn spec_model_to_world(loc: BodyLocation) -> Mat4 {
    spec_mat_mul(
        spec_rotation_matrix(loc.yaw as int, loc.pitch as int),
        spec_translation(spec_neg3(loc.position)),
    )
}

/// The draw list of a slot sequence: every live occupant holding both a
/// mesh and a location, in slot order.
pub open spec fn spec_draws(slots: Seq<Slot>) -> Seq<DrawCall>
    decreases slots.len(),
{
    if slots.len() == 0 {
        Seq::empty()
    } else {
        let s = slots.last();
        spec_draws(slots.drop_last()) + if s.alive && s.render is Some && s.location is Some {
            seq![DrawCall {
                model: s.render.unwrap().model,
                model_to_world: spec_model_to_world(s.location.unwrap()),
            }]
        } else {
            Seq::empty()
        }
    }
}

/// The viewpoint of a scene: the active camera's location, or the identity
/// location when no active camera is set or its entity is gone.
pub open spec fn spec_view_location(cam: Option<Entity>, slots: Seq<Slot>) -> BodyLocation {
    match cam {
        Some(e) => match location_in(slots, e) {
            Some(loc) => loc,
            None => BodyLocation { position: Vec3 { x: 0i64, y: 0i64, z: 0i64 }, yaw: 0i64, pitch: 0i64 },
        },
        None => BodyLocation { position: Vec3 { x: 0i64, y: 0i64, z: 0i64 }, yaw: 0i64, pitch: 0i64 },
    }
}

/// The presentation system: its resize cursor and the camera it keeps in
/// sync with the surface.
pub struct RenderSystem {
    pub resize_reader: ReaderId,
    pub camera: Camera,
}

/// The resize events this system would drain from the world right now.
pub open spec fn resizes_to_read(sys: &RenderSystem, w: &World) -> Seq<ResizeEvent> {
    m_read(w.resize_events.model(), sys.resize_reader.pos as int)
}

impl RenderSystem {
    /// A fresh system around an existing camera, its cursor at "now".
    pub fn new(camera: Camera, world: &World) -> (r: RenderSystem)
        requires
            world_wf(world),
        ensures
            r.resize_reader.pos as int == world.resize_events.end(),
            r.camera == camera,
    {
        RenderSystem { resize_reader: world.resize_events.register_reader(), camera }
    }

    /// Build one frame: drain pending resizes into the camera (rebuilding
    /// its projection), resolve the viewpoint (the active camera's
    /// location, or the identity location if unset or stale), and collect
    /// every entity holding both a mesh and a location, in slot order. The
    /// world itself is only read.
    pub fn run(&mut self, world: &World) -> (frame: Frame)
        requires
            world_wf(world),
            old(self).resize_reader.pos as int <= world.resize_events.end(),
        ensures
            final(self).resize_reader.pos as int == world.resize_events.end(),
            final(self).camera == spec_resized(old(self).camera, resizes_to_read(old(self), world)),
            frame.world_to_screen == spec_mat_mul(
                spec_mat_mul(
                    final(self).camera.projection_matrix,
                    spec_rotation_matrix(
                        spec_view_location(world.active_camera.0, world.slots@).yaw as int,
                        spec_view_location(world.active_camera.0, world.slots@).pitch as int,
                    ),
                ),
                spec_translation(spec_neg3(
                    spec_view_location(world.active_camera.0, world.slots@).position,
                )),
            ),
            frame.draws@ == spec_draws(world.slots@),
    {
        let rs = world.resize_events.read(&mut self.resize_reader);
        let n: usize = rs.len();
        let mut i: usize = 0;
        while i < n
            invariant
                n == rs@.len(),
                i <= n,
                self.resize_reader.pos as int == world.resize_events.end(),
                self.camera == spec_resized(old(self).camera, rs@.subrange(0, i as int)),
            decreases n - i,
        {
            let e: ResizeEvent = rs[i];
            let hg: u32 = if e.height == 0 {
                1
            } else {
                e.height
            };
            let wider: u64 = (e.width as u64) * 1000;
            let aspect: i64 = (wider / (hg as u64)) as i64;
            proof {
                assert(aspect as int == cl64(tdiv(e.width * 1000, hg as int)));
            }
            self.camera.aspect_ratio = aspect;
            self.camera.rebuild_projection();
            proof {
                let pre = rs@.subrange(0, i as int);
                let post = rs@.subrange(0, i + 1);
                assert(post =~= pre.push(rs@[i as int]));
                assert(post.drop_last() =~= pre);
                assert(self.camera == spec_on_resize(spec_resized(old(self).camera, pre), rs@[i as int]));
            }
            i = i + 1;
        }
        proof {
            assert(rs@.subrange(0, n as int) =~= rs@);
        }

        let view_loc: BodyLocation = match world.active_camera.0 {
            Some(e) => match world.location(e) {
                Some(loc) => loc,
                None => BodyLocation::zero(),
            },
            None => BodyLocation::zero(),
        };
        let world_to_screen = self.camera.to_matrix(&view_loc);

        let mut draws: Vec<DrawCall> = Vec::new();
        let m: usize = world.slots.len();
        let mut j: usize = 0;
        while j < m
            invariant
                m == world.slots@.len(),
                j <= m,
                draws@ == spec_draws(world.slots@.subrange(0, j as int)),
            decreases m - j,
        {
            let s = &world.slots[j];
            if s.alive {
                match (s.render, s.location) {
                    (Some(rb), Some(loc)) => {
                        let mtw = loc.model_to_world_matrix();
                        draws.push(DrawCall { model: rb.model, model_to_world: mtw });
                    }
                    _ => {}
                }
            }
            proof {
                let pre = world.slots@.subrange(0, j as int);
                let post = world.slots@.subrange(0, j + 1);
                assert(post.drop_last() =~= pre);
                assert(post.last() == world.slots@[j as int]);
                assert(draws@ =~= spec_draws(post));
            }
            j = j + 1;
        }
        proof {
            assert(world.slots@.subrange(0, m as int) =~= world.slots@);
        }
        Frame { world_to_screen, draws }
    }
}

} // verus!
