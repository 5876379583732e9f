//! The sculpt engine and per-tick decisions.
//!
//! [`Game`] owns the one live terrain solid, its collider handle, the render
//! vertex buffer, the camera rig and the input state.  The rigid-body solver
//! and the CSG boolean kernel are external collaborators: the driver asks
//! this type what to do (which impulse to apply, which ray to cast, which
//! brush to combine), performs the outside work, and hands the plain-value
//! answers back in.  Every decision and every piece of bookkeeping in
//! between is verified here.
//!
//! Within one edit the order is fixed and checked: the stored solid is
//! replaced first, the collider is swapped immediately after, and the render
//! buffer is rebuilt last, so the solid and the live collider never disagree
//! beyond the single call.

use vstd::prelude::*;

use crate::camera::{unproject_dir_spec, CameraState, Pose, DRAG_SENSITIVITY, NEAR_PLANE,
    POSE_BOUND};
use crate::fx::{fx_mul_spec, FX_ONE};
use crate::input::{InputState, KeyEvent, MouseButton, MouseEvent, POINTER_BOUND};
use crate::mesh::{mesh_of, RenderBuffer};
use crate::physics::{ColliderHandle, PhysicsContext, ShapeDesc};
use crate::solid::{solid_within, tri_translated, Solid};
use crate::trig::{cos_fx, cos_fx_spec, norm_angle_spec, sin_fx, sin_fx_spec};
use crate::vec3::{coords_within, Vec3};

verus! {

/// Capacity of the render vertex buffer.
pub const MAX_VERTS: usize = 1000000;

/// Fixed viewport width, in pixels, used for picking.
pub const VIEW_W: i64 = 1280;

/// Fixed viewport height, in pixels, used for picking.
pub const VIEW_H: i64 = 720;

/// Upward impulse applied for a jump: five world units.
pub const JUMP_IMPULSE: i64 = 327680;

/// Half-height of the player capsule: one world unit.
pub const CAPSULE_HALF_HEIGHT: i64 = 65536;

/// Radius of the player capsule: half a world unit.
pub const CAPSULE_RADIUS: i64 = 32768;

/// Largest solid-coordinate magnitude the engine stores.
pub const SOLID_BOUND: i64 = 0x1000_0000_0000;

/// Largest ray-cast distance the engine accepts, fixed point.
pub const CAST_BOUND: i64 = 0x4000_0000;

/// How an edit combines the brush with the terrain.
#[derive(Clone, Copy, PartialEq, Eq, Structural, Debug)]
pub enum BrushOp {
    Union,
    Subtract,
}

/// Why a sculpt operation failed.
#[derive(Clone, Copy, PartialEq, Eq, Structural, Debug)]
pub enum SculptError {
    /// The physics world could not locate the collider to replace — an
    /// invariant violation that cannot arise from a well-formed engine.
    ColliderSwapFailed,
    /// The edited terrain's vertex total exceeds the render buffer's fixed
    /// capacity.  The solid and the collider are still updated — physics
    /// truth wins — and only the render buffer lags behind.
    MeshCapacityExceeded,
}

/// A picking ray to be cast by the physics world, with the operation to
/// perform at the hit point.
#[derive(Clone, Copy, PartialEq, Eq, Structural, Debug)]
pub struct PickRequest {
    pub origin: Vec3,
    pub dir: Vec3,
    pub op: BrushOp,
}

/// `v` forced into `[lo, hi]`.
pub open spec fn clamp_spec(v: int, lo: int, hi: int) -> int {
    if v < lo {
        lo
    } else if v > hi {
        hi
    } else {
        v
    }
}

/// `v` forced into `[lo, hi]`.
fn clamp(v: i64, lo: i64, hi: i64) -> (r: i64)
    requires
        lo <= hi,
    ensures
        r == clamp_spec(v as int, lo as int, hi as int),
        lo <= r <= hi,
{
    if v < lo {
        lo
    } else if v > hi {
        hi
    } else {
        v
    }
}

/// The engine: the live terrain solid, the brush, the physics bookkeeping,
/// the render buffer, the camera rig and the input state.
#[derive(Debug)]
pub struct Game {
    /// The current terrain solid; replaced whole by every edit.
    pub csg: Solid,
    /// The spherical brush solid, centered at the origin.
    pub brush: Solid,
    /// The render vertex buffer derived from `csg`.
    pub geometry: RenderBuffer,
    /// Collider and body bookkeeping.
    pub physics: PhysicsContext,
    /// The third-person camera rig.
    pub camera: CameraState,
    /// Movement keys and pointer positions.
    pub input_state: InputState,
    /// The live terrain collider.
    pub ground_handle: ColliderHandle,
    /// The player capsule's collider.
    pub capsule_handle: ColliderHandle,
}

impl Game {
    /// The engine's invariant: both handles are live and distinct, the
    /// terrain collider's triangle count matches the stored solid, the
    /// render buffer fits its capacity, and camera, input and brush data are
    /// in range.
    pub open spec fn wf(self) -> bool {
        &&& self.physics.live(self.ground_handle)
        &&& self.physics.live(self.capsule_handle)
        &&& self.ground_handle != self.capsule_handle
        &&& self.physics.shape_of(self.ground_handle) == (ShapeDesc::TriangleSoup {
            tri_count: self.csg.tris@.len() as usize,
        })
        &&& self.geometry.capacity == MAX_VERTS
        &&& self.geometry.wf()
        &&& self.camera.wf()
        &&& self.input_state.wf()
        &&& solid_within(self.brush.tris@, SOLID_BOUND as int)
    }

    /// Build the engine around an initial terrain solid and a brush solid.
    ///
    /// The terrain gets a static triangle-soup collider, the player capsule
    /// gets a dynamic body, and the render buffer is filled from the
    /// terrain.  Fails exactly when the terrain's vertex total already
    /// exceeds the render capacity.
    pub fn new(terrain: Solid, brush: Solid) -> (r: Result<Game, SculptError>)
        requires
            solid_within(brush.tris@, SOLID_BOUND as int),
        ensures
            r is Ok <==> 3 * terrain.tris@.len() <= MAX_VERTS,
            r matches Ok(g) ==> {
                &&& g.wf()
                &&& g.csg == terrain
                &&& g.brush == brush
                &&& g.geometry.verts@ == mesh_of(terrain.tris@)
                &&& g.geometry.verts@.len() == 3 * terrain.tris@.len()
                &&& g.camera == CameraState::new_spec()
                &&& g.input_state == InputState::new_spec()
                &&& g.physics.shape_of(g.capsule_handle) == (ShapeDesc::Capsule {
                    half_height: CAPSULE_HALF_HEIGHT,
                    radius: CAPSULE_RADIUS,
                })
            },
            r matches Err(e) ==> e == SculptError::MeshCapacityExceeded,
    {
        let mut physics = PhysicsContext::new();
        let ground_handle = physics.add_csg(&terrain);
        let capsule_handle = physics.add_body(
            ShapeDesc::Capsule { half_height: CAPSULE_HALF_HEIGHT, radius: CAPSULE_RADIUS },
        );
        let mut geometry = RenderBuffer::new(MAX_VERTS);
        if !geometry.rebuild(&terrain) {
            return Err(SculptError::MeshCapacityExceeded);
        }
        proof {
            crate::mesh::lemma_mesh_of_len(terrain.tris@);
        }
        Ok(
            Game {
                csg: terrain,
                brush,
                geometry,
                physics,
                camera: CameraState::new(),
                input_state: InputState::new(),
                ground_handle,
                capsule_handle,
            },
        )
    }

    /// The world-space movement impulse for this tick: the plain sum of one
    /// unit vector per held movement key, rotated by the orbit pivot — not
    /// by the full camera rotation, so movement follows the player's orbit,
    /// never the camera's pitch.  The driver applies it to the tracked body
    /// if that body exists.
    pub fn movement_impulse(&self) -> (v: Vec3)
        requires
            self.wf(),
        ensures
            ({
                let c = cos_fx_spec(self.camera.pivot as int);
                let s = sin_fx_spec(self.camera.pivot as int);
                let ix = (if self.input_state.a {
                    -FX_ONE as int
                } else {
                    0
                }) + (if self.input_state.d {
                    FX_ONE as int
                } else {
                    0
                });
                let iz = (if self.input_state.w {
                    -FX_ONE as int
                } else {
                    0
                }) + (if self.input_state.s {
                    FX_ONE as int
                } else {
                    0
                });
                &&& v.x == fx_mul_spec(c, ix) + fx_mul_spec(s, iz)
                &&& v.y == 0
                &&& v.z == fx_mul_spec(c, iz) - fx_mul_spec(s, ix)
            }),
    {
        let intent = self.input_state.move_intent();
        let c = cos_fx(self.camera.pivot);
        let s = sin_fx(self.camera.pivot);
        intent.rotate_y(c, s)
    }

    /// Advance the per-tick pipeline past the physics step: derive the
    /// camera pose from the tracked body's new pose.  A missing pose leaves
    /// the camera exactly as it was; nothing else changes either way.
    pub fn update(&mut self, pose: Option<Pose>)
        requires
            old(self).wf(),
            pose matches Some(t) ==> coords_within(t.translation, POSE_BOUND as int),
        ensures
            final(self).wf(),
            final(self).camera == old(self).camera.updated_spec(pose),
            final(self).csg == old(self).csg,
            final(self).brush == old(self).brush,
            final(self).geometry == old(self).geometry,
            final(self).physics == old(self).physics,
            final(self).input_state == old(self).input_state,
            final(self).ground_handle == old(self).ground_handle,
            final(self).capsule_handle == old(self).capsule_handle,
    {
        self.camera.update(pose);
    }

    /// Record a key event.  Movement keys set their flags; the jump key
    /// answers with the upward impulse for the driver to apply to the
    /// tracked body.  The jump fires on both edges of the key: the input
    /// mapping deliberately ignores the pressed flag for it.
    pub fn handle_key_event(&mut self, pressed: bool, key: KeyEvent) -> (jump: Option<Vec3>)
        requires
            old(self).wf(),
        ensures
            final(self).wf(),
            final(self).input_state == old(self).input_state.with_key(key, pressed),
            jump == if key == KeyEvent::Space {
                Some(Vec3 { x: 0, y: JUMP_IMPULSE, z: 0 })
            } else {
                Option::<Vec3>::None
            },
            final(self).camera == old(self).camera,
            final(self).csg == old(self).csg,
            final(self).brush == old(self).brush,
            final(self).geometry == old(self).geometry,
            final(self).physics == old(self).physics,
            final(self).ground_handle == old(self).ground_handle,
            final(self).capsule_handle == old(self).capsule_handle,
    {
        let jump = match key {
            KeyEvent::Space => Some(Vec3 { x: 0, y: JUMP_IMPULSE, z: 0 }),
            _ => None,
        };
        self.input_state.set_key(key, pressed);
        jump
    }

    /// Record a pointer event.
    ///
    /// A move updates the pointer pair (snapping on the very first move, so
    /// that it cannot produce a drag) and turns the horizontal delta into
    /// orbit yaw.  A button press at a pick button answers with the picking
    /// ray through the current pointer position, for the driver to cast;
    /// the pointer position is clamped to the viewport first.  Releases and
    /// other buttons do nothing.
    pub fn handle_mouse_event(&mut self, event: MouseEvent) -> (r: Option<PickRequest>)
        requires
            old(self).wf(),
            event matches MouseEvent::Moved(x, y) ==> {
                &&& -POINTER_BOUND <= x <= POINTER_BOUND
                &&& -POINTER_BOUND <= y <= POINTER_BOUND
            },
        ensures
            final(self).wf(),
            final(self).csg == old(self).csg,
            final(self).brush == old(self).brush,
            final(self).geometry == old(self).geometry,
            final(self).physics == old(self).physics,
            final(self).ground_handle == old(self).ground_handle,
            final(self).capsule_handle == old(self).capsule_handle,
            event matches MouseEvent::Moved(x, y) ==> {
                &&& final(self).input_state == old(self).input_state.after_move(x, y)
                &&& final(self).camera.position == old(self).camera.position
                &&& final(self).camera.pivot == norm_angle_spec(
                    old(self).camera.pivot + old(self).input_state.move_delta(x)
                        * DRAG_SENSITIVITY,
                )
                &&& old(self).input_state.is_first_move() ==> final(self).camera == old(
                    self,
                ).camera
                &&& r is None
            },
            event matches MouseEvent::Button(pressed, button) ==> {
                &&& *final(self) == *old(self)
                &&& (r is Some <==> pressed && (button == MouseButton::Left || button
                    == MouseButton::Right))
                &&& r matches Some(req) ==> {
                    let cam = old(self).camera;
                    let sx = clamp_spec(old(self).input_state.mouse_x as int, 0, VIEW_W as int);
                    let sy = clamp_spec(old(self).input_state.mouse_y as int, 0, VIEW_H as int);
                    let d = unproject_dir_spec(
                        cam.position.yaw as int,
                        cam.position.pitch as int,
                        sx,
                        sy,
                        VIEW_W as int,
                        VIEW_H as int,
                    );
                    &&& req.op == (if button == MouseButton::Left {
                        BrushOp::Union
                    } else {
                        BrushOp::Subtract
                    })
                    &&& req.dir.x == d.0 && req.dir.y == d.1 && req.dir.z == d.2
                    &&& coords_within(req.dir, 3 * FX_ONE as int)
                    &&& req.origin.x == cam.position.translation.x + fx_mul_spec(
                        NEAR_PLANE as int,
                        req.dir.x as int,
                    )
                    &&& req.origin.y == cam.position.translation.y + fx_mul_spec(
                        NEAR_PLANE as int,
                        req.dir.y as int,
                    )
                    &&& req.origin.z == cam.position.translation.z + fx_mul_spec(
                        NEAR_PLANE as int,
                        req.dir.z as int,
                    )
                }
            },
    {
        match event {
            MouseEvent::Moved(x, y) => {
                let dx = self.input_state.pointer_moved(x, y);
                proof {
                    if old(self).input_state.is_first_move() {
                        vstd::arithmetic::div_mod::lemma_small_mod(
                            old(self).camera.pivot as nat,
                            crate::trig::FULL_TURN as nat,
                        );
                    }
                }
                self.camera.apply_drag(dx);
                None
            },
            MouseEvent::Button(pressed, button) => {
                if pressed && (matches!(button, MouseButton::Left) || matches!(
                    button,
                    MouseButton::Right,
                )) {
                    let sx = clamp(self.input_state.mouse_x, 0, VIEW_W);
                    let sy = clamp(self.input_state.mouse_y, 0, VIEW_H);
                    let (origin, dir) = self.camera.unproject(sx, sy, VIEW_W, VIEW_H);
                    let op = match button {
                        MouseButton::Left => BrushOp::Union,
                        _ => BrushOp::Subtract,
                    };
                    Some(PickRequest { origin, dir, op })
                } else {
                    None
                }
            },
        }
    }

    /// Translate the ray cast's answer into a world-space hit point:
    /// `origin + direction * distance`, or nothing if the ray hit nothing.
    pub fn pick(&self, origin: Vec3, dir: Vec3, cast: Option<i64>) -> (hit: Option<Vec3>)
        requires
            coords_within(origin, 0x1000_0000_0000_0000),
            coords_within(dir, 3 * FX_ONE as int),
            cast matches Some(d) ==> 0 <= d <= CAST_BOUND,
        ensures
            hit is Some <==> cast is Some,
            cast matches Some(d) ==> hit matches Some(p) && p.x == origin.x + fx_mul_spec(
                d as int,
                dir.x as int,
            ) && p.y == origin.y + fx_mul_spec(d as int, dir.y as int) && p.z == origin.z
                + fx_mul_spec(d as int, dir.z as int),
    {
        match cast {
            None => None,
            Some(d) => {
                proof {
                    assert(-0x1_0000_0000_0000 <= d * dir.x <= 0x1_0000_0000_0000
                        && -0x1_0000_0000_0000 <= d * dir.y <= 0x1_0000_0000_0000
                        && -0x1_0000_0000_0000 <= d * dir.z <= 0x1_0000_0000_0000)
                        by (nonlinear_arith)
                        requires
                            0 <= d <= CAST_BOUND,
                            coords_within(dir, 3 * FX_ONE as int),
                    ;
                    crate::fx::lemma_fx_mul_bound(d as int, dir.x as int);
                    crate::fx::lemma_fx_mul_bound(d as int, dir.y as int);
                    crate::fx::lemma_fx_mul_bound(d as int, dir.z as int);
                }
                Some(origin.add(&dir.scale(d)))
            },
        }
    }

    /// The brush solid translated to the world-space point `p`: the solid
    /// the driver hands to the CSG collaborator to combine with the terrain.
    pub fn brush_at(&self, p: Vec3) -> (b: Solid)
        requires
            self.wf(),
            coords_within(p, 0x1000_0000_0000_0000),
        ensures
            b.tris@.len() == self.brush.tris@.len(),
            forall|i: int| 0 <= i < self.brush.tris@.len() ==> b.tris@[i] == tri_translated(
                #[trigger] self.brush.tris@[i],
                p,
            ),
    {
        self.brush.translate(&p)
    }

    /// Install the combined solid the CSG collaborator produced for an edit:
    /// replace the stored solid, swap the terrain collider for one built
    /// from the new solid, then rebuild the render buffer.
    ///
    /// The order is fixed: solid first, collider immediately after, render
    /// buffer last.  When the new vertex total exceeds the render capacity
    /// the solid and collider are still swapped — physics truth wins — the
    /// buffer keeps its previous contents, and the overflow is reported.
    pub fn apply_brush_at(&mut self, combined: Solid) -> (r: Result<(), SculptError>)
        requires
            old(self).wf(),
        ensures
            final(self).wf(),
            final(self).csg == combined,
            r matches Err(e) ==> e == SculptError::MeshCapacityExceeded,
            r is Ok <==> 3 * combined.tris@.len() <= MAX_VERTS,
            final(self).physics.live(final(self).ground_handle),
            !final(self).physics.live(old(self).ground_handle),
            final(self).physics.shape_of(final(self).ground_handle)
                == (ShapeDesc::TriangleSoup { tri_count: combined.tris@.len() as usize }),
            final(self).physics.parent_of(final(self).ground_handle)
                == old(self).physics.parent_of(old(self).ground_handle),
            final(self).capsule_handle == old(self).capsule_handle,
            final(self).physics.shape_of(final(self).capsule_handle)
                == old(self).physics.shape_of(old(self).capsule_handle),
            r is Ok ==> final(self).geometry.verts@ == mesh_of(combined.tris@),
            r is Ok ==> final(self).geometry.verts@.len() == 3 * combined.tris@.len(),
            r is Err ==> final(self).geometry.verts@ == old(self).geometry.verts@,
            final(self).geometry.capacity == old(self).geometry.capacity,
            final(self).camera == old(self).camera,
            final(self).input_state == old(self).input_state,
            final(self).brush == old(self).brush,
    {
        self.csg = combined;
        let swapped = self.physics.swap_collider(self.ground_handle, &self.csg);
        match swapped {
            None => {
                // a well-formed engine always holds a live terrain handle
                proof {
                    assert(false);
                }
                Err(SculptError::ColliderSwapFailed)
            },
            Some(h) => {
                self.ground_handle = h;
                if self.geometry.rebuild(&self.csg) {
                    proof {
                        crate::mesh::lemma_mesh_of_len(self.csg.tris@);
                    }
                    Ok(())
                } else {
                    Err(SculptError::MeshCapacityExceeded)
                }
            },
        }
    }
}

} // verus!
