//! Behavior of the sculpt engine: the edit pipeline, capacity handling,
//! picking, and the collider bookkeeping.

use sculpt_core::camera::DRAG_SENSITIVITY;
use sculpt_core::fx::FX_ONE;
use sculpt_core::game::{BrushOp, Game, SculptError, MAX_VERTS, VIEW_H, VIEW_W};
use sculpt_core::input::{KeyEvent, MouseButton, MouseEvent};
use sculpt_core::physics::{build_csg_collider, PhysicsContext, ShapeDesc};
use sculpt_core::solid::{Solid, Tri};
use sculpt_core::trig::QUARTER_TURN;
use sculpt_core::vec3::Vec3;

fn v(x: i64, y: i64, z: i64) -> Vec3 {
    Vec3 { x: x * FX_ONE, y: y * FX_ONE, z: z * FX_ONE }
}

fn tri(a: Vec3, b: Vec3, c: Vec3) -> Tri {
    Tri { a, b, c, normal: Vec3 { x: 0, y: FX_ONE, z: 0 } }
}

/// A flat two-triangle ground quad spanning x, z in [-8, 8] at y = 0.
fn ground_quad() -> Solid {
    let a = v(-8, 0, -8);
    let b = v(8, 0, -8);
    let c = v(8, 0, 8);
    let d = v(-8, 0, 8);
    Solid { tris: vec![tri(a, b, c), tri(a, c, d)] }
}

/// A crude brush: one small triangle near the origin.
fn small_brush() -> Solid {
    Solid { tris: vec![tri(v(0, 0, 0), v(1, 0, 0), v(0, 1, 0))] }
}

/// A solid with the given number of copies of one triangle.
fn soup_of(n: usize) -> Solid {
    let t = tri(v(0, 0, 0), v(1, 0, 0), v(0, 0, 1));
    Solid { tris: vec![t; n] }
}

#[test]
fn new_game_builds_matching_collider_and_buffer() {
    let game = Game::new(ground_quad(), small_brush()).unwrap();
    assert_eq!(game.csg.tri_count(), 2);
    assert_eq!(game.geometry.vert_count(), 6);
    assert_eq!(
        game.physics.shape(game.ground_handle),
        Some(ShapeDesc::TriangleSoup { tri_count: 2 })
    );
    assert!(matches!(
        game.physics.shape(game.capsule_handle),
        Some(ShapeDesc::Capsule { .. })
    ));
}

#[test]
fn successful_edit_keeps_collider_and_buffer_in_step() {
    let mut game = Game::new(ground_quad(), small_brush()).unwrap();
    // the CSG collaborator's answer: terrain plus brush, five triangles
    let combined = soup_of(5);
    let r = game.apply_brush_at(combined);
    assert!(r.is_ok());
    // collider triangle count and render-buffer triangle count agree
    assert_eq!(
        game.physics.shape(game.ground_handle),
        Some(ShapeDesc::TriangleSoup { tri_count: 5 })
    );
    assert_eq!(game.geometry.vert_count(), 15);
    assert_eq!(game.csg.tri_count(), 5);
}

#[test]
fn union_at_a_ground_hit_grows_the_terrain() {
    // a left click whose ray hits the flat ground at (2, 0, 3)
    let mut game = Game::new(ground_quad(), small_brush()).unwrap();
    let before = game.csg.tri_count();

    let hit = game
        .pick(v(2, 4, 3), Vec3 { x: 0, y: -FX_ONE, z: 0 }, Some(4 * FX_ONE))
        .unwrap();
    assert_eq!(hit, v(2, 0, 3));

    // the CSG collaborator unions the translated brush into the terrain;
    // its answer has the terrain's triangles plus the brush's
    let placed = game.brush_at(hit);
    assert_eq!(placed.tris[0].a, v(2, 0, 3));
    let mut tris = Vec::new();
    tris.extend_from_slice(&game.csg.tris);
    tris.extend_from_slice(&placed.tris);
    let combined = Solid { tris };

    assert!(game.apply_brush_at(combined).is_ok());
    assert!(game.csg.tri_count() > before);
    assert_eq!(game.geometry.vert_count(), 3 * game.csg.tri_count());
}

#[test]
fn oversized_edit_reports_capacity_and_keeps_the_buffer() {
    let mut game = Game::new(ground_quad(), small_brush()).unwrap();
    let old_handle = game.ground_handle;
    let verts_before = game.geometry.vert_count();

    // one triangle more than the render buffer can hold
    let n = MAX_VERTS / 3 + 1;
    let r = game.apply_brush_at(soup_of(n));
    assert_eq!(r, Err(SculptError::MeshCapacityExceeded));

    // physics truth wins: solid and collider are updated ...
    assert_eq!(game.csg.tri_count(), n);
    assert!(!game.physics.is_live(old_handle));
    assert!(game.physics.is_live(game.ground_handle));
    assert_eq!(
        game.physics.shape(game.ground_handle),
        Some(ShapeDesc::TriangleSoup { tri_count: n })
    );
    // ... and the rendered contents lag behind, unchanged
    assert_eq!(game.geometry.vert_count(), verts_before);

    // a later edit that fits brings the buffer back in step
    assert!(game.apply_brush_at(soup_of(4)).is_ok());
    assert_eq!(game.geometry.vert_count(), 12);
}

#[test]
fn edits_at_capacity_boundary_succeed_exactly_up_to_it() {
    let mut game = Game::new(ground_quad(), small_brush()).unwrap();
    let n = MAX_VERTS / 3;
    assert!(game.apply_brush_at(soup_of(n)).is_ok());
    assert_eq!(game.geometry.vert_count(), 3 * n);
}

#[test]
fn pick_misses_when_the_cast_misses() {
    let game = Game::new(ground_quad(), small_brush()).unwrap();
    assert_eq!(game.pick(v(0, 4, 0), Vec3 { x: 0, y: FX_ONE, z: 0 }, None), None);
}

#[test]
fn swapped_handles_go_stale() {
    let mut physics = PhysicsContext::new();
    let ground = physics.add_csg(&ground_quad());
    let capsule = physics.add_body(ShapeDesc::Capsule {
        half_height: FX_ONE,
        radius: FX_ONE / 2,
    });
    assert!(physics.is_live(ground));
    assert!(physics.is_live(capsule));

    let fresh = physics.swap_collider(ground, &soup_of(3)).unwrap();
    assert_ne!(fresh, ground);
    assert!(!physics.is_live(ground));
    assert!(physics.is_live(fresh));
    assert_eq!(physics.shape(ground), None);
    assert_eq!(physics.shape(fresh), Some(ShapeDesc::TriangleSoup { tri_count: 3 }));
    // the capsule is untouched by the swap
    assert!(physics.is_live(capsule));

    // a stale handle cannot be swapped again
    assert_eq!(physics.swap_collider(ground, &soup_of(1)), None);
}

#[test]
fn collider_buffers_lay_triangles_out_consecutively() {
    let solid = ground_quad();
    let (verts, indices) = build_csg_collider(&solid);
    assert_eq!(verts.len(), 6);
    assert_eq!(indices.len(), 2);
    assert_eq!(verts[0], solid.tris[0].a);
    assert_eq!(verts[1], solid.tris[0].b);
    assert_eq!(verts[2], solid.tris[0].c);
    assert_eq!(verts[5], solid.tris[1].c);
    assert_eq!((indices[1].a, indices[1].b, indices[1].c), (3, 4, 5));
}

#[test]
fn button_press_answers_with_a_pick_ray() {
    let mut game = Game::new(ground_quad(), small_brush()).unwrap();
    // move the pointer somewhere on screen (first move snaps, no drag)
    game.handle_mouse_event(MouseEvent::Moved(640, 360));

    let left = game.handle_mouse_event(MouseEvent::Button(true, MouseButton::Left));
    let req = left.unwrap();
    assert_eq!(req.op, BrushOp::Union);
    // the camera looks down at the fixed pitch; a center-screen ray heads
    // below the horizontal
    assert!(req.dir.y < 0);

    let right = game.handle_mouse_event(MouseEvent::Button(true, MouseButton::Right));
    assert_eq!(right.unwrap().op, BrushOp::Subtract);

    // releases and other buttons produce no pick
    assert!(game.handle_mouse_event(MouseEvent::Button(false, MouseButton::Left)).is_none());
    assert!(game.handle_mouse_event(MouseEvent::Button(true, MouseButton::Middle)).is_none());
    assert!(VIEW_W == 1280 && VIEW_H == 720);
}

#[test]
fn jump_key_answers_with_the_upward_impulse() {
    let mut game = Game::new(ground_quad(), small_brush()).unwrap();
    let jump = game.handle_key_event(true, KeyEvent::Space);
    assert_eq!(jump, Some(Vec3 { x: 0, y: 5 * FX_ONE, z: 0 }));
    assert_eq!(game.handle_key_event(true, KeyEvent::W), None);
    assert!(game.input_state.w);
}

#[test]
fn movement_impulse_follows_the_orbit() {
    let mut game = Game::new(ground_quad(), small_brush()).unwrap();
    game.handle_key_event(true, KeyEvent::W);
    let fwd = game.movement_impulse();
    assert_eq!((fwd.x, fwd.y, fwd.z), (0, 0, -FX_ONE));

    // a quarter turn of orbit turns the same intent sideways
    game.camera.apply_drag(QUARTER_TURN / DRAG_SENSITIVITY);
    let turned = game.movement_impulse();
    assert!((turned.x as f64 / FX_ONE as f64 + 1.0).abs() < 0.05, "x = {}", turned.x);
    assert!((turned.z as f64 / FX_ONE as f64).abs() < 0.05, "z = {}", turned.z);
}

#[test]
fn first_pointer_move_produces_no_drag() {
    let mut game = Game::new(ground_quad(), small_brush()).unwrap();
    let camera_before = game.camera;
    // both stored pointer positions still sit at the origin sentinel
    game.handle_mouse_event(MouseEvent::Moved(0, 0));
    assert_eq!(game.camera, camera_before);
    assert_eq!(game.camera.pivot, 0);

    // even a first move far from the origin snaps instead of dragging
    let mut other = Game::new(ground_quad(), small_brush()).unwrap();
    other.handle_mouse_event(MouseEvent::Moved(500, 200));
    assert_eq!(other.camera.pivot, 0);

    // the second move does drag
    other.handle_mouse_event(MouseEvent::Moved(480, 200));
    assert_eq!(other.camera.pivot, 20 * DRAG_SENSITIVITY);
}

#[test]
fn empty_terrain_is_accepted() {
    let mut game = Game::new(Solid { tris: Vec::new() }, small_brush()).unwrap();
    assert_eq!(game.csg.tri_count(), 0);
    assert_eq!(game.geometry.vert_count(), 0);
    assert_eq!(
        game.physics.shape(game.ground_handle),
        Some(ShapeDesc::TriangleSoup { tri_count: 0 })
    );
    // sculpting onto an empty terrain works like any other edit
    assert!(game.apply_brush_at(soup_of(1)).is_ok());
    assert_eq!(game.geometry.vert_count(), 3);
}

#[test]
fn oversized_initial_terrain_is_refused() {
    let r = Game::new(soup_of(MAX_VERTS / 3 + 1), small_brush());
    assert!(matches!(r, Err(SculptError::MeshCapacityExceeded)));
}
