//! The edit pipeline driven by the real CSG kernel: boolean results are
//! converted to fixed-point triangles and installed through the engine.

use csgrs::csg::CSG;
use sculpt_core::fx::FX_ONE;
use sculpt_core::game::Game;
use sculpt_core::physics::ShapeDesc;
use sculpt_core::solid::{Solid, Tri};
use sculpt_core::vec3::Vec3;

fn to_fx(v: f64) -> i64 {
    (v * FX_ONE as f64).round() as i64
}

fn point_to_vec3(p: &nalgebra::Point3<f64>) -> Vec3 {
    Vec3 { x: to_fx(p.x), y: to_fx(p.y), z: to_fx(p.z) }
}

/// Fan-triangulate the polygons of a CSG solid into fixed-point triangles.
fn csg_to_solid(csg: &CSG<()>) -> Solid {
    let mut tris = Vec::new();
    for poly in &csg.polygons {
        let n = Vec3 {
            x: to_fx(poly.plane.normal.x),
            y: to_fx(poly.plane.normal.y),
            z: to_fx(poly.plane.normal.z),
        };
        for i in 1..poly.vertices.len() - 1 {
            tris.push(Tri {
                a: point_to_vec3(&poly.vertices[0].pos),
                b: point_to_vec3(&poly.vertices[i].pos),
                c: point_to_vec3(&poly.vertices[i + 1].pos),
                normal: n,
            });
        }
    }
    Solid { tris }
}

#[test]
fn kernel_union_keeps_collider_and_buffer_in_step() {
    let terrain_csg: CSG<()> = CSG::cube(16.0, 1.0, 16.0, None);
    let brush_csg: CSG<()> = CSG::sphere(1.0, 8, 4, None);

    let terrain = csg_to_solid(&terrain_csg);
    let brush = csg_to_solid(&brush_csg);
    assert!(terrain.tri_count() > 0);
    assert!(brush.tri_count() > 0);

    let mut game = Game::new(terrain, brush).unwrap();
    let before = game.csg.tri_count();

    // a union at a point on the top face, computed by the real kernel
    let placed = brush_csg.translate(nalgebra::Vector3::new(4.0, 1.0, 4.0));
    let combined = csg_to_solid(&terrain_csg.union(&placed));

    assert!(game.apply_brush_at(combined).is_ok());
    assert!(game.csg.tri_count() > before);
    assert_eq!(
        game.physics.shape(game.ground_handle),
        Some(ShapeDesc::TriangleSoup { tri_count: game.csg.tri_count() })
    );
    assert_eq!(game.geometry.vert_count(), 3 * game.csg.tri_count());
}

#[test]
fn kernel_subtraction_carves_the_terrain() {
    let terrain_csg: CSG<()> = CSG::cube(8.0, 2.0, 8.0, None);
    let brush_csg: CSG<()> = CSG::sphere(1.5, 8, 4, None);

    let mut game = Game::new(csg_to_solid(&terrain_csg), csg_to_solid(&brush_csg)).unwrap();

    let placed = brush_csg.translate(nalgebra::Vector3::new(4.0, 2.0, 4.0));
    let combined = csg_to_solid(&terrain_csg.difference(&placed));
    assert!(combined.tri_count() > 0);

    assert!(game.apply_brush_at(combined).is_ok());
    assert_eq!(game.geometry.vert_count(), 3 * game.csg.tri_count());
}
