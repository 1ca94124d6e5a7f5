//! The cube's vertex table.
//!
//! The one mesh the viewer draws is a unit cube centred on the origin:
//! six faces, two triangles each, thirty-six vertices in all, every vertex
//! carrying its position and the outward normal of its face.  Coordinates
//! are in thousandths of a world unit, so the cube's corners lie at
//! `±500` and the unit normals at `±1000`.  The table is generated once at
//! startup and never changes.

use vstd::prelude::*;
use crate::camera::Vec3Milli;

verus! {

/// One mesh vertex: a position on the cube and the outward unit normal of
/// its face, both in milli units.
#[derive(Clone, Copy, Debug, PartialEq, Eq, Structural)]
pub struct Vertex {
    pub position: Vec3Milli,
    pub normal: Vec3Milli,
}

/// Shorthand for a vertex from six coordinates.
pub open spec fn vx(px: i64, py: i64, pz: i64, nx: i64, ny: i64, nz: i64) -> Vertex {
    Vertex {
        position: Vec3Milli { x: px, y: py, z: pz },
        normal: Vec3Milli { x: nx, y: ny, z: nz },
    }
}

/// The face looking along positive `z`.
pub open spec fn front_face() -> Seq<Vertex> {
    seq![
        vx(-500i64, -500i64, 500i64, 0i64, 0i64, 1000i64),
        vx(500i64, -500i64, 500i64, 0i64, 0i64, 1000i64),
        vx(500i64, 500i64, 500i64, 0i64, 0i64, 1000i64),
        vx(500i64, 500i64, 500i64, 0i64, 0i64, 1000i64),
        vx(-500i64, 500i64, 500i64, 0i64, 0i64, 1000i64),
        vx(-500i64, -500i64, 500i64, 0i64, 0i64, 1000i64),
    ]
}

/// The face looking along negative `z`.
pub open spec fn back_face() -> Seq<Vertex> {
    seq![
        vx(-500i64, -500i64, -500i64, 0i64, 0i64, -1000i64),
        vx(500i64, -500i64, -500i64, 0i64, 0i64, -1000i64),
        vx(500i64, 500i64, -500i64, 0i64, 0i64, -1000i64),
        vx(500i64, 500i64, -500i64, 0i64, 0i64, -1000i64),
        vx(-500i64, 500i64, -500i64, 0i64, 0i64, -1000i64),
        vx(-500i64, -500i64, -500i64, 0i64, 0i64, -1000i64),
    ]
}

/// The face looking along negative `x`.
pub open spec fn left_face() -> Seq<Vertex> {
    seq![
        vx(-500i64, 500i64, 500i64, -1000i64, 0i64, 0i64),
        vx(-500i64, 500i64, -500i64, -1000i64, 0i64, 0i64),
        vx(-500i64, -500i64, -500i64, -1000i64, 0i64, 0i64),
        vx(-500i64, -500i64, -500i64, -1000i64, 0i64, 0i64),
        vx(-500i64, -500i64, 500i64, -1000i64, 0i64, 0i64),
        vx(-500i64, 500i64, 500i64, -1000i64, 0i64, 0i64),
    ]
}

/// The face looking along positive `x`.
pub open spec fn right_face() -> Seq<Vertex> {
    seq![
        vx(500i64, 500i64, 500i64, 1000i64, 0i64, 0i64),
        vx(500i64, 500i64, -500i64, 1000i64, 0i64, 0i64),
        vx(500i64, -500i64, -500i64, 1000i64, 0i64, 0i64),
        vx(500i64, -500i64, -500i64, 1000i64, 0i64, 0i64),
        vx(500i64, -500i64, 500i64, 1000i64, 0i64, 0i64),
        vx(500i64, 500i64, 500i64, 1000i64, 0i64, 0i64),
    ]
}

/// The face looking along negative `y`.
pub open spec fn bottom_face() -> Seq<Vertex> {
    seq![
        vx(-500i64, -500i64, -500i64, 0i64, -1000i64, 0i64),
        vx(500i64, -500i64, -500i64, 0i64, -1000i64, 0i64),
        vx(500i64, -500i64, 500i64, 0i64, -1000i64, 0i64),
        vx(500i64, -500i64, 500i64, 0i64, -1000i64, 0i64),
        vx(-500i64, -500i64, 500i64, 0i64, -1000i64, 0i64),
        vx(-500i64, -500i64, -500i64, 0i64, -1000i64, 0i64),
    ]
}

/// The face looking along positive `y`.
pub open spec fn top_face() -> Seq<Vertex> {
    seq![
        vx(-500i64, 500i64, -500i64, 0i64, 1000i64, 0i64),
        vx(500i64, 500i64, -500i64, 0i64, 1000i64, 0i64),
        vx(500i64, 500i64, 500i64, 0i64, 1000i64, 0i64),
        vx(500i64, 500i64, 500i64, 0i64, 1000i64, 0i64),
        vx(-500i64, 500i64, 500i64, 0i64, 1000i64, 0i64),
        vx(-500i64, 500i64, -500i64, 0i64, 1000i64, 0i64),
    ]
}

/// The whole table: the six faces in a fixed order, two triangles each.
pub open spec fn cube_vertices() -> Seq<Vertex> {
    front_face() + back_face() + left_face() + right_face() + bottom_face() + top_face()
}

/// Push one vertex built from six coordinates.
fn push_vertex(v: &mut Vec<Vertex>, px: i64, py: i64, pz: i64, nx: i64, ny: i64, nz: i64)
    ensures
        final(v)@ == old(v)@.push(vx(px, py, pz, nx, ny, nz)),
{
    v.push(
        Vertex {
            position: Vec3Milli { x: px, y: py, z: pz },
            normal: Vec3Milli { x: nx, y: ny, z: nz },
        },
    );
}

/// Build the cube's vertex table, exactly the thirty-six vertices of
/// [`cube_vertices`] in order.
pub fn create_cube_vertices() -> (r: Vec<Vertex>)
    ensures
        r@ == cube_vertices(),
        r@.len() == 36,
{
    let mut v: Vec<Vertex> = Vec::new();
    push_vertex(&mut v, -500, -500, 500, 0, 0, 1000);
    push_vertex(&mut v, 500, -500, 500, 0, 0, 1000);
    push_vertex(&mut v, 500, 500, 500, 0, 0, 1000);
    push_vertex(&mut v, 500, 500, 500, 0, 0, 1000);
    push_vertex(&mut v, -500, 500, 500, 0, 0, 1000);
    push_vertex(&mut v, -500, -500, 500, 0, 0, 1000);
    push_vertex(&mut v, -500, -500, -500, 0, 0, -1000);
    push_vertex(&mut v, 500, -500, -500, 0, 0, -1000);
    push_vertex(&mut v, 500, 500, -500, 0, 0, -1000);
    push_vertex(&mut v, 500, 500, -500, 0, 0, -1000);
    push_vertex(&mut v, -500, 500, -500, 0, 0, -1000);
    push_vertex(&mut v, -500, -500, -500, 0, 0, -1000);
    push_vertex(&mut v, -500, 500, 500, -1000, 0, 0);
    push_vertex(&mut v, -500, 500, -500, -1000, 0, 0);
    push_vertex(&mut v, -500, -500, -500, -1000, 0, 0);
    push_vertex(&mut v, -500, -500, -500, -1000, 0, 0);
    push_vertex(&mut v, -500, -500, 500, -1000, 0, 0);
    push_vertex(&mut v, -500, 500, 500, -1000, 0, 0);
    push_vertex(&mut v, 500, 500, 500, 1000, 0, 0);
    push_vertex(&mut v, 500, 500, -500, 1000, 0, 0);
    push_vertex(&mut v, 500, -500, -500, 1000, 0, 0);
    push_vertex(&mut v, 500, -500, -500, 1000, 0, 0);
    push_vertex(&mut v, 500, -500, 500, 1000, 0, 0);
    push_vertex(&mut v, 500, 500, 500, 1000, 0, 0);
    push_vertex(&mut v, -500, -500, -500, 0, -1000, 0);
    push_vertex(&mut v, 500, -500, -500, 0, -1000, 0);
    push_vertex(&mut v, 500, -500, 500, 0, -1000, 0);
    push_vertex(&mut v, 500, -500, 500, 0, -1000, 0);
    push_vertex(&mut v, -500, -500, 500, 0, -1000, 0);
    push_vertex(&mut v, -500, -500, -500, 0, -1000, 0);
    push_vertex(&mut v, -500, 500, -500, 0, 1000, 0);
    push_vertex(&mut v, 500, 500, -500, 0, 1000, 0);
    push_vertex(&mut v, 500, 500, 500, 0, 1000, 0);
    push_vertex(&mut v, 500, 500, 500, 0, 1000, 0);
    push_vertex(&mut v, -500, 500, 500, 0, 1000, 0);
    push_vertex(&mut v, -500, 500, -500, 0, 1000, 0);
    proof {
        assert(v@ =~= cube_vertices());
    }
    v
}

} // verus!
