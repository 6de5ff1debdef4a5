//! The skybox component: a six-layer cube texture with its own cube
//! geometry and binding.

use vstd::prelude::*;
use crate::fx::SCALE;
use crate::mat::Vec3;

verus! {

/// The number of faces of a cube texture.
pub const CUBEMAP_FACES: usize = 6;

/// A skybox component: the cube-geometry vertex buffer handle, the bind
/// group handle, and the layer count of the underlying texture.
#[derive(Clone, Copy, Debug, PartialEq, Eq, Structural)]
pub struct CubemapComponent {
    pub vertices: u64,
    pub bind_group: u64,
    pub layer_count: u32,
}

/// A cubemap's texture always has exactly six layers.
pub open spec fn cubemap_ok(c: CubemapComponent) -> bool {
    c.layer_count == CUBEMAP_FACES
}

impl CubemapComponent {
    /// A skybox component over the given GPU handles; the texture behind it
    /// holds one layer per cube face.
    pub fn new(vertices: u64, bind_group: u64) -> (r: CubemapComponent)
        ensures
            r.vertices == vertices,
            r.bind_group == bind_group,
            r.layer_count == CUBEMAP_FACES,
            cubemap_ok(r),
    {
        CubemapComponent { vertices, bind_group, layer_count: 6 }
    }
}

/// One corner of the unit cube, in fixed point: each coordinate is one
/// whole unit, negative where the flag says so.
pub open spec fn corner_s(nx: bool, ny: bool, nz: bool) -> Vec3 {
    Vec3 {
        x: if nx {
            (-SCALE) as i64
        } else {
            SCALE
        },
        y: if ny {
            (-SCALE) as i64
        } else {
            SCALE
        },
        z: if nz {
            (-SCALE) as i64
        } else {
            SCALE
        },
    }
}

/// The 36 corner positions of the unit cube, two triangles per face, in
/// the fixed face order the skybox shader expects: back, left, right,
/// front, top, bottom.
pub open spec fn cube_vertices_s() -> Seq<Vec3> {
    seq![
        corner_s(true, false, true), corner_s(true, true, true), corner_s(false, true, true),
        corner_s(false, true, true), corner_s(false, false, true), corner_s(true, false, true),
        corner_s(true, true, false), corner_s(true, true, true), corner_s(true, false, true),
        corner_s(true, false, true), corner_s(true, false, false), corner_s(true, true, false),
        corner_s(false, true, true), corner_s(false, true, false), corner_s(false, false, false),
        corner_s(false, false, false), corner_s(false, false, true), corner_s(false, true, true),
        corner_s(true, true, false), corner_s(true, false, false), corner_s(false, false, false),
        corner_s(false, false, false), corner_s(false, true, false), corner_s(true, true, false),
        corner_s(true, false, true), corner_s(false, false, true), corner_s(false, false, false),
        corner_s(false, false, false), corner_s(true, false, false), corner_s(true, false, true),
        corner_s(true, true, true), corner_s(true, true, false), corner_s(false, true, true),
        corner_s(false, true, true), corner_s(true, true, false), corner_s(false, true, false),
    ]
}

/// The 36 corner positions of the unit cube, two triangles per face, in the
/// fixed face order the skybox shader expects; every coordinate is plus or
/// minus one unit.
pub fn create_cubemap_vertices() -> (r: Vec<Vec3>)
    ensures
        r@ == cube_vertices_s(),
        r@.len() == 36,
        forall|i: int|
            0 <= i < 36 ==> ((r@[i].x == SCALE || r@[i].x == -SCALE) && (r@[i].y == SCALE
                || r@[i].y == -SCALE) && (r@[i].z == SCALE || r@[i].z == -SCALE)),
{
    let n: i64 = -SCALE;
    let p: i64 = SCALE;
    let mut out: Vec<Vec3> = Vec::new();

    out.push(Vec3 { x: n, y: p, z: n });
    out.push(Vec3 { x: n, y: n, z: n });
    out.push(Vec3 { x: p, y: n, z: n });
    out.push(Vec3 { x: p, y: n, z: n });
    out.push(Vec3 { x: p, y: p, z: n });
    out.push(Vec3 { x: n, y: p, z: n });

    out.push(Vec3 { x: n, y: n, z: p });
    out.push(Vec3 { x: n, y: n, z: n });
    out.push(Vec3 { x: n, y: p, z: n });
    out.push(Vec3 { x: n, y: p, z: n });
    out.push(Vec3 { x: n, y: p, z: p });
    out.push(Vec3 { x: n, y: n, z: p });

    out.push(Vec3 { x: p, y: n, z: n });
    out.push(Vec3 { x: p, y: n, z: p });
    out.push(Vec3 { x: p, y: p, z: p });
    out.push(Vec3 { x: p, y: p, z: p });
    out.push(Vec3 { x: p, y: p, z: n });
    out.push(Vec3 { x: p, y: n, z: n });

    out.push(Vec3 { x: n, y: n, z: p });
    out.push(Vec3 { x: n, y: p, z: p });
    out.push(Vec3 { x: p, y: p, z: p });
    out.push(Vec3 { x: p, y: p, z: p });
    out.push(Vec3 { x: p, y: n, z: p });
    out.push(Vec3 { x: n, y: n, z: p });

    out.push(Vec3 { x: n, y: p, z: n });
    out.push(Vec3 { x: p, y: p, z: n });
    out.push(Vec3 { x: p, y: p, z: p });
    out.push(Vec3 { x: p, y: p, z: p });
    out.push(Vec3 { x: n, y: p, z: p });
    out.push(Vec3 { x: n, y: p, z: n });

    out.push(Vec3 { x: n, y: n, z: n });
    out.push(Vec3 { x: n, y: n, z: p });
    out.push(Vec3 { x: p, y: n, z: n });
    out.push(Vec3 { x: p, y: n, z: n });
    out.push(Vec3 { x: n, y: n, z: p });
    out.push(Vec3 { x: p, y: n, z: p });

    proof {
        assert(out@ =~= cube_vertices_s());
    }
    out
}

} // verus!
