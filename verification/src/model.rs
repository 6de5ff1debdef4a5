//! Renderable geometry components and the material that binds a texture for
//! drawing.
//!
//! GPU objects (vertex and index buffers, bind groups) are owned by the host
//! layer and appear here as opaque numeric handles; everything the engine
//! decides about them — which meshes exist, how many indices each draw
//! covers — is plain data with contracts.

use vstd::prelude::*;
use crate::fx::{fx_ok, fx_sub, fx_sub_s, SCALE};
use crate::mat::Vec3;

verus! {

/// One texture coordinate pair, fixed point.
#[derive(Clone, Copy, Debug, PartialEq, Eq, Structural)]
pub struct Uv {
    pub u: i64,
    pub v: i64,
}

/// One vertex of a triangle mesh: position, texture coordinates and normal,
/// all fixed point.
#[derive(Clone, Copy, Debug, PartialEq, Eq, Structural)]
pub struct ModelVertex {
    pub position: crate::mat::Vec3,
    pub uv: Uv,
    pub normal: crate::mat::Vec3,
}

/// One mesh of a model: its GPU buffer handles and how many indices a draw
/// of it covers.
#[derive(Clone, Debug)]
pub struct Mesh {
    pub name: String,
    pub vertex_buffer: u64,
    pub index_buffer: u64,
    pub num_elements: u32,
}

/// A renderable model: an ordered sequence of meshes.
#[derive(Clone, Debug)]
pub struct Model {
    pub meshes: Vec<Mesh>,
}

/// A material: the bind group that makes a texture and its sampler
/// available to a draw.
#[derive(Clone, Copy, Debug, PartialEq, Eq, Structural)]
pub struct Material {
    pub bind_group: u64,
}

/// What can go wrong assembling vertices from decoded mesh data.
#[derive(Clone, Copy, Debug, PartialEq, Eq, Structural)]
pub enum ModelError {
    /// Fewer than two texture coordinates per vertex.
    TooFewTexcoords,
    /// Normals were present but fewer than three per vertex.
    TooFewNormals,
}

/// The vertex a triangle-mesh decode yields at index `i`: position from the
/// flat coordinate array, texture coordinates with the v axis flipped into
/// the texture-space convention, and the normal — the zero vector when the
/// mesh carries none.
pub open spec fn obj_vertex_s(
    positions: Seq<i64>,
    texcoords: Seq<i64>,
    normals: Seq<i64>,
    i: int,
) -> ModelVertex {
    ModelVertex {
        position: Vec3 {
            x: positions[3 * i],
            y: positions[3 * i + 1],
            z: positions[3 * i + 2],
        },
        uv: Uv {
            u: texcoords[2 * i],
            v: fx_sub_s(SCALE as int, texcoords[2 * i + 1] as int) as i64,
        },
        normal: if normals.len() == 0 {
            Vec3 { x: 0, y: 0, z: 0 }
        } else {
            Vec3 { x: normals[3 * i], y: normals[3 * i + 1], z: normals[3 * i + 2] }
        },
    }
}

/// Assemble the vertices of one triangle mesh from flat decoded coordinate
/// arrays: three position values per vertex, two texture values per vertex,
/// and either no normals at all (every normal defaults to the zero vector)
/// or three per vertex. The v texture coordinate is flipped (`1 - v`).
pub fn build_obj_vertices(positions: &Vec<i64>, texcoords: &Vec<i64>, normals: &Vec<i64>) -> (r:
    Result<Vec<ModelVertex>, ModelError>)
    requires
        forall|i: int| 0 <= i < positions@.len() ==> fx_ok(positions@[i] as int),
        forall|i: int| 0 <= i < texcoords@.len() ==> fx_ok(texcoords@[i] as int),
        forall|i: int| 0 <= i < normals@.len() ==> fx_ok(normals@[i] as int),
    ensures
        r is Ok <==> (texcoords@.len() >= 2 * (positions@.len() / 3) && (normals@.len() == 0
            || normals@.len() >= 3 * (positions@.len() / 3))),
        r == Err::<Vec<ModelVertex>, ModelError>(ModelError::TooFewTexcoords) <==> texcoords@.len()
            < 2 * (positions@.len() / 3),
        r matches Ok(v) ==> v@.len() == positions@.len() / 3,
        r matches Ok(v) ==> forall|i: int|
            0 <= i < v@.len() ==> v@[i] == obj_vertex_s(positions@, texcoords@, normals@, i),
{
    let total: usize = positions.len();
    let count: usize = total / 3;
    if texcoords.len() < 2 * count {
        return Err(ModelError::TooFewTexcoords);
    }
    if normals.len() > 0 && normals.len() < 3 * count {
        return Err(ModelError::TooFewNormals);
    }
    let mut out: Vec<ModelVertex> = Vec::new();
    let mut i: usize = 0;
    while i < count
        invariant
            i <= count,
            total == positions@.len(),
            count == positions@.len() / 3,
            texcoords@.len() >= 2 * count,
            normals@.len() == 0 || normals@.len() >= 3 * count,
            forall|j: int| 0 <= j < texcoords@.len() ==> fx_ok(texcoords@[j] as int),
            out@.len() == i,
            forall|j: int|
                0 <= j < i ==> out@[j] == obj_vertex_s(positions@, texcoords@, normals@, j),
        decreases count - i,
    {
        proof {
            assert(3 * (i as int) + 2 < positions@.len()) by {
                assert(count == positions@.len() / 3);
                vstd::arithmetic::div_mod::lemma_fundamental_div_mod(
                    positions@.len() as int,
                    3,
                );
                vstd::arithmetic::div_mod::lemma_mod_division_less_than_divisor(
                    positions@.len() as int,
                    3,
                );
            }
        }
        let position = Vec3 { x: positions[3 * i], y: positions[3 * i + 1], z: positions[3 * i + 2] };
        let uv = Uv { u: texcoords[2 * i], v: fx_sub(SCALE, texcoords[2 * i + 1]) };
        let normal = if normals.len() == 0 {
            Vec3 { x: 0, y: 0, z: 0 }
        } else {
            Vec3 { x: normals[3 * i], y: normals[3 * i + 1], z: normals[3 * i + 2] }
        };
        out.push(ModelVertex { position, uv, normal });
        i = i + 1;
    }
    Ok(out)
}

/// The vertex a scene-graph mesh decode yields at index `i`: the position,
/// with the normal and the texture coordinates padded by their defaults
/// wherever the decoded attribute array is shorter than the positions (no
/// flip on this path).
pub open spec fn gltf_vertex_s(
    positions: Seq<Vec3>,
    normals: Seq<Vec3>,
    uvs: Seq<Uv>,
    i: int,
) -> ModelVertex {
    ModelVertex {
        position: positions[i],
        uv: if i < uvs.len() {
            uvs[i]
        } else {
            Uv { u: 0, v: 0 }
        },
        normal: if i < normals.len() {
            normals[i]
        } else {
            Vec3 { x: 0, y: 0, z: 0 }
        },
    }
}

/// Flatten one scene-graph primitive into vertices: one vertex per decoded
/// position, normals defaulting to the zero vector and texture coordinates
/// to the origin wherever the decoded arrays run short.
pub fn build_gltf_vertices(positions: &Vec<Vec3>, normals: &Vec<Vec3>, uvs: &Vec<Uv>) -> (r: Vec<
    ModelVertex,
>)
    ensures
        r@.len() == positions@.len(),
        forall|i: int| 0 <= i < r@.len() ==> r@[i] == gltf_vertex_s(positions@, normals@, uvs@, i),
{
    let mut out: Vec<ModelVertex> = Vec::new();
    let mut i: usize = 0;
    while i < positions.len()
        invariant
            i <= positions@.len(),
            out@.len() == i,
            forall|j: int| 0 <= j < i ==> out@[j] == gltf_vertex_s(positions@, normals@, uvs@, j),
        decreases positions@.len() - i,
    {
        let uv = if i < uvs.len() {
            uvs[i]
        } else {
            Uv { u: 0, v: 0 }
        };
        let normal = if i < normals.len() {
            normals[i]
        } else {
            Vec3 { x: 0, y: 0, z: 0 }
        };
        out.push(ModelVertex { position: positions[i], uv, normal });
        i = i + 1;
    }
    out
}

/// Widen 16-bit decoded indices to the 32-bit indices draws use.
pub fn widen_indices(indices: &Vec<u16>) -> (r: Vec<u32>)
    ensures
        r@.len() == indices@.len(),
        forall|i: int| 0 <= i < r@.len() ==> r@[i] == indices@[i] as u32,
{
    let mut out: Vec<u32> = Vec::new();
    let mut i: usize = 0;
    while i < indices.len()
        invariant
            i <= indices@.len(),
            out@.len() == i,
            forall|j: int| 0 <= j < i ==> out@[j] == indices@[j] as u32,
        decreases indices@.len() - i,
    {
        out.push(indices[i] as u32);
        i = i + 1;
    }
    out
}

} // verus!
