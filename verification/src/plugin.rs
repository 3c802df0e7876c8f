//! What the plugin sets up before the first frame: the mesh of a single blade.

use vstd::prelude::*;
use crate::grass::Vec3;
use crate::mesh::{Mesh, MeshView, PrimitiveTopology};
use crate::scalar::rank;

verus! {

/// The identifier of the mesh that blades are drawn with unless another is given.
pub const GRASS_MESH_HANDLE: u64 = 9357128457583957922;

/// The bit pattern of the single-precision value nearest to 0.15.
pub const P15: u32 = 0x3e19_999au32;

/// The bit pattern of 0.25.
pub const P25: u32 = 0x3e80_0000u32;

/// The bit pattern of the single-precision value nearest to 0.4.
pub const P40: u32 = 0x3ecc_cccdu32;

/// The bit pattern of 0.5.
pub const P50: u32 = 0x3f00_0000u32;

/// The bit pattern of 1.
pub const P100: u32 = 0x3f80_0000u32;

/// The default blade: a triangle on the ground and a tip above it, joined into three
/// triangles.
pub open spec fn default_mesh() -> MeshView {
    MeshView {
        primitive_topology: PrimitiveTopology::TriangleList,
        positions: seq![
            Vec3 { x: 0, y: 0, z: 0 },
            Vec3 { x: P50, y: 0, z: 0 },
            Vec3 { x: P25, y: 0, z: P40 },
            Vec3 { x: P25, y: P100, z: P15 },
        ],
        indices: Some(seq![1u32, 0u32, 3u32, 2u32, 1u32, 3u32, 0u32, 2u32, 3u32]),
    }
}

/// Whether a point lies in the box from the origin to a half, one and four tenths.
pub open spec fn in_blade_box(p: Vec3) -> bool {
    &&& 0 <= rank(p.x) <= rank(P50)
    &&& 0 <= rank(p.y) <= rank(P100)
    &&& 0 <= rank(p.z) <= rank(P40)
}

/// Constructs the default look of the grass: four vertices, none outside the blade's box and
/// the lowest on the ground, and nine indices that each name one of them.
pub fn default_grass_mesh() -> (mesh: Mesh)
    ensures
        mesh@ == default_mesh(),
        forall|i: int| 0 <= i < mesh@.positions.len() ==> in_blade_box(#[trigger] mesh@.positions[i]),
        forall|i: int|
            0 <= i < mesh@.indices.unwrap().len() ==> (#[trigger] mesh@.indices.unwrap()[i])
                < mesh@.positions.len(),
{
    let mut positions: Vec<Vec3> = Vec::new();
    positions.push(Vec3 { x: 0, y: 0, z: 0 });
    positions.push(Vec3 { x: P50, y: 0, z: 0 });
    positions.push(Vec3 { x: P25, y: 0, z: P40 });
    positions.push(Vec3 { x: P25, y: P100, z: P15 });
    let mut indices: Vec<u32> = Vec::new();
    indices.push(1);
    indices.push(0);
    indices.push(3);
    indices.push(2);
    indices.push(1);
    indices.push(3);
    indices.push(0);
    indices.push(2);
    indices.push(3);
    let mesh = Mesh {
        primitive_topology: PrimitiveTopology::TriangleList,
        positions,
        indices: Some(indices),
    };
    assert(mesh@.positions =~= default_mesh().positions);
    assert(mesh@.indices.unwrap() =~= default_mesh().indices.unwrap());
    mesh
}

} // verus!
