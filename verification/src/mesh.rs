//! What the stages read of a mesh once it is on the device.

use vstd::prelude::*;
use crate::grass::Vec3;

verus! {

/// How the vertices of a mesh form primitives.
#[derive(Clone, Copy, Debug, PartialEq, Eq, Structural)]
pub enum PrimitiveTopology {
    PointList,
    LineList,
    LineStrip,
    TriangleList,
    TriangleStrip,
}

/// The width of the indices of a mesh.
#[derive(Clone, Copy, Debug, PartialEq, Eq, Structural)]
pub enum IndexFormat {
    Uint16,
    Uint32,
}

/// Whether a mesh is drawn through an index buffer, and how many indices or vertices it has.
#[derive(Clone, Copy, Debug, PartialEq, Eq, Structural)]
pub enum GpuBufferInfo {
    Indexed { count: u32, index_format: IndexFormat },
    NonIndexed { vertex_count: u32 },
}

/// A mesh that has been uploaded. Its vertex layout is known by an identifier.
#[derive(Clone, Copy, Debug, PartialEq, Eq, Structural)]
pub struct GpuMesh {
    pub buffer_info: GpuBufferInfo,
    pub primitive_topology: PrimitiveTopology,
    pub layout: u64,
}

/// A mesh before it is uploaded: its topology, where its vertices are, and the indices that
/// join them, if it has any.
#[derive(Debug)]
pub struct Mesh {
    pub primitive_topology: PrimitiveTopology,
    pub positions: Vec<Vec3>,
    pub indices: Option<Vec<u32>>,
}

/// The mathematical value of a [`Mesh`].
pub struct MeshView {
    pub primitive_topology: PrimitiveTopology,
    pub positions: Seq<Vec3>,
    pub indices: Option<Seq<u32>>,
}

impl View for Mesh {
    type V = MeshView;

    open spec fn view(&self) -> MeshView {
        MeshView {
            primitive_topology: self.primitive_topology,
            positions: self.positions@,
            indices: match self.indices {
                Some(indices) => Some(indices@),
                None => None,
            },
        }
    }
}

} // verus!
