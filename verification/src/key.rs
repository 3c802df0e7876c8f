//! The key by which a pipeline is specialised: the sample count and the dynamic range of the
//! view, and the topology of the mesh.

use vstd::prelude::*;
use vstd::std_specs::bits::u32_trailing_zeros;
use crate::mesh::PrimitiveTopology;

verus! {

/// A specialisation key, as the bits of the engine's mesh pipeline key.
#[derive(Clone, Copy, Debug, PartialEq, Eq, Structural)]
pub struct MeshPipelineKey {
    pub bits: u32,
}

/// The number that stands for a topology.
pub open spec fn topology_index(topology: PrimitiveTopology) -> u32 {
    match topology {
        PrimitiveTopology::PointList => 0,
        PrimitiveTopology::LineList => 1,
        PrimitiveTopology::LineStrip => 2,
        PrimitiveTopology::TriangleList => 3,
        PrimitiveTopology::TriangleStrip => 4,
    }
}

/// The key bits of a sample count: the exponent of its largest power of two, in the three
/// highest bits.
pub open spec fn msaa_bits(samples: u32) -> u32 {
    (u32_trailing_zeros(samples) & 7) << 29
}

/// The key bit of the dynamic range.
pub open spec fn hdr_bits(hdr: bool) -> u32 {
    if hdr {
        2
    } else {
        0
    }
}

/// The key bits of a topology: its number, in the three bits below those of the sample count.
pub open spec fn topology_bits(topology: PrimitiveTopology) -> u32 {
    (topology_index(topology) & 7) << 26
}

/// The key of a view.
pub open spec fn view_key_bits(samples: u32, hdr: bool) -> u32 {
    msaa_bits(samples) | hdr_bits(hdr)
}

/// The key of a mesh in a view.
pub open spec fn mesh_key_bits(view_key: u32, topology: PrimitiveTopology) -> u32 {
    view_key | topology_bits(topology)
}

/// `MeshPipelineKey::from_msaa_samples` of `bevy::pbr`, as bits: the count of trailing zeros
/// of the sample count, masked to three bits and shifted to the top of the word.
#[verifier::external_body]
fn key_from_msaa_samples(samples: u32) -> (bits: u32)
    ensures
        bits == msaa_bits(samples),
{
    bevy::pbr::MeshPipelineKey::from_msaa_samples(samples).bits()
}

/// `MeshPipelineKey::from_hdr` of `bevy::pbr`, as bits: the flag `HDR`, or nothing.
#[verifier::external_body]
fn key_from_hdr(hdr: bool) -> (bits: u32)
    ensures
        bits == hdr_bits(hdr),
{
    bevy::pbr::MeshPipelineKey::from_hdr(hdr).bits()
}

/// `MeshPipelineKey::from_primitive_topology` of `bevy::pbr`, as bits: the topology's number,
/// masked to three bits and shifted below the bits of the sample count.
#[verifier::external_body]
fn key_from_primitive_topology(topology: PrimitiveTopology) -> (bits: u32)
    ensures
        bits == topology_bits(topology),
{
    let outside = match topology {
        PrimitiveTopology::PointList => bevy::render::mesh::PrimitiveTopology::PointList,
        PrimitiveTopology::LineList => bevy::render::mesh::PrimitiveTopology::LineList,
        PrimitiveTopology::LineStrip => bevy::render::mesh::PrimitiveTopology::LineStrip,
        PrimitiveTopology::TriangleList => bevy::render::mesh::PrimitiveTopology::TriangleList,
        PrimitiveTopology::TriangleStrip => bevy::render::mesh::PrimitiveTopology::TriangleStrip,
    };
    bevy::pbr::MeshPipelineKey::from_primitive_topology(outside).bits()
}

impl MeshPipelineKey {
    /// The key of a view with the given sample count and dynamic range.
    pub fn for_view(samples: u32, hdr: bool) -> (key: MeshPipelineKey)
        ensures
            key.bits == view_key_bits(samples, hdr),
    {
        MeshPipelineKey { bits: key_from_msaa_samples(samples) | key_from_hdr(hdr) }
    }

    /// The key of a mesh of the given topology in the view with this key.
    pub fn with_topology(self, topology: PrimitiveTopology) -> (key: MeshPipelineKey)
        ensures
            key.bits == mesh_key_bits(self.bits, topology),
    {
        MeshPipelineKey { bits: self.bits | key_from_primitive_topology(topology) }
    }
}

} // verus!
