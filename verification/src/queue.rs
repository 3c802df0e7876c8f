//! Queueing: one draw item for each drawable chunk in each view.

use vstd::prelude::*;
use crate::cache::EntityCache;
use crate::key::{mesh_key_bits, view_key_bits, MeshPipelineKey};
use crate::mesh::GpuMesh;

verus! {

/// An entity with a mesh, as one view sees it: the mesh as uploaded, if it is, and the
/// distance from the view along its forward axis, as the bits of a single-precision value.
#[derive(Clone, Copy, Debug, PartialEq, Eq, Structural)]
pub struct MaterialMesh {
    pub entity: u64,
    pub mesh: Option<GpuMesh>,
    pub distance: u32,
}

/// A view and the entities with a mesh that it ranges.
#[derive(Debug)]
pub struct ExtractedView {
    pub hdr: bool,
    pub material_meshes: Vec<MaterialMesh>,
}

/// The variant of the grass pipeline that an item is drawn with: the specialisation key and
/// the vertex layout of the mesh.
#[derive(Clone, Copy, Debug, PartialEq, Eq, Structural)]
pub struct PipelineVariant {
    pub key: MeshPipelineKey,
    pub layout: u64,
}

/// A draw item of the opaque phase.
#[derive(Clone, Copy, Debug, PartialEq, Eq, Structural)]
pub struct Opaque3d {
    pub distance: u32,
    pub pipeline: PipelineVariant,
    pub entity: u64,
    pub draw_function: u32,
}

/// The draw item of an entity in a view, where it gets one: the entity is a drawable chunk
/// and its mesh is uploaded.
pub open spec fn item_for(
    draw_function: u32,
    view_key: u32,
    entities: Seq<u64>,
    candidate: MaterialMesh,
) -> Option<Opaque3d> {
    if entities.contains(candidate.entity) && candidate.mesh is Some {
        let mesh = candidate.mesh.unwrap();
        Some(
            Opaque3d {
                distance: candidate.distance,
                pipeline: PipelineVariant {
                    key: MeshPipelineKey {
                        bits: mesh_key_bits(view_key, mesh.primitive_topology),
                    },
                    layout: mesh.layout,
                },
                entity: candidate.entity,
                draw_function,
            },
        )
    } else {
        None
    }
}

/// The draw items of a view: one for each entity that gets one, in the order of the entities.
pub open spec fn items_for(
    draw_function: u32,
    view_key: u32,
    entities: Seq<u64>,
    candidates: Seq<MaterialMesh>,
) -> Seq<Opaque3d>
    decreases candidates.len(),
{
    if candidates.len() == 0 {
        Seq::empty()
    } else {
        let front = items_for(draw_function, view_key, entities, candidates.drop_last());
        match item_for(draw_function, view_key, entities, candidates.last()) {
            Some(item) => front.push(item),
            None => front,
        }
    }
}

/// Queues the draw items of one view.
pub fn queue_view(
    draw_function: u32,
    view_key: MeshPipelineKey,
    cacher: &EntityCache,
    material_meshes: &Vec<MaterialMesh>,
) -> (phase: Vec<Opaque3d>)
    ensures
        phase@ == items_for(draw_function, view_key.bits, cacher@, material_meshes@),
{
    let mut phase: Vec<Opaque3d> = Vec::new();
    let mut i: usize = 0;
    while i < material_meshes.len()
        invariant
            i <= material_meshes.len(),
            phase@ == items_for(
                draw_function,
                view_key.bits,
                cacher@,
                material_meshes@.take(i as int),
            ),
        decreases material_meshes.len() - i,
    {
        let candidate = material_meshes[i];
        proof {
            assert(material_meshes@.take(i + 1).drop_last() =~= material_meshes@.take(i as int));
            assert(material_meshes@.take(i + 1).last() == candidate);
        }
        i += 1;
        if !cacher.contains(candidate.entity) {
            continue;
        }
        if let Some(mesh) = candidate.mesh {
            let key = view_key.with_topology(mesh.primitive_topology);
            phase.push(
                Opaque3d {
                    distance: candidate.distance,
                    pipeline: PipelineVariant { key, layout: mesh.layout },
                    entity: candidate.entity,
                    draw_function,
                },
            );
        }
    }
    assert(material_meshes@.take(i as int) =~= material_meshes@);
    phase
}

/// Queues, for every view, one draw item for each drawable chunk whose mesh is uploaded.
/// The items of a view come in the order of its entities.
pub fn queue_grass_buffers(
    draw_function: u32,
    msaa_samples: u32,
    cacher: &EntityCache,
    views: &Vec<ExtractedView>,
) -> (phases: Vec<Vec<Opaque3d>>)
    ensures
        phases@.len() == views@.len(),
        forall|v: int|
            0 <= v < views@.len() ==> (#[trigger] phases@[v])@ == items_for(
                draw_function,
                view_key_bits(msaa_samples, views@[v].hdr),
                cacher@,
                views@[v].material_meshes@,
            ),
{
    let mut phases: Vec<Vec<Opaque3d>> = Vec::new();
    let mut v: usize = 0;
    while v < views.len()
        invariant
            v <= views.len(),
            phases@.len() == v,
            forall|u: int|
                0 <= u < v ==> (#[trigger] phases@[u])@ == items_for(
                    draw_function,
                    view_key_bits(msaa_samples, views@[u].hdr),
                    cacher@,
                    views@[u].material_meshes@,
                ),
        decreases views.len() - v,
    {
        let view = &views[v];
        let view_key = MeshPipelineKey::for_view(msaa_samples, view.hdr);
        let phase = queue_view(draw_function, view_key, cacher, &view.material_meshes);
        phases.push(phase);
        v += 1;
    }
    phases
}

} // verus!
