use vstd::prelude::*;
use crate::buffer::{bind_index_buffer, GpuBuffer, IndexType};
use crate::error::EngineError;

verus! {

/// Handle of a mesh uploaded to the GPU: its position in the renderer's mesh list.
#[derive(Debug, Clone, Copy, PartialEq, Eq, Hash, Structural)]
pub struct MeshId(pub u32);

/// Mesh data transferred to the GPU.
#[derive(Debug, Clone, Copy, PartialEq, Eq, Structural)]
pub struct GpuMesh {
    pub vertex_buffer: GpuBuffer,
    pub index_buffer: GpuBuffer,
    pub index_count: u32,
}

/// One indexed draw of a whole mesh.
#[derive(Debug, Clone, Copy, PartialEq, Eq, Structural)]
pub struct DrawCall {
    pub vertex_buffer: u64,
    pub index_buffer: u64,
    pub index_type: IndexType,
    pub index_count: u32,
}

/// The mesh a handle names, if the list holds it.
pub open spec fn mesh_of(meshes: Seq<GpuMesh>, id: MeshId) -> Option<GpuMesh> {
    if (id.0 as int) < meshes.len() {
        Some(meshes[id.0 as int])
    } else {
        None
    }
}

/// The mesh can be drawn: its index buffer says what indices it holds.
pub open spec fn drawable(m: GpuMesh) -> bool {
    m.index_buffer.index_type is Some
}

pub open spec fn draw_call_of(m: GpuMesh) -> DrawCall {
    DrawCall {
        vertex_buffer: m.vertex_buffer.buffer,
        index_buffer: m.index_buffer.buffer,
        index_type: m.index_buffer.index_type.unwrap(),
        index_count: m.index_count,
    }
}

/// Every instance whose mesh exists refers to a drawable mesh.
pub open spec fn all_drawable(meshes: Seq<GpuMesh>, ids: Seq<MeshId>) -> bool {
    forall|i: int| 0 <= i < ids.len() && #[trigger] mesh_of(meshes, ids[i]) is Some
        ==> drawable(mesh_of(meshes, ids[i]).unwrap())
}

/// The draw for an instance of mesh `id`: none when the mesh does not exist.
pub open spec fn planned_draw(meshes: Seq<GpuMesh>, id: MeshId) -> Option<DrawCall> {
    match mesh_of(meshes, id) {
        Some(m) => Some(draw_call_of(m)),
        None => None,
    }
}

/// Adds a mesh built from an uploaded vertex buffer and an index buffer of
/// `index_len` 32-bit indices; its handle is its position in the list.
pub fn register_mesh(
    meshes: &mut Vec<GpuMesh>,
    vertex_buffer: GpuBuffer,
    index_buffer: GpuBuffer,
    index_len: usize,
) -> (res: MeshId)
    ensures
        res.0 == old(meshes)@.len() as u32,
        final(meshes)@ == old(meshes)@.push(GpuMesh {
            vertex_buffer,
            index_buffer: GpuBuffer { index_type: Some(IndexType::Uint32), ..index_buffer },
            index_count: index_len as u32,
        }),
{
    let mesh_id = MeshId(meshes.len() as u32);
    meshes.push(GpuMesh {
        vertex_buffer,
        index_buffer: index_buffer.with_index_type(IndexType::Uint32),
        index_count: index_len as u32,
    });
    mesh_id
}

/// The mesh a handle names, if the list holds it.
pub fn get_mesh(meshes: &Vec<GpuMesh>, id: MeshId) -> (res: Option<GpuMesh>)
    ensures
        res == mesh_of(meshes@, id),
{
    let idx = id.0 as usize;
    if idx < meshes.len() {
        Some(meshes[idx])
    } else {
        None
    }
}

/// The draw calls for a frame's instances, in order: instances of unknown
/// meshes are skipped, and a mesh whose index buffer has no index type fails
/// the frame.
pub fn plan_draws(meshes: &Vec<GpuMesh>, mesh_ids: &Vec<MeshId>) -> (res: Result<Vec<Option<DrawCall>>, EngineError>)
    ensures
        match res {
            Ok(plan) => {
                &&& all_drawable(meshes@, mesh_ids@)
                &&& plan@.len() == mesh_ids@.len()
                &&& forall|i: int| 0 <= i < plan@.len()
                    ==> #[trigger] plan@[i] == planned_draw(meshes@, mesh_ids@[i])
            },
            Err(e) => {
                &&& !all_drawable(meshes@, mesh_ids@)
                &&& e matches EngineError::Legacy(s)
                &&& s@ == "bind_index_buffer: 渡されたGpuBufferにindex_typeが設定されていません"@
            },
        },
{
    let n = mesh_ids.len();
    let mut plan: Vec<Option<DrawCall>> = Vec::new();
    let mut i: usize = 0;
    while i < n
        invariant
            i <= n,
            n == mesh_ids@.len(),
            plan@.len() == i,
            forall|j: int| 0 <= j < i ==> #[trigger] plan@[j] == planned_draw(meshes@, mesh_ids@[j]),
            forall|j: int| 0 <= j < i && #[trigger] mesh_of(meshes@, mesh_ids@[j]) is Some
                ==> drawable(mesh_of(meshes@, mesh_ids@[j]).unwrap()),
        decreases n - i,
    {
        let id = mesh_ids[i];
        match get_mesh(meshes, id) {
            Some(m) => {
                match bind_index_buffer(&m.index_buffer) {
                    Ok(t) => {
                        plan.push(Some(DrawCall {
                            vertex_buffer: m.vertex_buffer.buffer,
                            index_buffer: m.index_buffer.buffer,
                            index_type: t,
                            index_count: m.index_count,
                        }));
                    },
                    Err(e) => {
                        assert(mesh_of(meshes@, mesh_ids@[i as int]) is Some);
                        return Err(e);
                    },
                }
            },
            None => {
                plan.push(None);
            },
        }
        i = i + 1;
    }
    Ok(plan)
}

/// A registered mesh is found again under the handle its registration
/// returned, and the meshes registered before it keep their handles.
pub proof fn lemma_registered_mesh_found(old_meshes: Seq<GpuMesh>, m: GpuMesh)
    requires
        old_meshes.len() < u32::MAX,
    ensures
        mesh_of(old_meshes.push(m), MeshId(old_meshes.len() as u32)) == Some(m),
        forall|id: MeshId| (id.0 as int) < old_meshes.len()
            ==> #[trigger] mesh_of(old_meshes.push(m), id) == mesh_of(old_meshes, id),
{
}

/// A registered mesh is drawable: its index buffer carries its index type.
pub proof fn lemma_registered_mesh_drawable(vertex_buffer: GpuBuffer, index_buffer: GpuBuffer, index_len: usize)
    ensures
        drawable(GpuMesh {
            vertex_buffer,
            index_buffer: GpuBuffer { index_type: Some(IndexType::Uint32), ..index_buffer },
            index_count: index_len as u32,
        }),
{
}

/// Meshes that all carry an index type (as every registered mesh does) can
/// be drawn for any instances: planning a frame over them never fails.
pub proof fn lemma_drawable_meshes_never_fail(meshes: Seq<GpuMesh>, ids: Seq<MeshId>)
    requires
        forall|k: int| 0 <= k < meshes.len() ==> drawable(#[trigger] meshes[k]),
    ensures
        all_drawable(meshes, ids),
{
    assert forall|i: int| 0 <= i < ids.len() && #[trigger] mesh_of(meshes, ids[i]) is Some
        implies drawable(mesh_of(meshes, ids[i]).unwrap()) by {
        assert(drawable(meshes[ids[i].0 as int]));
    }
}

/// An instance of an existing mesh is drawn with that mesh's own vertex and
/// index buffers, index type and index count; an instance of a mesh the list
/// does not hold is not drawn.
pub proof fn lemma_draw_uses_the_mesh(meshes: Seq<GpuMesh>, id: MeshId)
    ensures
        (id.0 as int) < meshes.len() && meshes[id.0 as int].index_buffer.index_type is Some ==> {
            let d = planned_draw(meshes, id).unwrap();
            &&& planned_draw(meshes, id) is Some
            &&& d.vertex_buffer == meshes[id.0 as int].vertex_buffer.buffer
            &&& d.index_buffer == meshes[id.0 as int].index_buffer.buffer
            &&& Some(d.index_type) == meshes[id.0 as int].index_buffer.index_type
            &&& d.index_count == meshes[id.0 as int].index_count
        },
        (id.0 as int) >= meshes.len() ==> planned_draw(meshes, id) is None,
{
}

/// A mesh without an index type makes every plan that reaches it fail.
pub proof fn lemma_undrawable_mesh_fails(meshes: Seq<GpuMesh>, ids: Seq<MeshId>, i: int)
    requires
        0 <= i < ids.len(),
        (ids[i].0 as int) < meshes.len(),
        meshes[ids[i].0 as int].index_buffer.index_type is None,
    ensures
        !all_drawable(meshes, ids),
{
    assert(mesh_of(meshes, ids[i]) is Some);
}

} // verus!
