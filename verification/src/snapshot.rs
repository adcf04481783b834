use vstd::prelude::*;
use crate::mesh::MeshId;
use crate::registry::RenderRegistry;
use crate::scene::{identity, identity_spec, Entity, EntityId, MatrixBits, F32_ONE};

verus! {

/// One mesh to draw, and where.
#[derive(Debug, Clone, Copy)]
pub struct RenderInstance {
    pub mesh_id: MeshId,
    pub transform: MatrixBits,
}

/// Everything the renderer needs to draw a frame.
#[derive(Debug)]
pub struct RenderSnapshot {
    pub view_matrix: MatrixBits,
    pub instances: Vec<RenderInstance>,
}

/// The id under which the floor is registered.
pub const FLOOR_ENTITY_ID: u32 = 0;

/// What an instance says: the mesh, and the transform's entries.
pub open spec fn instance_view(r: RenderInstance) -> (MeshId, Seq<u32>) {
    (r.mesh_id, r.transform@)
}

pub open spec fn instances_view(s: Seq<RenderInstance>) -> Seq<(MeshId, Seq<u32>)> {
    s.map_values(|r: RenderInstance| instance_view(r))
}

/// The instance drawn for `e`, if its entity has a registered mesh.
pub open spec fn instance_of(e: Entity, reg: Map<u32, MeshId>) -> Seq<(MeshId, Seq<u32>)> {
    if reg.contains_key(e.id.0) {
        seq![(reg[e.id.0], e.transform@)]
    } else {
        seq![]
    }
}

/// The instances drawn for `entities`, in order, skipping unregistered ones.
pub open spec fn instances_for(entities: Seq<Entity>, reg: Map<u32, MeshId>) -> Seq<(MeshId, Seq<u32>)>
    decreases entities.len(),
{
    if entities.len() == 0 {
        seq![]
    } else {
        instances_for(entities.drop_last(), reg) + instance_of(entities.last(), reg)
    }
}

/// The floor, at the origin, when a floor mesh is registered.
pub open spec fn floor_instance(reg: Map<u32, MeshId>) -> Seq<(MeshId, Seq<u32>)> {
    if reg.contains_key(FLOOR_ENTITY_ID) {
        seq![(reg[FLOOR_ENTITY_ID], identity_spec())]
    } else {
        seq![]
    }
}

/// The frame's snapshot: the camera's view matrix, one instance for every
/// entity whose id has a registered mesh (in the entities' order), then the
/// floor at the origin when a floor mesh is registered.
pub fn build_render_snapshot(view_matrix: MatrixBits, entities: &Vec<Entity>, registry: &RenderRegistry) -> (res: RenderSnapshot)
    ensures
        res.view_matrix == view_matrix,
        instances_view(res.instances@) == instances_for(entities@, registry@) + floor_instance(registry@),
{
    let mut instances: Vec<RenderInstance> = Vec::new();
    let n = entities.len();
    let mut i: usize = 0;
    while i < n
        invariant
            i <= n,
            n == entities@.len(),
            instances_view(instances@) == instances_for(entities@.take(i as int), registry@),
        decreases n - i,
    {
        let entity = entities[i];
        let ghost before = instances_view(instances@);
        assert(entities@.take(i as int + 1).drop_last() =~= entities@.take(i as int));
        assert(entities@.take(i as int + 1).last() == entity);
        match registry.get_mesh_for(&entity.id) {
            Some(mesh_id) => {
                instances.push(RenderInstance { mesh_id, transform: entity.transform });
                assert(instances_view(instances@) =~= before + instance_of(entity, registry@));
            },
            None => {
                assert(instances_view(instances@) =~= before + instance_of(entity, registry@));
            },
        }
        i = i + 1;
    }
    assert(entities@.take(n as int) =~= entities@);
    let ghost body = instances_view(instances@);
    match registry.get_mesh_for(&EntityId(FLOOR_ENTITY_ID)) {
        Some(floor_mesh_id) => {
            let floor = identity();
            instances.push(RenderInstance { mesh_id: floor_mesh_id, transform: floor });
            assert(instances_view(instances@) =~= body + floor_instance(registry@));
        },
        None => {
            assert(body + floor_instance(registry@) =~= body);
        },
    }
    RenderSnapshot { view_matrix, instances }
}

/// Every drawn instance comes from an entity with a registered mesh, and is
/// drawn with that mesh where the entity stands; no more instances are drawn
/// than there are entities.
pub proof fn lemma_instances_registered(entities: Seq<Entity>, reg: Map<u32, MeshId>)
    ensures
        instances_for(entities, reg).len() <= entities.len(),
        forall|k: int| #![trigger instances_for(entities, reg)[k]] 0 <= k < instances_for(entities, reg).len() ==> exists|i: int| {
            &&& 0 <= i < entities.len()
            &&& reg.contains_key(#[trigger] entities[i].id.0)
            &&& instances_for(entities, reg)[k] == (reg[entities[i].id.0], entities[i].transform@)
        },
    decreases entities.len(),
{
    if entities.len() > 0 {
        let prefix = entities.drop_last();
        lemma_instances_registered(prefix, reg);
        let s = instances_for(entities, reg);
        assert forall|k: int| #![trigger s[k]] 0 <= k < s.len() implies exists|i: int| {
            &&& 0 <= i < entities.len()
            &&& reg.contains_key(#[trigger] entities[i].id.0)
            &&& s[k] == (reg[entities[i].id.0], entities[i].transform@)
        } by {
            if k < instances_for(prefix, reg).len() {
                let i = choose|i: int| {
                    &&& 0 <= i < prefix.len()
                    &&& reg.contains_key(#[trigger] prefix[i].id.0)
                    &&& instances_for(prefix, reg)[k] == (reg[prefix[i].id.0], prefix[i].transform@)
                };
                assert(entities[i] == prefix[i]);
            } else {
                let i = entities.len() - 1;
                assert(entities[i] == entities.last());
                assert(reg.contains_key(entities[i].id.0));
            }
        }
    }
}

/// An entity whose id has a registered mesh is drawn.
pub proof fn lemma_registered_entity_drawn(entities: Seq<Entity>, reg: Map<u32, MeshId>, i: int)
    requires
        0 <= i < entities.len(),
        reg.contains_key(entities[i].id.0),
    ensures
        exists|k: int| 0 <= k < instances_for(entities, reg).len()
            && #[trigger] instances_for(entities, reg)[k] == (reg[entities[i].id.0], entities[i].transform@),
    decreases entities.len(),
{
    let prefix = entities.drop_last();
    if i < entities.len() - 1 {
        lemma_registered_entity_drawn(prefix, reg, i);
        assert(prefix[i] == entities[i]);
        let k = choose|k: int| 0 <= k < instances_for(prefix, reg).len()
            && #[trigger] instances_for(prefix, reg)[k] == (reg[prefix[i].id.0], prefix[i].transform@);
        assert(instances_for(entities, reg)[k] == instances_for(prefix, reg)[k]);
    } else {
        let k = instances_for(prefix, reg).len() as int;
        assert(entities.last() == entities[i]);
        assert(instances_for(entities, reg)[k] == instance_of(entities[i], reg)[0]);
    }
}

/// When the floor (entity 0) has a registered mesh, the snapshot ends with one
/// more instance: that very mesh, at the identity transform.
pub proof fn lemma_floor_drawn_with_its_mesh(entities: Seq<Entity>, reg: Map<u32, MeshId>)
    requires
        reg.contains_key(FLOOR_ENTITY_ID),
    ensures
        ({
            let s = instances_for(entities, reg) + floor_instance(reg);
            &&& s.len() == instances_for(entities, reg).len() + 1
            &&& s.last().0 == reg[0]
            &&& s.last().1 == identity_spec()
        }),
{
}

/// Without a floor mesh the snapshot holds just the entities' instances.
pub proof fn lemma_no_floor_without_registration(entities: Seq<Entity>, reg: Map<u32, MeshId>)
    requires
        !reg.contains_key(FLOOR_ENTITY_ID),
    ensures
        instances_for(entities, reg) + floor_instance(reg) == instances_for(entities, reg),
{
    assert(instances_for(entities, reg) + floor_instance(reg) =~= instances_for(entities, reg));
}

/// The identity transform: ones on the diagonal, zeros elsewhere.
pub proof fn lemma_identity_entries()
    ensures
        identity_spec().len() == 16,
        forall|i: int| 0 <= i < 16 ==> #[trigger] identity_spec()[i] == if i % 5 == 0 { F32_ONE } else { 0 },
{
    assert forall|i: int| 0 <= i < 16 implies #[trigger] identity_spec()[i] == if i % 5 == 0 { F32_ONE } else { 0 } by {
        assert(identity_spec() =~= seq![
            F32_ONE, 0, 0, 0,
            0, F32_ONE, 0, 0,
            0, 0, F32_ONE, 0,
            0, 0, 0, F32_ONE,
        ]);
    }
}

/// Instances keep the entities' order: the instances of two runs of
/// entities are those of the first run followed by those of the second.
pub proof fn lemma_instances_keep_order(a: Seq<Entity>, b: Seq<Entity>, reg: Map<u32, MeshId>)
    ensures
        instances_for(a + b, reg) == instances_for(a, reg) + instances_for(b, reg),
    decreases b.len(),
{
    if b.len() == 0 {
        assert(a + b =~= a);
        assert(instances_for(a, reg) + instances_for(b, reg) =~= instances_for(a, reg));
    } else {
        lemma_instances_keep_order(a, b.drop_last(), reg);
        assert((a + b).drop_last() =~= a + b.drop_last());
        assert((a + b).last() == b.last());
        assert(instances_for(a + b, reg) =~= instances_for(a, reg) + instances_for(b, reg));
    }
}

/// A single registered entity yields exactly its instance; an unregistered one yields none.
pub proof fn lemma_single_entity_instance(e: Entity, reg: Map<u32, MeshId>)
    ensures
        reg.contains_key(e.id.0) ==> instances_for(seq![e], reg) == seq![(reg[e.id.0], e.transform@)],
        !reg.contains_key(e.id.0) ==> instances_for(seq![e], reg).len() == 0,
{
    assert(seq![e].drop_last() =~= Seq::<Entity>::empty());
    assert(seq![e].last() == e);
    assert(instances_for(Seq::<Entity>::empty(), reg) == Seq::<(MeshId, Seq<u32>)>::empty());
    assert(instances_for(seq![e], reg) == instances_for(seq![e].drop_last(), reg) + instance_of(seq![e].last(), reg));
    assert(instances_for(seq![e], reg) =~= instance_of(e, reg));
}

} // verus!
