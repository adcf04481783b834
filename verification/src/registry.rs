use vstd::prelude::*;
use std::collections::HashMap;
use crate::mesh::MeshId;
use crate::scene::EntityId;

verus! {

broadcast use vstd::std_specs::hash::group_hash_axioms;

/// Which mesh draws each entity.
#[derive(Debug)]
pub struct RenderRegistry {
    entity_to_mesh: HashMap<u32, MeshId>,
}

impl View for RenderRegistry {
    type V = Map<u32, MeshId>;

    /// Entity id to mesh.
    closed spec fn view(&self) -> Map<u32, MeshId> {
        self.entity_to_mesh@
    }
}

impl RenderRegistry {
    /// A registry in which no entity has a mesh.
    pub fn new() -> (res: RenderRegistry)
        ensures
            res@ == Map::<u32, MeshId>::empty(),
    {
        RenderRegistry { entity_to_mesh: HashMap::new() }
    }

    /// From now on `entity` is drawn with `mesh`.
    pub fn register_entity(&mut self, entity: EntityId, mesh: MeshId)
        ensures
            final(self)@ == old(self)@.insert(entity.0, mesh),
    {
        self.entity_to_mesh.insert(entity.0, mesh);
    }

    /// The mesh `entity` is drawn with, if it has one.
    pub fn get_mesh_for(&self, entity: &EntityId) -> (res: Option<MeshId>)
        ensures
            match res {
                Some(m) => self@.contains_key(entity.0) && self@[entity.0] == m,
                None => !self@.contains_key(entity.0),
            },
    {
        match self.entity_to_mesh.get(&entity.0) {
            Some(m) => Some(*m),
            None => None,
        }
    }
}

/// After registering an entity its mesh is the one registered, and every other
/// entity keeps its mesh.
pub proof fn lemma_register_then_get(reg: Map<u32, MeshId>, entity: EntityId, mesh: MeshId, other: EntityId)
    requires
        other != entity,
    ensures
        reg.insert(entity.0, mesh).contains_key(entity.0),
        reg.insert(entity.0, mesh)[entity.0] == mesh,
        reg.insert(entity.0, mesh).contains_key(other.0) == reg.contains_key(other.0),
        reg.contains_key(other.0) ==> reg.insert(entity.0, mesh)[other.0] == reg[other.0],
{
}

} // verus!
