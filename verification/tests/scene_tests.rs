use rey_engine::buffer::{GpuBuffer, IndexType};
use rey_engine::mesh::{get_mesh, plan_draws, register_mesh, DrawCall, GpuMesh, MeshId};
use rey_engine::registry::RenderRegistry;
use rey_engine::scene::{
    get_renderable_entities, identity, translation, DynamicTransforms, Entity, EntityId, MatrixBits, Scene,
};
use slotmap::{DefaultKey, SlotMap};
use rey_engine::snapshot::build_render_snapshot;
use rey_engine::error::EngineError;

fn bits(m: [f32; 16]) -> MatrixBits {
    m.map(f32::to_bits)
}

fn translation_f32(x: f32, y: f32, z: f32) -> [f32; 16] {
    [1.0, 0.0, 0.0, 0.0, 0.0, 1.0, 0.0, 0.0, 0.0, 0.0, 1.0, 0.0, x, y, z, 1.0]
}

/// A map holding `values`, inserted under fresh keys in order.
fn transforms(values: &[MatrixBits]) -> DynamicTransforms {
    let mut keys: SlotMap<DefaultKey, ()> = SlotMap::new();
    let mut map = DynamicTransforms::new();
    for v in values {
        map.insert(keys.insert(()), *v);
    }
    map
}

#[test]
fn dynamic_transforms_insert_and_replace() {
    let mut keys: SlotMap<DefaultKey, ()> = SlotMap::new();
    let (a, b) = (keys.insert(()), keys.insert(()));
    let mut map = DynamicTransforms::new();
    assert!(map.values().is_empty());
    map.insert(a, identity());
    map.insert(b, translation(1, 2, 3));
    assert_eq!(map.values(), vec![identity(), translation(1, 2, 3)]);
    map.insert(a, translation(4, 5, 6));
    assert_eq!(map.values(), vec![translation(4, 5, 6), translation(1, 2, 3)]);
    map.insert(DefaultKey::default(), identity());
    assert_eq!(map.values().len(), 2);
}

#[test]
fn test_scene_has_five_static_entities() {
    let scene = Scene::create_test_scene();
    let ids: Vec<u32> = scene.entities.iter().map(|e| e.id.0).collect();
    assert_eq!(ids, vec![1000, 1001, 1002, 1003, 1004]);
    let expected = [
        (0.0, 0.0, 0.0),
        (5.0, 0.0, 0.0),
        (-5.0, 0.0, 0.0),
        (0.0, 0.0, -5.0),
        (0.0, 0.0, 5.0),
    ];
    for (e, (x, y, z)) in scene.entities.iter().zip(expected) {
        assert_eq!(e.transform, bits(translation_f32(x, y, z)));
    }
}

#[test]
fn translation_and_identity_bits() {
    assert_eq!(identity(), bits(translation_f32(0.0, 0.0, 0.0)));
    assert_eq!(translation(2.5f32.to_bits(), 0, 1.0f32.to_bits()), bits(translation_f32(2.5, 0.0, 1.0)));
}

#[test]
fn renderable_entities_are_scene_then_dynamic() {
    let scene = Scene::create_test_scene();
    let dynamic = vec![bits(translation_f32(0.0, 5.0, -5.0)), bits(translation_f32(1.0, 2.0, 3.0))];
    let all = get_renderable_entities(&scene, &transforms(&dynamic));
    assert_eq!(all.len(), 7);
    assert_eq!(all[4].id, EntityId(1004));
    assert_eq!(all[5].id, EntityId(1));
    assert_eq!(all[5].transform, dynamic[0]);
    assert_eq!(all[6].id, EntityId(1));
    assert_eq!(all[6].transform, dynamic[1]);
    assert_eq!(get_renderable_entities(&scene, &DynamicTransforms::new()).len(), 5);
}

#[test]
fn registry_remembers_latest_mesh() {
    let mut reg = RenderRegistry::new();
    assert_eq!(reg.get_mesh_for(&EntityId(3)), None);
    reg.register_entity(EntityId(3), MeshId(1));
    reg.register_entity(EntityId(4), MeshId(2));
    reg.register_entity(EntityId(3), MeshId(5));
    assert_eq!(reg.get_mesh_for(&EntityId(3)), Some(MeshId(5)));
    assert_eq!(reg.get_mesh_for(&EntityId(4)), Some(MeshId(2)));
    assert_eq!(reg.get_mesh_for(&EntityId(0)), None);
}

#[test]
fn snapshot_skips_unregistered_and_adds_floor() {
    let scene = Scene::create_test_scene();
    let mut entities = get_renderable_entities(&scene, &transforms(&[bits(translation_f32(0.0, 1.0, 0.0))]));
    entities.push(Entity { id: EntityId(77), transform: identity() });
    let mut reg = RenderRegistry::new();
    reg.register_entity(EntityId(0), MeshId(0));
    reg.register_entity(EntityId(1001), MeshId(1));
    reg.register_entity(EntityId(1), MeshId(1));
    let view = bits(translation_f32(0.0, -3.0, -5.0));
    let snap = build_render_snapshot(view, &entities, &reg);
    assert_eq!(snap.view_matrix, view);
    assert_eq!(snap.instances.len(), 3);
    assert_eq!(snap.instances[0].mesh_id, MeshId(1));
    assert_eq!(snap.instances[0].transform, bits(translation_f32(5.0, 0.0, 0.0)));
    assert_eq!(snap.instances[1].mesh_id, MeshId(1));
    assert_eq!(snap.instances[1].transform, bits(translation_f32(0.0, 1.0, 0.0)));
    assert_eq!(snap.instances[2].mesh_id, MeshId(0));
    assert_eq!(snap.instances[2].transform, identity());
}

#[test]
fn snapshot_without_floor_or_registrations_is_empty() {
    let scene = Scene::create_test_scene();
    let reg = RenderRegistry::new();
    let snap = build_render_snapshot(identity(), &scene.entities, &reg);
    assert!(snap.instances.is_empty());
}

fn buf(b: u64) -> GpuBuffer {
    GpuBuffer::new(b, b + 100)
}

#[test]
fn meshes_get_sequential_ids() {
    let mut meshes: Vec<GpuMesh> = Vec::new();
    let floor = register_mesh(&mut meshes, buf(1), buf(2), 6);
    let cube = register_mesh(&mut meshes, buf(3), buf(4), 36);
    assert_eq!(floor, MeshId(0));
    assert_eq!(cube, MeshId(1));
    let m = get_mesh(&meshes, cube).unwrap();
    assert_eq!(m.vertex_buffer, buf(3));
    assert_eq!(m.index_buffer.index_type, Some(IndexType::Uint32));
    assert_eq!(m.index_buffer.buffer, 4);
    assert_eq!(m.index_count, 36);
    assert!(get_mesh(&meshes, MeshId(2)).is_none());
}

#[test]
fn draw_plan_follows_instances() {
    let mut meshes: Vec<GpuMesh> = Vec::new();
    register_mesh(&mut meshes, buf(1), buf(2), 6);
    register_mesh(&mut meshes, buf(3), buf(4), 36);
    let plan = plan_draws(&meshes, &vec![MeshId(1), MeshId(9), MeshId(0)]).unwrap();
    assert_eq!(
        plan,
        vec![
            Some(DrawCall { vertex_buffer: 3, index_buffer: 4, index_type: IndexType::Uint32, index_count: 36 }),
            None,
            Some(DrawCall { vertex_buffer: 1, index_buffer: 2, index_type: IndexType::Uint32, index_count: 6 }),
        ]
    );
    assert!(plan_draws(&meshes, &vec![]).unwrap().is_empty());
}

#[test]
fn draw_plan_fails_on_mesh_without_index_type() {
    let meshes = vec![GpuMesh { vertex_buffer: buf(1), index_buffer: buf(2), index_count: 3 }];
    match plan_draws(&meshes, &vec![MeshId(5), MeshId(0)]) {
        Err(EngineError::Legacy(s)) => assert!(s.contains("index_type")),
        other => panic!("unexpected {:?}", other),
    }
    assert_eq!(plan_draws(&meshes, &vec![MeshId(5)]).unwrap(), vec![None]);
}
