use vstd::prelude::*;
use slotmap::{DefaultKey, SecondaryMap};

verus! {

/// A 4x4 transform stored column-major, each entry as the bit pattern of its
/// `f32` value (`f32::to_bits`).  The library only moves matrices around; the
/// arithmetic on them happens where floating point is available.
pub type MatrixBits = [u32; 16];

/// Bit pattern of `1.0f32`.
pub const F32_ONE: u32 = 0x3f80_0000;
/// Bit pattern of `5.0f32`.
pub const F32_FIVE: u32 = 0x40a0_0000;
/// Bit pattern of `-5.0f32`.
pub const F32_MINUS_FIVE: u32 = 0xc0a0_0000;

/// Identifier of an entity of the world.
#[derive(Debug, Clone, Copy, PartialEq, Eq, Hash, Structural)]
pub struct EntityId(pub u32);

/// An object of the world and where it stands.
#[derive(Debug, Clone, Copy)]
pub struct Entity {
    pub id: EntityId,
    pub transform: MatrixBits,
}

/// Every entity of a world.
#[derive(Debug)]
pub struct Scene {
    pub entities: Vec<Entity>,
}

/// First id of the static test entities, kept clear of the ids of dynamic objects.
pub const TEST_SCENE_FIRST_ID: u32 = 1000;

/// The id that every dynamic object is rendered under for now.
pub const DYNAMIC_ENTITY_ID: u32 = 1;

/// The translation matrix by `(x, y, z)`: the identity with the translation in
/// the last column.
pub open spec fn translation_spec(x: u32, y: u32, z: u32) -> Seq<u32> {
    seq![
        F32_ONE, 0, 0, 0,
        0, F32_ONE, 0, 0,
        0, 0, F32_ONE, 0,
        x, y, z, F32_ONE,
    ]
}

pub open spec fn identity_spec() -> Seq<u32> {
    translation_spec(0, 0, 0)
}

/// The positions of the test scene: the origin, then right, left, back and front.
pub open spec fn test_scene_positions() -> Seq<(u32, u32, u32)> {
    seq![(0, 0, 0), (F32_FIVE, 0, 0), (F32_MINUS_FIVE, 0, 0), (0, 0, F32_MINUS_FIVE), (0, 0, F32_FIVE)]
}

/// The translation matrix by `(x, y, z)` (bit patterns of the coordinates).
pub fn translation(x: u32, y: u32, z: u32) -> (res: MatrixBits)
    ensures
        res@ == translation_spec(x, y, z),
{
    let m: MatrixBits = [
        F32_ONE, 0, 0, 0,
        0, F32_ONE, 0, 0,
        0, 0, F32_ONE, 0,
        x, y, z, F32_ONE,
    ];
    assert(m@ =~= translation_spec(x, y, z));
    m
}

/// The identity matrix.
pub fn identity() -> (res: MatrixBits)
    ensures
        res@ == identity_spec(),
{
    translation(0, 0, 0)
}

impl Scene {
    /// Five static entities, with ids from 1000 on, at the origin and five
    /// units right, left, back and front of it.
    pub fn create_test_scene() -> (res: Scene)
        ensures
            res.entities@.len() == 5,
            forall|i: int| 0 <= i < 5 ==> {
                &&& (#[trigger] res.entities@[i]).id.0 == TEST_SCENE_FIRST_ID + i
                &&& res.entities@[i].transform@ == translation_spec(
                    test_scene_positions()[i].0,
                    test_scene_positions()[i].1,
                    test_scene_positions()[i].2,
                )
            },
    {
        let positions: [(u32, u32, u32); 5] = [
            (0, 0, 0),
            (F32_FIVE, 0, 0),
            (F32_MINUS_FIVE, 0, 0),
            (0, 0, F32_MINUS_FIVE),
            (0, 0, F32_FIVE),
        ];
        assert(positions@ =~= test_scene_positions());
        let mut entities: Vec<Entity> = Vec::new();
        let mut i: usize = 0;
        while i < 5
            invariant
                i <= 5,
                positions@ == test_scene_positions(),
                entities@.len() == i,
                forall|j: int| 0 <= j < i ==> {
                    &&& (#[trigger] entities@[j]).id.0 == TEST_SCENE_FIRST_ID + j
                    &&& entities@[j].transform@ == translation_spec(
                        test_scene_positions()[j].0,
                        test_scene_positions()[j].1,
                        test_scene_positions()[j].2,
                    )
                },
            decreases 5 - i,
        {
            let (x, y, z) = positions[i];
            entities.push(Entity { id: EntityId(TEST_SCENE_FIRST_ID + i as u32), transform: translation(x, y, z) });
            i = i + 1;
        }
        Scene { entities }
    }
}

/// `slotmap::DefaultKey`, the key of a dynamic object.
#[verifier::external_type_specification]
#[verifier::external_body]
pub struct ExDefaultKey(DefaultKey);

/// The latest transform of every dynamic object, by its key: a
/// `slotmap::SecondaryMap`, held opaquely.
#[verifier::external_body]
pub struct DynamicTransforms {
    map: SecondaryMap<DefaultKey, MatrixBits>,
}

/// The transforms the map holds, in the order `SecondaryMap::values` yields them.
pub uninterp spec fn dynamic_transform_values(m: DynamicTransforms) -> Seq<MatrixBits>;

impl DynamicTransforms {
    /// An empty map (`SecondaryMap::new`).
    #[verifier::external_body]
    pub fn new() -> (res: DynamicTransforms)
        ensures
            dynamic_transform_values(res) == Seq::<MatrixBits>::empty(),
    {
        DynamicTransforms { map: SecondaryMap::new() }
    }

    /// Stores `transform` under `key` (`SecondaryMap::insert`).  The map then
    /// holds as many transforms as before (the key's transform was replaced,
    /// or the key was null or outdated and nothing was stored) or one more
    /// (the key was new, and the map now holds `transform`).  Keys are not
    /// modelled, so which of these happened, where the new value stands among
    /// the others and which value it replaced are not stated.
    #[verifier::external_body]
    pub fn insert(&mut self, key: DefaultKey, transform: MatrixBits)
        ensures
            dynamic_transform_values(*final(self)).len() == dynamic_transform_values(*old(self)).len()
                || dynamic_transform_values(*final(self)).len() == dynamic_transform_values(*old(self)).len() + 1,
            dynamic_transform_values(*final(self)).len() == dynamic_transform_values(*old(self)).len() + 1
                ==> dynamic_transform_values(*final(self)).contains(transform),
    {
        self.map.insert(key, transform);
    }

    /// The transforms, in the map's iteration order (`SecondaryMap::values`).
    #[verifier::external_body]
    pub fn values(&self) -> (res: Vec<MatrixBits>)
        ensures
            res@ == dynamic_transform_values(*self),
    {
        self.map.values().copied().collect()
    }
}

/// The entities to render: the scene's entities, in order, followed by one
/// entity per dynamic transform (in the map's iteration order), all under the
/// dynamic id.
pub fn get_renderable_entities(scene: &Scene, transforms: &DynamicTransforms) -> (res: Vec<Entity>)
    ensures
        res@.len() == scene.entities@.len() + dynamic_transform_values(*transforms).len(),
        forall|i: int| 0 <= i < scene.entities@.len() ==> #[trigger] res@[i] == scene.entities@[i],
        forall|k: int| 0 <= k < dynamic_transform_values(*transforms).len() ==> {
            &&& (#[trigger] res@[scene.entities@.len() + k]).id == EntityId(DYNAMIC_ENTITY_ID)
            &&& res@[scene.entities@.len() + k].transform == dynamic_transform_values(*transforms)[k]
        },
{
    let dynamic_transforms = transforms.values();
    let mut entities: Vec<Entity> = Vec::new();
    let n = scene.entities.len();
    let mut i: usize = 0;
    while i < n
        invariant
            i <= n,
            n == scene.entities@.len(),
            entities@ == scene.entities@.take(i as int),
        decreases n - i,
    {
        entities.push(scene.entities[i]);
        i = i + 1;
        assert(entities@ =~= scene.entities@.take(i as int));
    }
    let m = dynamic_transforms.len();
    let mut k: usize = 0;
    while k < m
        invariant
            k <= m,
            m == dynamic_transforms@.len(),
            n == scene.entities@.len(),
            entities@.len() == n + k,
            forall|i: int| 0 <= i < n ==> #[trigger] entities@[i] == scene.entities@[i],
            forall|j: int| 0 <= j < k ==> {
                &&& (#[trigger] entities@[n + j]).id == EntityId(DYNAMIC_ENTITY_ID)
                &&& entities@[n + j].transform == dynamic_transforms@[j]
            },
        decreases m - k,
    {
        entities.push(Entity { id: EntityId(DYNAMIC_ENTITY_ID), transform: dynamic_transforms[k] });
        k = k + 1;
    }
    entities
}

/// The test scene's entities have distinct ids.
pub proof fn lemma_test_scene_ids_distinct(entities: Seq<Entity>)
    requires
        entities.len() == 5,
        forall|i: int| 0 <= i < 5 ==> (#[trigger] entities[i]).id.0 == TEST_SCENE_FIRST_ID + i,
    ensures
        forall|i: int, j: int| 0 <= i < j < 5 ==> #[trigger] entities[i].id != #[trigger] entities[j].id,
{
}

/// A translation matrix is the identity with the offsets `x, y, z` in the
/// first three entries of the last column.
pub proof fn lemma_translation_entries(x: u32, y: u32, z: u32)
    ensures
        translation_spec(x, y, z).len() == 16,
        translation_spec(x, y, z)[12] == x,
        translation_spec(x, y, z)[13] == y,
        translation_spec(x, y, z)[14] == z,
        forall|i: int| 0 <= i < 12 || i == 15 ==> #[trigger] translation_spec(x, y, z)[i]
            == if i % 5 == 0 { F32_ONE } else { 0 },
{
    assert forall|i: int| 0 <= i < 12 || i == 15 implies #[trigger] translation_spec(x, y, z)[i]
        == if i % 5 == 0 { F32_ONE } else { 0 } by {
        assert(translation_spec(x, y, z) =~= seq![
            F32_ONE, 0, 0, 0,
            0, F32_ONE, 0, 0,
            0, 0, F32_ONE, 0,
            x, y, z, F32_ONE,
        ]);
    }
}

/// The test scene stands at the origin and five units along +x, -x, -z and +z.
pub proof fn lemma_test_scene_positions()
    ensures
        test_scene_positions().len() == 5,
        test_scene_positions()[0] == (0u32, 0u32, 0u32),
        test_scene_positions()[1] == (F32_FIVE, 0u32, 0u32),
        test_scene_positions()[2] == (F32_MINUS_FIVE, 0u32, 0u32),
        test_scene_positions()[3] == (0u32, 0u32, F32_MINUS_FIVE),
        test_scene_positions()[4] == (0u32, 0u32, F32_FIVE),
{
}

} // verus!
