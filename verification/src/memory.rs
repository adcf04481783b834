use vstd::prelude::*;
use crate::error::{legacy_error, EngineError};

verus! {

/// Largest number of memory types a physical device reports (`VK_MAX_MEMORY_TYPES`).
pub const MAX_MEMORY_TYPES: u32 = 32;

/// The memory-type table of a physical device: the property flags
/// (`VkMemoryPropertyFlags` bits) of each of its first `memory_type_count` types.
#[derive(Debug, Clone, Copy)]
pub struct MemoryProperties {
    pub memory_type_count: u32,
    pub property_flags: [u32; 32],
}

/// `actual` holds every flag bit of `required`.
pub open spec fn flags_contain(actual: u32, required: u32) -> bool {
    actual & required == required
}

/// Bit `i` of the resource's `memoryTypeBits` is set.
pub open spec fn type_bit_set(type_filter: u32, i: u32) -> bool {
    type_filter & (1u32 << i) != 0
}

impl MemoryProperties {
    /// The table is well formed: it reports no more types than Vulkan allows.
    pub open spec fn well_formed(&self) -> bool {
        self.memory_type_count <= MAX_MEMORY_TYPES
    }

    /// Memory type `i` is allowed by `type_filter` and has all `required` properties.
    pub open spec fn suitable(&self, type_filter: u32, required: u32, i: u32) -> bool {
        &&& i < self.memory_type_count
        &&& type_bit_set(type_filter, i)
        &&& flags_contain(self.property_flags@[i as int], required)
    }

    /// Index of the first memory type that `type_filter` allows and whose
    /// properties contain `required`; `None` when there is none.
    pub fn find_memory_type_index(&self, type_filter: u32, required: u32) -> (res: Option<u32>)
        requires
            self.well_formed(),
        ensures
            match res {
                Some(i) => {
                    &&& self.suitable(type_filter, required, i)
                    &&& forall|j: u32| j < i ==> !self.suitable(type_filter, required, j)
                },
                None => forall|j: u32| !self.suitable(type_filter, required, j),
            },
    {
        let count = self.memory_type_count;
        let mut i: u32 = 0;
        while i < count
            invariant
                i <= count,
                count == self.memory_type_count,
                count <= MAX_MEMORY_TYPES,
                forall|j: u32| j < i ==> !self.suitable(type_filter, required, j),
            decreases count - i,
        {
            let is_type_suitable = (type_filter & (1u32 << i)) != 0;
            let actual = self.property_flags[i as usize];
            let has_required_properties = (actual & required) == required;
            if is_type_suitable && has_required_properties {
                return Some(i);
            }
            i = i + 1;
        }
        None
    }

    /// Chooses the memory type for an allocation: the first type allowed by
    /// `type_filter` whose properties contain `properties`.
    pub fn find_memory_type(&self, type_filter: u32, properties: u32) -> (res: Result<u32, EngineError>)
        requires
            self.well_formed(),
        ensures
            match res {
                Ok(i) => {
                    &&& self.suitable(type_filter, properties, i)
                    &&& forall|j: u32| j < i ==> !self.suitable(type_filter, properties, j)
                },
                Err(e) => {
                    &&& forall|j: u32| !self.suitable(type_filter, properties, j)
                    &&& e matches EngineError::Legacy(s)
                    &&& s@ == "条件に適合するメモリタイプが見つかりませんでした"@
                },
            },
    {
        match self.find_memory_type_index(type_filter, properties) {
            Some(i) => Ok(i),
            None => Err(legacy_error("条件に適合するメモリタイプが見つかりませんでした")),
        }
    }
}

/// Property flags satisfy a request exactly when they are a superset of it:
/// adding the requested bits changes nothing.
pub proof fn lemma_flags_contain_iff_superset(actual: u32, required: u32)
    ensures
        flags_contain(actual, required) <==> (actual | required) == actual,
{
    assert((actual & required == required) <==> ((actual | required) == actual)) by (bit_vector);
}

/// Extra property bits never disqualify a memory type.
pub proof fn lemma_extra_flags_allowed(required: u32, extra: u32)
    ensures
        flags_contain(required | extra, required),
{
    assert((required | extra) & required == required) by (bit_vector);
}

/// Flags lacking a requested bit never satisfy the request.
pub proof fn lemma_missing_flag_rejected(actual: u32, required: u32, b: u32)
    requires
        b < 32,
        (required >> b) % 2 == 1,
        (actual >> b) % 2 == 0,
    ensures
        !flags_contain(actual, required),
{
    assert(((required >> b) % 2 == 1 && (actual >> b) % 2 == 0) ==> (actual & required != required))
        by (bit_vector);
}

/// Bit `i` of the filter is set exactly when `(filter >> i)` is odd.
pub proof fn lemma_type_bit_set_iff(filter: u32, i: u32)
    requires
        i < 32,
    ensures
        type_bit_set(filter, i) <==> (filter >> i) % 2 == 1,
{
    assert(i < 32 ==> ((filter & (1u32 << i) != 0) <==> ((filter >> i) % 2 == 1))) by (bit_vector);
}

/// A memory type allowed by the filter whose flags are a superset of the
/// request is suitable; the first such type is the one chosen.
pub proof fn lemma_superset_type_suitable(p: MemoryProperties, filter: u32, required: u32, i: u32)
    requires
        i < p.memory_type_count,
        i < 32,
        (filter >> i) % 2 == 1,
        (p.property_flags@[i as int] | required) == p.property_flags@[i as int],
    ensures
        p.suitable(filter, required, i),
{
    lemma_type_bit_set_iff(filter, i);
    lemma_flags_contain_iff_superset(p.property_flags@[i as int], required);
}

} // verus!
