use vstd::prelude::*;
use crate::error::{legacy_error, EngineError};

verus! {

/// Index element type of an index buffer (`VkIndexType`).
#[derive(Debug, Clone, Copy, PartialEq, Eq, Structural)]
pub enum IndexType {
    Uint16,
    Uint32,
}

/// A buffer and its memory, by raw Vulkan handle, with the index type it
/// holds when it serves as an index buffer.
#[derive(Debug, Clone, Copy, PartialEq, Eq, Structural)]
pub struct GpuBuffer {
    pub buffer: u64,
    pub memory: u64,
    pub index_type: Option<IndexType>,
}

impl GpuBuffer {
    /// A buffer that holds no index data yet.
    pub fn new(buffer: u64, memory: u64) -> (res: GpuBuffer)
        ensures
            res == (GpuBuffer { buffer, memory, index_type: None }),
    {
        GpuBuffer { buffer, memory, index_type: None }
    }

    /// The same buffer, marked as holding indices of `index_type`.
    pub fn with_index_type(self, index_type: IndexType) -> (res: GpuBuffer)
        ensures
            res == (GpuBuffer { index_type: Some(index_type), ..self }),
    {
        GpuBuffer { index_type: Some(index_type), ..self }
    }
}

/// The index type to bind `buffer` with; an error when the buffer was never
/// marked as an index buffer.
pub fn bind_index_buffer(buffer: &GpuBuffer) -> (res: Result<IndexType, EngineError>)
    ensures
        match buffer.index_type {
            Some(t) => res == Ok::<IndexType, EngineError>(t),
            None => res matches Err(EngineError::Legacy(s))
                && s@ == "bind_index_buffer: 渡されたGpuBufferにindex_typeが設定されていません"@,
        },
{
    match buffer.index_type {
        Some(t) => Ok(t),
        None => Err(legacy_error("bind_index_buffer: 渡されたGpuBufferにindex_typeが設定されていません")),
    }
}

/// Byte size of `count` elements of `stride` bytes each.
pub fn byte_size(count: usize, stride: usize) -> (res: u64)
    requires
        count * stride <= usize::MAX,
    ensures
        res == count * stride,
{
    (count * stride) as u64
}

/// A device-local buffer filled through a staging buffer.
#[derive(Debug, Clone, Copy, PartialEq, Eq, Structural)]
pub struct VulkanBuffer {
    pub buffer: u64,
    pub memory: u64,
    pub size: u64,
}

impl VulkanBuffer {
    /// Size in bytes of the staging and device buffers for `len` elements of
    /// `elem_size` bytes; an empty upload is refused.
    pub fn device_local_size(elem_size: usize, len: usize) -> (res: Result<u64, EngineError>)
        requires
            elem_size * len <= usize::MAX,
        ensures
            elem_size * len != 0 ==> res == Ok::<u64, EngineError>((elem_size * len) as u64),
            elem_size * len == 0 ==> (res matches Err(EngineError::Legacy(s))
                && s@ == "データサイズが0のバッファは作成できません"@),
    {
        let size = (elem_size * len) as u64;
        if size == 0 {
            return Err(legacy_error("データサイズが0のバッファは作成できません"));
        }
        Ok(size)
    }
}

/// A host-visible buffer that is rewritten in place.
#[derive(Debug, Clone, Copy, PartialEq, Eq, Structural)]
pub struct AllocatedBuffer {
    pub buffer: u64,
    pub memory: u64,
    pub size: u64,
}

impl AllocatedBuffer {
    /// Whether `data_size` bytes fit into the buffer: an error when they exceed it.
    pub fn check_update_size(&self, data_size: u64) -> (res: Result<(), EngineError>)
        ensures
            data_size <= self.size ==> res == Ok::<(), EngineError>(()),
            data_size > self.size ==> (res matches Err(EngineError::Legacy(s))
                && s@ == "バッファサイズを超過しています"@),
    {
        if data_size > self.size {
            return Err(legacy_error("バッファサイズを超過しています"));
        }
        Ok(())
    }
}

} // verus!
