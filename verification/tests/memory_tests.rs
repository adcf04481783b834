use ash::vk::{self, Handle};
use rey_engine::pipeline::{check_pipeline_layout, PUSH_CONSTANT_SIZE};
use rey_engine::buffer::{bind_index_buffer, byte_size, AllocatedBuffer, GpuBuffer, IndexType, VulkanBuffer};
use rey_engine::error::EngineError;
use rey_engine::memory::MemoryProperties;

const DEVICE_LOCAL: u32 = 0x1;
const HOST_VISIBLE: u32 = 0x2;
const HOST_COHERENT: u32 = 0x4;

fn props(flags: &[u32]) -> MemoryProperties {
    let mut property_flags = [0u32; 32];
    property_flags[..flags.len()].copy_from_slice(flags);
    MemoryProperties { memory_type_count: flags.len() as u32, property_flags }
}

fn legacy_message(e: EngineError) -> String {
    match e {
        EngineError::Legacy(s) => s,
        other => panic!("unexpected error {:?}", other),
    }
}

#[test]
fn picks_first_type_allowed_and_with_properties() {
    let p = props(&[DEVICE_LOCAL, HOST_VISIBLE, HOST_VISIBLE | HOST_COHERENT, HOST_VISIBLE | HOST_COHERENT]);
    assert_eq!(p.find_memory_type(0b1111, HOST_VISIBLE | HOST_COHERENT).unwrap(), 2);
    assert_eq!(p.find_memory_type(0b1011, HOST_VISIBLE | HOST_COHERENT).unwrap(), 3);
    assert_eq!(p.find_memory_type(0b1111, DEVICE_LOCAL).unwrap(), 0);
    assert_eq!(p.find_memory_type(0b1111, 0).unwrap(), 0);
    assert_eq!(p.find_memory_type(0b1110, 0).unwrap(), 1);
}

#[test]
fn type_bit_is_respected_even_when_properties_match() {
    let p = props(&[DEVICE_LOCAL, DEVICE_LOCAL]);
    assert_eq!(p.find_memory_type(0b10, DEVICE_LOCAL).unwrap(), 1);
    assert_eq!(p.find_memory_type_index(0b100, DEVICE_LOCAL), None);
}

#[test]
fn no_suitable_type_is_an_error() {
    let p = props(&[DEVICE_LOCAL, HOST_VISIBLE]);
    let e = p.find_memory_type(0b11, HOST_COHERENT).unwrap_err();
    assert_eq!(legacy_message(e), "条件に適合するメモリタイプが見つかりませんでした");
    let empty = props(&[]);
    assert!(empty.find_memory_type(u32::MAX, 0).is_err());
}

#[test]
fn all_thirty_two_types_are_searched() {
    let mut flags = [0u32; 32];
    flags[31] = HOST_VISIBLE;
    let p = props(&flags);
    assert_eq!(p.find_memory_type(1 << 31, HOST_VISIBLE).unwrap(), 31);
}

#[test]
fn index_buffer_binding_needs_an_index_type() {
    let plain = GpuBuffer::new(7, 8);
    let e = bind_index_buffer(&plain).unwrap_err();
    assert_eq!(legacy_message(e), "bind_index_buffer: 渡されたGpuBufferにindex_typeが設定されていません");
    let indexed = plain.with_index_type(IndexType::Uint32);
    assert_eq!(indexed.buffer, 7);
    assert_eq!(indexed.memory, 8);
    assert_eq!(bind_index_buffer(&indexed).unwrap(), IndexType::Uint32);
}

#[test]
fn device_local_sizes() {
    assert_eq!(VulkanBuffer::device_local_size(36, 4).unwrap(), 144);
    let e = VulkanBuffer::device_local_size(36, 0).unwrap_err();
    assert_eq!(legacy_message(e), "データサイズが0のバッファは作成できません");
    assert!(VulkanBuffer::device_local_size(0, 10).is_err());
    assert_eq!(byte_size(6, 4), 24);
    assert_eq!(byte_size(0, 36), 0);
}

#[test]
fn allocated_buffer_capacity() {
    let b = AllocatedBuffer { buffer: 1, memory: 2, size: 80 };
    assert!(b.check_update_size(80).is_ok());
    assert!(b.check_update_size(0).is_ok());
    let e = b.check_update_size(81).unwrap_err();
    assert_eq!(legacy_message(e), "バッファサイズを超過しています");
}

#[test]
fn engine_error_from_string() {
    let e: EngineError = EngineError::from("boom".to_string());
    assert_eq!(legacy_message(e), "boom");
    let e2: EngineError = "again".to_string().into();
    assert_eq!(legacy_message(e2), "again");
}

#[test]
fn pipeline_needs_a_layout() {
    assert_eq!(
        check_pipeline_layout(vk::PipelineLayout::null().as_raw()),
        Err("Pipeline Layout が設定されていません".to_string())
    );
    assert_eq!(check_pipeline_layout(0x1234), Ok(()));
    assert_eq!(PUSH_CONSTANT_SIZE as usize, std::mem::size_of::<[f32; 16]>());
}
