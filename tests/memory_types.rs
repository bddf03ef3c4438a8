use tempest_engine::memory::{
    find_memory_type, plan_staged_upload, plan_uniform_buffers, BufferKind, BufferRequest,
    IndexBuffer, MemoryError, MemoryType, VertexBuffer,
};

fn ty(flags: u32) -> MemoryType {
    MemoryType { property_flags: flags, heap_index: 0 }
}

#[test]
fn only_fitting_type_is_found() {
    // device-local, host-visible|coherent, host-visible|cached
    let types = vec![ty(0x1), ty(0x6), ty(0xA)];
    assert_eq!(find_memory_type(0b111, 0x6, &types), Ok(1));
    assert_eq!(find_memory_type(0b100, 0x2, &types), Ok(2));
}

#[test]
fn first_fitting_type_wins() {
    let types = vec![ty(0x7), ty(0x7)];
    assert_eq!(find_memory_type(0b11, 0x1, &types), Ok(0));
    assert_eq!(find_memory_type(0b10, 0x1, &types), Ok(1));
}

#[test]
fn requirement_bits_exclude_types() {
    let types = vec![ty(0x1), ty(0x1)];
    assert_eq!(find_memory_type(0b00, 0x1, &types), Err(MemoryError::NoSuitableMemoryType));
}

#[test]
fn missing_property_fails() {
    let types = vec![ty(0x2), ty(0x1)];
    assert_eq!(find_memory_type(u32::MAX, 0x6, &types), Err(MemoryError::NoSuitableMemoryType));
    assert_eq!(find_memory_type(u32::MAX, 0x1, &vec![]), Err(MemoryError::NoSuitableMemoryType));
}

#[test]
fn type_thirty_one_is_reachable() {
    let mut types = vec![ty(0); 32];
    types[31] = ty(0x1);
    assert_eq!(find_memory_type(1u32 << 31, 0x1, &types), Ok(31));
}

#[test]
fn usage_per_kind() {
    assert_eq!(VertexBuffer::get_usage(), 0x80);
    assert_eq!(IndexBuffer::get_usage(), 0x40);
    assert_eq!(BufferKind::Uniform.usage(), 0x10);
}

#[test]
fn staged_vertex_upload_plan() {
    // four vertices of 24 bytes
    let plan = plan_staged_upload(BufferKind::Vertex, 96);
    assert_eq!(plan.staging, BufferRequest { size: 96, usage: 0x1, memory_properties: 0x6 });
    assert_eq!(plan.destination, BufferRequest { size: 96, usage: 0x82, memory_properties: 0x1 });
}

#[test]
fn staged_index_upload_plan() {
    let plan = plan_staged_upload(BufferKind::Index, 24);
    assert_eq!(plan.destination, BufferRequest { size: 24, usage: 0x42, memory_properties: 0x1 });
}

#[test]
fn uniform_buffers_one_per_frame() {
    let plan = plan_uniform_buffers(192, 2);
    assert_eq!(
        plan,
        vec![BufferRequest { size: 192, usage: 0x10, memory_properties: 0x6 }; 2]
    );
}
