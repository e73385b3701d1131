use saxaboom::descriptor::BufferView;
use saxaboom::descriptor::IRDescriptorTableEntry;
use saxaboom::draw::draw_indexed_primitives_encoding;
use saxaboom::draw::draw_indexed_primitives_indirect_encoding;
use saxaboom::draw::draw_primitives_encoding;
use saxaboom::draw::kIRArgumentBufferDrawArgumentsBindPoint;
use saxaboom::draw::kIRArgumentBufferUniformsBindPoint;
use saxaboom::draw::kIRNonIndexedDraw;
use saxaboom::draw::metal_index_to_ir_index;
use saxaboom::draw::IRRuntimeDrawArgument;
use saxaboom::draw::IRRuntimeDrawIndexedArgument;
use saxaboom::draw::IRRuntimeDrawParams;

fn view(
    buffer_gpu_address: u64,
    buffer_offset: u64,
    buffer_size: u64,
    texture_buffer_view: Option<u64>,
    texture_view_offset_in_elements: u32,
    typed_buffer: bool,
) -> BufferView {
    BufferView {
        buffer_gpu_address,
        buffer_offset,
        buffer_size,
        texture_buffer_view,
        texture_view_offset_in_elements,
        typed_buffer,
    }
}

#[test]
fn buffer_descriptor_fully_specified() {
    let e = IRDescriptorTableEntry::buffer(0x1122_3344_5566_7788, 0x99AA);
    assert_eq!(e.gpuVA, 0x1122_3344_5566_7788);
    assert_eq!(e.textureViewID, 0);
    assert_eq!(e.metadata, 0x99AA);
}

#[test]
fn buffer_view_descriptor_fully_specified() {
    let v = view(0x1000, 0x20, 0x40, Some(0xABCD), 3, true);
    let e = IRDescriptorTableEntry::buffer_view(&v);
    assert_eq!(e.gpuVA, 0x1020);
    assert_eq!(e.textureViewID, 0xABCD);
    assert_eq!(e.metadata, 0x40 | (3u64 << 32) | (1u64 << 63));

    let plain = view(0x1000, 0, 0x40, None, 0, false);
    let e = IRDescriptorTableEntry::buffer_view(&plain);
    assert_eq!(e.gpuVA, 0x1000);
    assert_eq!(e.textureViewID, 0);
    assert_eq!(e.metadata, 0x40);
}

#[test]
fn texture_descriptor_fully_specified() {
    let bits = 1.5f32.to_bits();
    let e = IRDescriptorTableEntry::texture(0xDEAD_BEEF, bits);
    assert_eq!(e.gpuVA, 0);
    assert_eq!(e.textureViewID, 0xDEAD_BEEF);
    assert_eq!(e.metadata, bits as u64);
    assert_eq!(e.metadata >> 32, 0);
}

#[test]
fn sampler_descriptor_fully_specified() {
    let bits = (-0.5f32).to_bits();
    let e = IRDescriptorTableEntry::sampler(0x77, bits);
    assert_eq!(e.gpuVA, 0x77);
    assert_eq!(e.textureViewID, 0);
    assert_eq!(e.metadata, bits as u64);
}

#[test]
fn acceleration_structure_descriptor_fully_specified() {
    let e = IRDescriptorTableEntry::acceleration_structure(0x4242);
    assert_eq!(e.gpuVA, 0x4242);
    assert_eq!(e.textureViewID, 0);
    assert_eq!(e.metadata, 0);
}

#[test]
fn buffer_metadata_roundtrip_matrix() {
    for &buffer_size in &[0u64, 1, 0xFFFF_FFFF] {
        for &offset in &[0u32, 1, 0xFF, 0x1FF] {
            for &typed in &[false, true] {
                let v = view(0, 0, buffer_size, None, offset, typed);
                let m = IRDescriptorTableEntry::buffer_metadata(&v);
                assert_eq!(m & 0xFFFF_FFFF, buffer_size & 0xFFFF_FFFF);
                assert_eq!((m >> 32) & 0xFF, (offset as u64) & 0xFF);
                assert_eq!(m >> 63, if typed { 1 } else { 0 });
            }
        }
    }
}

#[test]
fn buffer_metadata_truncates_offset_to_eight_bits() {
    let v = view(0, 0, 0, None, 0x1FF, false);
    let m = IRDescriptorTableEntry::buffer_metadata(&v);
    assert_eq!((m >> 32) & 0xFF, 0xFF);
    assert_eq!(m & 0xFFFF_FFFF, 0);
    assert_eq!(m >> 63, 0);
}

#[test]
fn index_type_translation_is_native_plus_one() {
    assert_eq!(metal_index_to_ir_index(0), 1);
    assert_eq!(metal_index_to_ir_index(1), 2);
}

#[test]
fn non_indexed_draw_encoding() {
    let e = draw_primitives_encoding(3, 300, 2, 7);
    assert_eq!(
        e.draw_params,
        IRRuntimeDrawParams::Draw(IRRuntimeDrawArgument {
            vertexCountPerInstance: 300,
            instanceCount: 2,
            startVertexLocation: 3,
            startInstanceLocation: 7,
        })
    );
    assert_eq!(e.uniforms, kIRNonIndexedDraw);
    assert_eq!(e.draw_arguments_bind_point, kIRArgumentBufferDrawArgumentsBindPoint);
    assert_eq!(e.uniforms_bind_point, kIRArgumentBufferUniformsBindPoint);
}

#[test]
fn indexed_draw_encoding() {
    let e = draw_indexed_primitives_encoding(36, 1, 4, 5, -2, 9);
    assert_eq!(
        e.draw_params,
        IRRuntimeDrawParams::DrawIndexed(IRRuntimeDrawIndexedArgument {
            indexCountPerInstance: 36,
            instanceCount: 5,
            startIndexLocation: 4,
            baseVertexLocation: -2,
            startInstanceLocation: 9,
        })
    );
    assert_eq!(e.uniforms, 2);
    assert_eq!(e.draw_arguments_bind_point, kIRArgumentBufferDrawArgumentsBindPoint);
    assert_eq!(e.uniforms_bind_point, kIRArgumentBufferUniformsBindPoint);
}

#[test]
fn indirect_indexed_draw_encoding() {
    let e = draw_indexed_primitives_indirect_encoding(0);
    assert_eq!(e.uniforms, 1);
    assert_eq!(e.draw_arguments_bind_point, kIRArgumentBufferDrawArgumentsBindPoint);
    assert_eq!(e.uniforms_bind_point, kIRArgumentBufferUniformsBindPoint);
}

#[test]
fn draw_encoding_truncates_counts() {
    let e = draw_primitives_encoding(0, 0x1_0000_0005, 1, 0);
    match e.draw_params {
        IRRuntimeDrawParams::Draw(a) => assert_eq!(a.vertexCountPerInstance, 5),
        IRRuntimeDrawParams::DrawIndexed(_) => panic!("wrong variant"),
    }
}
