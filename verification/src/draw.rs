//! Encoders for draw-call argument records.
//!
//! A draw call hands the translated shader two records through reserved
//! argument-buffer slots: the draw arguments themselves, and a uniforms word
//! that is either the non-indexed-draw marker or the translated index-type
//! code. The records are written verbatim into caller-managed GPU-visible
//! memory; these functions only compute their exact contents.

use vstd::prelude::*;

verus! {

/// Argument-buffer slot of the top-level argument buffer.
pub const kIRArgumentBufferBindPoint: u64 = 2;
/// Argument-buffer slot of the hull/domain argument buffer.
pub const kIRArgumentBufferHullDomainBindPoint: u64 = 3;
/// Argument-buffer slot of the resource descriptor heap.
pub const kIRDescriptorHeapBindPoint: u64 = 0;
/// Argument-buffer slot of the sampler descriptor heap.
pub const kIRSamplerHeapBindPoint: u64 = 1;
/// Argument-buffer slot that receives the draw-arguments record.
pub const kIRArgumentBufferDrawArgumentsBindPoint: u64 = 4;
/// Argument-buffer slot that receives the uniforms word.
pub const kIRArgumentBufferUniformsBindPoint: u64 = 5;
/// Argument-buffer slot of the vertex buffers.
pub const kIRVertexBufferBindPoint: u64 = 6;
/// First attribute index reserved for synthesized stage-in functions.
pub const kIRStageInAttributeStartIndex: u64 = 11;
/// Uniforms word marking a non-indexed draw.
pub const kIRNonIndexedDraw: u16 = 0;
/// Argument-buffer slot of the ray-dispatch arguments.
pub const kIRRayDispatchArgumentsBindPoint: u64 = 3;

/// Arguments of one non-indexed draw, laid out exactly as the native ABI
/// reads them.
#[derive(Clone, Copy, Debug, PartialEq, Eq, Structural)]
pub struct IRRuntimeDrawArgument {
    /// Vertices drawn per instance.
    pub vertexCountPerInstance: u32,
    /// Number of instances.
    pub instanceCount: u32,
    /// First vertex.
    pub startVertexLocation: u32,
    /// First instance.
    pub startInstanceLocation: u32,
}

/// Arguments of one indexed draw, laid out exactly as the native ABI reads
/// them.
#[derive(Clone, Copy, Debug, PartialEq, Eq, Structural)]
pub struct IRRuntimeDrawIndexedArgument {
    /// Indices read per instance.
    pub indexCountPerInstance: u32,
    /// Number of instances.
    pub instanceCount: u32,
    /// First index.
    pub startIndexLocation: u32,
    /// Value added to each index before vertex lookup.
    pub baseVertexLocation: i32,
    /// First instance.
    pub startInstanceLocation: u32,
}

/// The record placed into the draw-arguments slot: one of the two argument
/// layouts.
#[derive(Clone, Copy, Debug, PartialEq, Eq, Structural)]
pub enum IRRuntimeDrawParams {
    /// A non-indexed draw.
    Draw(IRRuntimeDrawArgument),
    /// An indexed draw.
    DrawIndexed(IRRuntimeDrawIndexedArgument),
}

/// Per-draw state consumed by emulation pipelines.
#[derive(Clone, Copy, Debug, PartialEq, Eq, Structural)]
pub struct IRRuntimeDrawInfo {
    /// Translated index-type code, or zero for non-indexed draws.
    pub indexType: u16,
    /// Primitive topology code.
    pub primitiveTopology: u8,
    /// Threads per patch.
    pub threadsPerPatch: u8,
    /// Maximum input primitives per mesh threadgroup.
    pub maxInputPrimitivesPerMeshThreadgroup: u16,
    /// Vertex stride of the object threadgroup.
    pub objectThreadgroupVertexStride: u16,
    /// Primitive stride of the mesh threadgroup.
    pub meshThreadgroupPrimitiveStride: u16,
    /// Geometry-shader instance count.
    pub gsInstanceCount: u16,
    /// Patches per object threadgroup.
    pub patchesPerObjectThreadgroup: u16,
    /// Input control points per patch.
    pub inputControlPointsPerPatch: u16,
    /// GPU address of the index buffer.
    pub indexBuffer: u64,
}

/// Translate a native index-type code into the library's own 1-based
/// index-type code.
pub fn metal_index_to_ir_index(index_type: u64) -> (r: u16)
    requires
        index_type < 0xFFFF,
    ensures
        r == index_type + 1,
{
    (index_type as u16) + 1
}

/// Everything a non-indexed or indexed draw writes into the two reserved
/// argument-buffer slots.
#[derive(Clone, Copy, Debug, PartialEq, Eq, Structural)]
pub struct DrawEncoding {
    /// Record for the draw-arguments slot.
    pub draw_params: IRRuntimeDrawParams,
    /// Slot that receives the draw-arguments record.
    pub draw_arguments_bind_point: u64,
    /// Word for the uniforms slot: the non-indexed-draw marker or the
    /// translated index-type code.
    pub uniforms: u16,
    /// Slot that receives the uniforms word.
    pub uniforms_bind_point: u64,
}

/// Compute the argument-buffer contents of one non-indexed draw. Counts and
/// offsets are truncated to the 32-bit fields of the native record.
pub fn draw_primitives_encoding(vertex_start: usize, vertex_count: usize, instance_count: usize, base_instance: usize) -> (r: DrawEncoding)
    ensures
        r.draw_params == IRRuntimeDrawParams::Draw(IRRuntimeDrawArgument {
            vertexCountPerInstance: vertex_count as u32,
            instanceCount: instance_count as u32,
            startVertexLocation: vertex_start as u32,
            startInstanceLocation: base_instance as u32,
        }),
        r.uniforms == kIRNonIndexedDraw,
        r.draw_arguments_bind_point == kIRArgumentBufferDrawArgumentsBindPoint,
        r.uniforms_bind_point == kIRArgumentBufferUniformsBindPoint,
{
    DrawEncoding {
        draw_params: IRRuntimeDrawParams::Draw(IRRuntimeDrawArgument {
            vertexCountPerInstance: #[verifier::truncate] (vertex_count as u32),
            instanceCount: #[verifier::truncate] (instance_count as u32),
            startVertexLocation: #[verifier::truncate] (vertex_start as u32),
            startInstanceLocation: #[verifier::truncate] (base_instance as u32),
        }),
        draw_arguments_bind_point: kIRArgumentBufferDrawArgumentsBindPoint,
        uniforms: kIRNonIndexedDraw,
        uniforms_bind_point: kIRArgumentBufferUniformsBindPoint,
    }
}

/// Compute the argument-buffer contents of one indexed draw: the indexed
/// argument record and the translated index-type code.
pub fn draw_indexed_primitives_encoding(
    index_count: usize,
    index_type: u64,
    index_buffer_offset: usize,
    instance_count: usize,
    base_vertex: isize,
    base_instance: usize,
) -> (r: DrawEncoding)
    requires
        index_type < 0xFFFF,
    ensures
        r.draw_params == IRRuntimeDrawParams::DrawIndexed(IRRuntimeDrawIndexedArgument {
            indexCountPerInstance: index_count as u32,
            instanceCount: instance_count as u32,
            startIndexLocation: index_buffer_offset as u32,
            baseVertexLocation: base_vertex as i32,
            startInstanceLocation: base_instance as u32,
        }),
        r.uniforms == index_type + 1,
        r.draw_arguments_bind_point == kIRArgumentBufferDrawArgumentsBindPoint,
        r.uniforms_bind_point == kIRArgumentBufferUniformsBindPoint,
{
    DrawEncoding {
        draw_params: IRRuntimeDrawParams::DrawIndexed(IRRuntimeDrawIndexedArgument {
            indexCountPerInstance: #[verifier::truncate] (index_count as u32),
            instanceCount: #[verifier::truncate] (instance_count as u32),
            startIndexLocation: #[verifier::truncate] (index_buffer_offset as u32),
            baseVertexLocation: #[verifier::truncate] (base_vertex as i32),
            startInstanceLocation: #[verifier::truncate] (base_instance as u32),
        }),
        draw_arguments_bind_point: kIRArgumentBufferDrawArgumentsBindPoint,
        uniforms: metal_index_to_ir_index(index_type),
        uniforms_bind_point: kIRArgumentBufferUniformsBindPoint,
    }
}

/// Everything an indirect indexed draw writes itself: the indirect buffer
/// carries the draw arguments, so only the uniforms word is computed here.
#[derive(Clone, Copy, Debug, PartialEq, Eq, Structural)]
pub struct IndirectDrawEncoding {
    /// Slot that receives the indirect draw-arguments buffer.
    pub draw_arguments_bind_point: u64,
    /// Translated index-type code for the uniforms slot.
    pub uniforms: u16,
    /// Slot that receives the uniforms word.
    pub uniforms_bind_point: u64,
}

/// Compute the argument-buffer contents of one indirect indexed draw.
pub fn draw_indexed_primitives_indirect_encoding(index_type: u64) -> (r: IndirectDrawEncoding)
    requires
        index_type < 0xFFFF,
    ensures
        r.uniforms == index_type + 1,
        r.draw_arguments_bind_point == kIRArgumentBufferDrawArgumentsBindPoint,
        r.uniforms_bind_point == kIRArgumentBufferUniformsBindPoint,
{
    IndirectDrawEncoding {
        draw_arguments_bind_point: kIRArgumentBufferDrawArgumentsBindPoint,
        uniforms: metal_index_to_ir_index(index_type),
        uniforms_bind_point: kIRArgumentBufferUniformsBindPoint,
    }
}

} // verus!
