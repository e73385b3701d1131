//! Plain binary records and enumerations shared with the native runtime ABI.
//!
//! These are value types without lifecycle: callers place them into
//! GPU-visible memory or hand them to the native layer unchanged.

use vstd::prelude::*;

verus! {

/// Threadgroup counts of an indirect dispatch.
#[derive(Clone, Copy, Debug, PartialEq, Eq)]
pub struct MTLDispatchThreadgroupsIndirectArguments {
    /// Threadgroups per grid, one count per dimension.
    pub threadgroupsPerGrid: [u32; 3],
}

/// Shader identifier record of a ray-tracing shader table.
#[derive(Clone, Copy, Debug, PartialEq, Eq, Structural)]
pub struct IRShaderIdentifier {
    /// Handle of the intersection shader.
    pub intersectionShaderHandle: u64,
    /// Handle of the shader.
    pub shaderHandle: u64,
    /// GPU address of the local root-signature samplers buffer.
    pub localRootSignatureSamplersBuffer: u64,
    /// Reserved.
    pub pad0: u64,
}

/// A GPU virtual-address range.
#[derive(Clone, Copy, Debug, PartialEq, Eq, Structural)]
pub struct IRVirtualAddressRange {
    /// Start address.
    pub StartAddress: u64,
    /// Size in bytes.
    pub SizeInBytes: u64,
}

/// A GPU virtual-address range with a record stride.
#[derive(Clone, Copy, Debug, PartialEq, Eq, Structural)]
pub struct IRVirtualAddressRangeAndStride {
    /// Start address.
    pub StartAddress: u64,
    /// Size in bytes.
    pub SizeInBytes: u64,
    /// Stride between records, in bytes.
    pub StrideInBytes: u64,
}

/// Header of an acceleration structure in GPU memory.
#[derive(Clone, Copy, Debug, PartialEq, Eq)]
pub struct IRRaytracingAccelerationStructureGPUHeader {
    /// GPU resource id of the acceleration structure.
    pub accelerationStructureID: u64,
    /// GPU address of the per-instance contribution table.
    pub addressOfInstanceContributions: u64,
    /// Reserved.
    pub pad0: [u64; 4],
    /// Reserved.
    pub pad1: MTLDispatchThreadgroupsIndirectArguments,
}

/// One vertex buffer binding of the emulated vertex stage.
#[derive(Clone, Copy, Debug, PartialEq, Eq, Structural)]
pub struct IRRuntimeVertexBuffer {
    /// GPU address of the buffer.
    pub addr: u64,
    /// Length in bytes.
    pub length: u32,
    /// Stride between vertices, in bytes.
    pub stride: u32,
}

/// Geometry-emulation pipeline configuration.
#[derive(Clone, Copy, Debug, PartialEq, Eq, Structural)]
pub struct IRRuntimeGeometryPipelineConfig {
    /// Size of one geometry-shader input vertex, in bytes.
    pub gsVertexSizeInBytes: u32,
    /// Maximum input primitives per mesh threadgroup.
    pub gsMaxInputPrimitivesPerMeshThreadgroup: u32,
}

/// Kind of a shader-visible resource.
#[derive(Clone, Copy, Debug, PartialEq, Eq, Structural)]
pub enum IRRuntimeResourceType {
    /// Shader resource view.
    SRV,
    /// Unordered access view.
    UAV,
    /// Constant buffer view.
    CBV,
    /// Sampler.
    SMP,
    /// Number of resource kinds.
    Count,
}

impl IRRuntimeResourceType {
    /// The ABI code of this resource kind.
    pub fn code(self) -> (r: u32)
        ensures
            r == match self {
                IRRuntimeResourceType::SRV => 0u32,
                IRRuntimeResourceType::UAV => 1u32,
                IRRuntimeResourceType::CBV => 2u32,
                IRRuntimeResourceType::SMP => 3u32,
                IRRuntimeResourceType::Count => 4u32,
            },
    {
        match self {
            IRRuntimeResourceType::SRV => 0,
            IRRuntimeResourceType::UAV => 1,
            IRRuntimeResourceType::CBV => 2,
            IRRuntimeResourceType::SMP => 3,
            IRRuntimeResourceType::Count => 4,
        }
    }
}

/// Primitive topology of a draw.
#[derive(Clone, Copy, Debug, PartialEq, Eq, Structural)]
pub enum IRRuntimePrimitiveType {
    /// Point list.
    Point,
    /// Line list.
    Line,
    /// Line strip.
    LineStrip,
    /// Triangle list.
    Triangle,
    /// Triangle strip.
    TriangleStrip,
    /// Line list with adjacency.
    LineWithAdj,
    /// Triangle list with adjacency.
    TriangleWithAdj,
}

impl IRRuntimePrimitiveType {
    /// The ABI code of this primitive topology.
    pub fn code(self) -> (r: u32)
        ensures
            r == match self {
                IRRuntimePrimitiveType::Point => 0u32,
                IRRuntimePrimitiveType::Line => 1u32,
                IRRuntimePrimitiveType::LineStrip => 2u32,
                IRRuntimePrimitiveType::Triangle => 3u32,
                IRRuntimePrimitiveType::TriangleStrip => 4u32,
                IRRuntimePrimitiveType::LineWithAdj => 5u32,
                IRRuntimePrimitiveType::TriangleWithAdj => 6u32,
            },
    {
        match self {
            IRRuntimePrimitiveType::Point => 0,
            IRRuntimePrimitiveType::Line => 1,
            IRRuntimePrimitiveType::LineStrip => 2,
            IRRuntimePrimitiveType::Triangle => 3,
            IRRuntimePrimitiveType::TriangleStrip => 4,
            IRRuntimePrimitiveType::LineWithAdj => 5,
            IRRuntimePrimitiveType::TriangleWithAdj => 6,
        }
    }
}

/// Output primitive of the tessellator.
#[derive(Clone, Copy, Debug, PartialEq, Eq, Structural)]
pub enum IRRuntimeTessellatorOutputPrimitive {
    /// No output primitive.
    Undefined,
    /// Points.
    Point,
    /// Lines.
    Line,
    /// Clockwise triangles.
    TriangleCW,
    /// Counter-clockwise triangles.
    TriangleCCW,
}

impl IRRuntimeTessellatorOutputPrimitive {
    /// The ABI code of this output primitive.
    pub fn code(self) -> (r: u32)
        ensures
            r == match self {
                IRRuntimeTessellatorOutputPrimitive::Undefined => 0u32,
                IRRuntimeTessellatorOutputPrimitive::Point => 1u32,
                IRRuntimeTessellatorOutputPrimitive::Line => 2u32,
                IRRuntimeTessellatorOutputPrimitive::TriangleCW => 3u32,
                IRRuntimeTessellatorOutputPrimitive::TriangleCCW => 4u32,
            },
    {
        match self {
            IRRuntimeTessellatorOutputPrimitive::Undefined => 0,
            IRRuntimeTessellatorOutputPrimitive::Point => 1,
            IRRuntimeTessellatorOutputPrimitive::Line => 2,
            IRRuntimeTessellatorOutputPrimitive::TriangleCW => 3,
            IRRuntimeTessellatorOutputPrimitive::TriangleCCW => 4,
        }
    }
}

} // verus!
