//! The table of resolved native entry points.
//!
//! Every entry point the native library must export is named here. An
//! unverified shim resolves each symbol name to an address; [`FunctionTable::load`]
//! accepts the resolved addresses only as a whole, so a table with any entry
//! point missing is never constructed. The table is immutable after
//! construction and every handle holds its own share of it, so no handle can
//! outlive the table it was constructed from.

use vstd::prelude::*;

verus! {

/// Number of native entry points the library must export.
pub const SYMBOL_COUNT: usize = 62;

/// One native entry point, identified by its exported symbol name.
#[derive(Clone, Copy, Debug, PartialEq, Eq, Structural)]
pub enum Symbol {
    /// `IRCompilerCreate`
    CompilerCreate,
    /// `IRCompilerDestroy`
    CompilerDestroy,
    /// `IRCompilerSetValidationFlags`
    CompilerSetValidationFlags,
    /// `IRCompilerSetStageInGenerationMode`
    CompilerSetStageInGenerationMode,
    /// `IRCompilerSetGlobalRootSignature`
    CompilerSetGlobalRootSignature,
    /// `IRCompilerSetLocalRootSignature`
    CompilerSetLocalRootSignature,
    /// `IRCompilerSetHitgroupType`
    CompilerSetHitgroupType,
    /// `IRCompilerSetRayTracingPipelineArguments`
    CompilerSetRayTracingPipelineArguments,
    /// `IRCompilerSetCompatibilityFlags`
    CompilerSetCompatibilityFlags,
    /// `IRCompilerSetInputTopology`
    CompilerSetInputTopology,
    /// `IRCompilerEnableGeometryAndTessellationEmulation`
    CompilerEnableGeometryAndTessellationEmulation,
    /// `IRCompilerSetDualSourceBlendingConfiguration`
    CompilerSetDualSourceBlendingConfiguration,
    /// `IRCompilerSetDepthFeedbackConfiguration`
    CompilerSetDepthFeedbackConfiguration,
    /// `IRCompilerSetIntRTMask`
    CompilerSetIntRtMask,
    /// `IRCompilerSetEntryPointName`
    CompilerSetEntryPointName,
    /// `IRCompilerSetMinimumGPUFamily`
    CompilerSetMinimumGpuFamily,
    /// `IRCompilerIgnoreRootSignature`
    CompilerIgnoreRootSignature,
    /// `IRCompilerIgnoreDebugInformation`
    CompilerIgnoreDebugInformation,
    /// `IRCompilerSetMinimumDeploymentTarget`
    CompilerSetMinimumDeploymentTarget,
    /// `IRCompilerAllocCompileAndLink`
    CompilerAllocCompileAndLink,
    /// `IRCompilerAllocCombineCompileAndLink`
    CompilerAllocCombineCompileAndLink,
    /// `IRObjectCreateFromDXIL`
    ObjectCreateFromDxil,
    /// `IRObjectDestroy`
    ObjectDestroy,
    /// `IRObjectGatherRaytracingIntrinsics`
    ObjectGatherRaytracingIntrinsics,
    /// `IRObjectGetType`
    ObjectGetType,
    /// `IRObjectGetMetalIRShaderStage`
    ObjectGetMetalIrShaderStage,
    /// `IRObjectGetMetalLibBinary`
    ObjectGetMetalLibBinary,
    /// `IRObjectGetReflection`
    ObjectGetReflection,
    /// `IRMetalLibBinaryCreate`
    MetalLibBinaryCreate,
    /// `IRMetalLibBinaryDestroy`
    MetalLibBinaryDestroy,
    /// `IRMetalLibGetBytecodeSize`
    MetalLibGetBytecodeSize,
    /// `IRMetalLibGetBytecode`
    MetalLibGetBytecode,
    /// `IRMetalLibSynthesizeStageInFunction`
    MetalLibSynthesizeStageInFunction,
    /// `IRMetalLibSynthesizeIndirectRayDispatchFunction`
    MetalLibSynthesizeIndirectRayDispatchFunction,
    /// `IRMetalLibSynthesizeIndirectIntersectionFunction`
    MetalLibSynthesizeIndirectIntersectionFunction,
    /// `IRRootSignatureCreateFromDescriptor`
    RootSignatureCreateFromDescriptor,
    /// `IRRootSignatureDestroy`
    RootSignatureDestroy,
    /// `IRRootSignatureGetResourceCount`
    RootSignatureGetResourceCount,
    /// `IRRootSignatureGetResourceLocations`
    RootSignatureGetResourceLocations,
    /// `IRShaderReflectionCreate`
    ShaderReflectionCreate,
    /// `IRShaderReflectionDestroy`
    ShaderReflectionDestroy,
    /// `IRShaderReflectionCopyComputeInfo`
    ShaderReflectionCopyComputeInfo,
    /// `IRShaderReflectionReleaseComputeInfo`
    ShaderReflectionReleaseComputeInfo,
    /// `IRShaderReflectionCopyVertexInfo`
    ShaderReflectionCopyVertexInfo,
    /// `IRShaderReflectionReleaseVertexInfo`
    ShaderReflectionReleaseVertexInfo,
    /// `IRShaderReflectionCopyFragmentInfo`
    ShaderReflectionCopyFragmentInfo,
    /// `IRShaderReflectionReleaseFragmentInfo`
    ShaderReflectionReleaseFragmentInfo,
    /// `IRShaderReflectionCopyGeometryInfo`
    ShaderReflectionCopyGeometryInfo,
    /// `IRShaderReflectionReleaseGeometryInfo`
    ShaderReflectionReleaseGeometryInfo,
    /// `IRShaderReflectionCopyHullInfo`
    ShaderReflectionCopyHullInfo,
    /// `IRShaderReflectionReleaseHullInfo`
    ShaderReflectionReleaseHullInfo,
    /// `IRShaderReflectionCopyDomainInfo`
    ShaderReflectionCopyDomainInfo,
    /// `IRShaderReflectionReleaseDomainInfo`
    ShaderReflectionReleaseDomainInfo,
    /// `IRShaderReflectionCopyMeshInfo`
    ShaderReflectionCopyMeshInfo,
    /// `IRShaderReflectionReleaseMeshInfo`
    ShaderReflectionReleaseMeshInfo,
    /// `IRShaderReflectionCopyAmplificationInfo`
    ShaderReflectionCopyAmplificationInfo,
    /// `IRShaderReflectionReleaseAmplificationInfo`
    ShaderReflectionReleaseAmplificationInfo,
    /// `IRShaderReflectionCopyRaytracingInfo`
    ShaderReflectionCopyRaytracingInfo,
    /// `IRShaderReflectionReleaseRaytracingInfo`
    ShaderReflectionReleaseRaytracingInfo,
    /// `IRErrorGetCode`
    ErrorGetCode,
    /// `IRErrorGetPayload`
    ErrorGetPayload,
    /// `IRErrorDestroy`
    ErrorDestroy,
}

/// Position of an entry point inside the resolved-address table.
pub open spec fn spec_symbol_index(s: Symbol) -> int {
    match s {
        Symbol::CompilerCreate => 0,
        Symbol::CompilerDestroy => 1,
        Symbol::CompilerSetValidationFlags => 2,
        Symbol::CompilerSetStageInGenerationMode => 3,
        Symbol::CompilerSetGlobalRootSignature => 4,
        Symbol::CompilerSetLocalRootSignature => 5,
        Symbol::CompilerSetHitgroupType => 6,
        Symbol::CompilerSetRayTracingPipelineArguments => 7,
        Symbol::CompilerSetCompatibilityFlags => 8,
        Symbol::CompilerSetInputTopology => 9,
        Symbol::CompilerEnableGeometryAndTessellationEmulation => 10,
        Symbol::CompilerSetDualSourceBlendingConfiguration => 11,
        Symbol::CompilerSetDepthFeedbackConfiguration => 12,
        Symbol::CompilerSetIntRtMask => 13,
        Symbol::CompilerSetEntryPointName => 14,
        Symbol::CompilerSetMinimumGpuFamily => 15,
        Symbol::CompilerIgnoreRootSignature => 16,
        Symbol::CompilerIgnoreDebugInformation => 17,
        Symbol::CompilerSetMinimumDeploymentTarget => 18,
        Symbol::CompilerAllocCompileAndLink => 19,
        Symbol::CompilerAllocCombineCompileAndLink => 20,
        Symbol::ObjectCreateFromDxil => 21,
        Symbol::ObjectDestroy => 22,
        Symbol::ObjectGatherRaytracingIntrinsics => 23,
        Symbol::ObjectGetType => 24,
        Symbol::ObjectGetMetalIrShaderStage => 25,
        Symbol::ObjectGetMetalLibBinary => 26,
        Symbol::ObjectGetReflection => 27,
        Symbol::MetalLibBinaryCreate => 28,
        Symbol::MetalLibBinaryDestroy => 29,
        Symbol::MetalLibGetBytecodeSize => 30,
        Symbol::MetalLibGetBytecode => 31,
        Symbol::MetalLibSynthesizeStageInFunction => 32,
        Symbol::MetalLibSynthesizeIndirectRayDispatchFunction => 33,
        Symbol::MetalLibSynthesizeIndirectIntersectionFunction => 34,
        Symbol::RootSignatureCreateFromDescriptor => 35,
        Symbol::RootSignatureDestroy => 36,
        Symbol::RootSignatureGetResourceCount => 37,
        Symbol::RootSignatureGetResourceLocations => 38,
        Symbol::ShaderReflectionCreate => 39,
        Symbol::ShaderReflectionDestroy => 40,
        Symbol::ShaderReflectionCopyComputeInfo => 41,
        Symbol::ShaderReflectionReleaseComputeInfo => 42,
        Symbol::ShaderReflectionCopyVertexInfo => 43,
        Symbol::ShaderReflectionReleaseVertexInfo => 44,
        Symbol::ShaderReflectionCopyFragmentInfo => 45,
        Symbol::ShaderReflectionReleaseFragmentInfo => 46,
        Symbol::ShaderReflectionCopyGeometryInfo => 47,
        Symbol::ShaderReflectionReleaseGeometryInfo => 48,
        Symbol::ShaderReflectionCopyHullInfo => 49,
        Symbol::ShaderReflectionReleaseHullInfo => 50,
        Symbol::ShaderReflectionCopyDomainInfo => 51,
        Symbol::ShaderReflectionReleaseDomainInfo => 52,
        Symbol::ShaderReflectionCopyMeshInfo => 53,
        Symbol::ShaderReflectionReleaseMeshInfo => 54,
        Symbol::ShaderReflectionCopyAmplificationInfo => 55,
        Symbol::ShaderReflectionReleaseAmplificationInfo => 56,
        Symbol::ShaderReflectionCopyRaytracingInfo => 57,
        Symbol::ShaderReflectionReleaseRaytracingInfo => 58,
        Symbol::ErrorGetCode => 59,
        Symbol::ErrorGetPayload => 60,
        Symbol::ErrorDestroy => 61,
    }
}

impl Symbol {
    /// Position of this entry point inside the resolved-address table.
    pub fn index(self) -> (r: usize)
        ensures
            r == spec_symbol_index(self),
    {
        match self {
            Symbol::CompilerCreate => 0,
            Symbol::CompilerDestroy => 1,
            Symbol::CompilerSetValidationFlags => 2,
            Symbol::CompilerSetStageInGenerationMode => 3,
            Symbol::CompilerSetGlobalRootSignature => 4,
            Symbol::CompilerSetLocalRootSignature => 5,
            Symbol::CompilerSetHitgroupType => 6,
            Symbol::CompilerSetRayTracingPipelineArguments => 7,
            Symbol::CompilerSetCompatibilityFlags => 8,
            Symbol::CompilerSetInputTopology => 9,
            Symbol::CompilerEnableGeometryAndTessellationEmulation => 10,
            Symbol::CompilerSetDualSourceBlendingConfiguration => 11,
            Symbol::CompilerSetDepthFeedbackConfiguration => 12,
            Symbol::CompilerSetIntRtMask => 13,
            Symbol::CompilerSetEntryPointName => 14,
            Symbol::CompilerSetMinimumGpuFamily => 15,
            Symbol::CompilerIgnoreRootSignature => 16,
            Symbol::CompilerIgnoreDebugInformation => 17,
            Symbol::CompilerSetMinimumDeploymentTarget => 18,
            Symbol::CompilerAllocCompileAndLink => 19,
            Symbol::CompilerAllocCombineCompileAndLink => 20,
            Symbol::ObjectCreateFromDxil => 21,
            Symbol::ObjectDestroy => 22,
            Symbol::ObjectGatherRaytracingIntrinsics => 23,
            Symbol::ObjectGetType => 24,
            Symbol::ObjectGetMetalIrShaderStage => 25,
            Symbol::ObjectGetMetalLibBinary => 26,
            Symbol::ObjectGetReflection => 27,
            Symbol::MetalLibBinaryCreate => 28,
            Symbol::MetalLibBinaryDestroy => 29,
            Symbol::MetalLibGetBytecodeSize => 30,
            Symbol::MetalLibGetBytecode => 31,
            Symbol::MetalLibSynthesizeStageInFunction => 32,
            Symbol::MetalLibSynthesizeIndirectRayDispatchFunction => 33,
            Symbol::MetalLibSynthesizeIndirectIntersectionFunction => 34,
            Symbol::RootSignatureCreateFromDescriptor => 35,
            Symbol::RootSignatureDestroy => 36,
            Symbol::RootSignatureGetResourceCount => 37,
            Symbol::RootSignatureGetResourceLocations => 38,
            Symbol::ShaderReflectionCreate => 39,
            Symbol::ShaderReflectionDestroy => 40,
            Symbol::ShaderReflectionCopyComputeInfo => 41,
            Symbol::ShaderReflectionReleaseComputeInfo => 42,
            Symbol::ShaderReflectionCopyVertexInfo => 43,
            Symbol::ShaderReflectionReleaseVertexInfo => 44,
            Symbol::ShaderReflectionCopyFragmentInfo => 45,
            Symbol::ShaderReflectionReleaseFragmentInfo => 46,
            Symbol::ShaderReflectionCopyGeometryInfo => 47,
            Symbol::ShaderReflectionReleaseGeometryInfo => 48,
            Symbol::ShaderReflectionCopyHullInfo => 49,
            Symbol::ShaderReflectionReleaseHullInfo => 50,
            Symbol::ShaderReflectionCopyDomainInfo => 51,
            Symbol::ShaderReflectionReleaseDomainInfo => 52,
            Symbol::ShaderReflectionCopyMeshInfo => 53,
            Symbol::ShaderReflectionReleaseMeshInfo => 54,
            Symbol::ShaderReflectionCopyAmplificationInfo => 55,
            Symbol::ShaderReflectionReleaseAmplificationInfo => 56,
            Symbol::ShaderReflectionCopyRaytracingInfo => 57,
            Symbol::ShaderReflectionReleaseRaytracingInfo => 58,
            Symbol::ErrorGetCode => 59,
            Symbol::ErrorGetPayload => 60,
            Symbol::ErrorDestroy => 61,
        }
    }

    /// The entry point at a table position.
    pub fn of_index(i: usize) -> (r: Option<Symbol>)
        ensures
            match r {
                Some(s) => spec_symbol_index(s) == i,
                None => i >= SYMBOL_COUNT,
            },
    {
        match i {
            0 => Some(Symbol::CompilerCreate),
            1 => Some(Symbol::CompilerDestroy),
            2 => Some(Symbol::CompilerSetValidationFlags),
            3 => Some(Symbol::CompilerSetStageInGenerationMode),
            4 => Some(Symbol::CompilerSetGlobalRootSignature),
            5 => Some(Symbol::CompilerSetLocalRootSignature),
            6 => Some(Symbol::CompilerSetHitgroupType),
            7 => Some(Symbol::CompilerSetRayTracingPipelineArguments),
            8 => Some(Symbol::CompilerSetCompatibilityFlags),
            9 => Some(Symbol::CompilerSetInputTopology),
            10 => Some(Symbol::CompilerEnableGeometryAndTessellationEmulation),
            11 => Some(Symbol::CompilerSetDualSourceBlendingConfiguration),
            12 => Some(Symbol::CompilerSetDepthFeedbackConfiguration),
            13 => Some(Symbol::CompilerSetIntRtMask),
            14 => Some(Symbol::CompilerSetEntryPointName),
            15 => Some(Symbol::CompilerSetMinimumGpuFamily),
            16 => Some(Symbol::CompilerIgnoreRootSignature),
            17 => Some(Symbol::CompilerIgnoreDebugInformation),
            18 => Some(Symbol::CompilerSetMinimumDeploymentTarget),
            19 => Some(Symbol::CompilerAllocCompileAndLink),
            20 => Some(Symbol::CompilerAllocCombineCompileAndLink),
            21 => Some(Symbol::ObjectCreateFromDxil),
            22 => Some(Symbol::ObjectDestroy),
            23 => Some(Symbol::ObjectGatherRaytracingIntrinsics),
            24 => Some(Symbol::ObjectGetType),
            25 => Some(Symbol::ObjectGetMetalIrShaderStage),
            26 => Some(Symbol::ObjectGetMetalLibBinary),
            27 => Some(Symbol::ObjectGetReflection),
            28 => Some(Symbol::MetalLibBinaryCreate),
            29 => Some(Symbol::MetalLibBinaryDestroy),
            30 => Some(Symbol::MetalLibGetBytecodeSize),
            31 => Some(Symbol::MetalLibGetBytecode),
            32 => Some(Symbol::MetalLibSynthesizeStageInFunction),
            33 => Some(Symbol::MetalLibSynthesizeIndirectRayDispatchFunction),
            34 => Some(Symbol::MetalLibSynthesizeIndirectIntersectionFunction),
            35 => Some(Symbol::RootSignatureCreateFromDescriptor),
            36 => Some(Symbol::RootSignatureDestroy),
            37 => Some(Symbol::RootSignatureGetResourceCount),
            38 => Some(Symbol::RootSignatureGetResourceLocations),
            39 => Some(Symbol::ShaderReflectionCreate),
            40 => Some(Symbol::ShaderReflectionDestroy),
            41 => Some(Symbol::ShaderReflectionCopyComputeInfo),
            42 => Some(Symbol::ShaderReflectionReleaseComputeInfo),
            43 => Some(Symbol::ShaderReflectionCopyVertexInfo),
            44 => Some(Symbol::ShaderReflectionReleaseVertexInfo),
            45 => Some(Symbol::ShaderReflectionCopyFragmentInfo),
            46 => Some(Symbol::ShaderReflectionReleaseFragmentInfo),
            47 => Some(Symbol::ShaderReflectionCopyGeometryInfo),
            48 => Some(Symbol::ShaderReflectionReleaseGeometryInfo),
            49 => Some(Symbol::ShaderReflectionCopyHullInfo),
            50 => Some(Symbol::ShaderReflectionReleaseHullInfo),
            51 => Some(Symbol::ShaderReflectionCopyDomainInfo),
            52 => Some(Symbol::ShaderReflectionReleaseDomainInfo),
            53 => Some(Symbol::ShaderReflectionCopyMeshInfo),
            54 => Some(Symbol::ShaderReflectionReleaseMeshInfo),
            55 => Some(Symbol::ShaderReflectionCopyAmplificationInfo),
            56 => Some(Symbol::ShaderReflectionReleaseAmplificationInfo),
            57 => Some(Symbol::ShaderReflectionCopyRaytracingInfo),
            58 => Some(Symbol::ShaderReflectionReleaseRaytracingInfo),
            59 => Some(Symbol::ErrorGetCode),
            60 => Some(Symbol::ErrorGetPayload),
            61 => Some(Symbol::ErrorDestroy),
            _ => None,
        }
    }

    /// The exported name this entry point is resolved by.
    pub fn name(self) -> (r: &'static str)
        ensures
            r@ == spec_symbol_name(self),
    {
        match self {
            Symbol::CompilerCreate => "IRCompilerCreate",
            Symbol::CompilerDestroy => "IRCompilerDestroy",
            Symbol::CompilerSetValidationFlags => "IRCompilerSetValidationFlags",
            Symbol::CompilerSetStageInGenerationMode => "IRCompilerSetStageInGenerationMode",
            Symbol::CompilerSetGlobalRootSignature => "IRCompilerSetGlobalRootSignature",
            Symbol::CompilerSetLocalRootSignature => "IRCompilerSetLocalRootSignature",
            Symbol::CompilerSetHitgroupType => "IRCompilerSetHitgroupType",
            Symbol::CompilerSetRayTracingPipelineArguments => "IRCompilerSetRayTracingPipelineArguments",
            Symbol::CompilerSetCompatibilityFlags => "IRCompilerSetCompatibilityFlags",
            Symbol::CompilerSetInputTopology => "IRCompilerSetInputTopology",
            Symbol::CompilerEnableGeometryAndTessellationEmulation => "IRCompilerEnableGeometryAndTessellationEmulation",
            Symbol::CompilerSetDualSourceBlendingConfiguration => "IRCompilerSetDualSourceBlendingConfiguration",
            Symbol::CompilerSetDepthFeedbackConfiguration => "IRCompilerSetDepthFeedbackConfiguration",
            Symbol::CompilerSetIntRtMask => "IRCompilerSetIntRTMask",
            Symbol::CompilerSetEntryPointName => "IRCompilerSetEntryPointName",
            Symbol::CompilerSetMinimumGpuFamily => "IRCompilerSetMinimumGPUFamily",
            Symbol::CompilerIgnoreRootSignature => "IRCompilerIgnoreRootSignature",
            Symbol::CompilerIgnoreDebugInformation => "IRCompilerIgnoreDebugInformation",
            Symbol::CompilerSetMinimumDeploymentTarget => "IRCompilerSetMinimumDeploymentTarget",
            Symbol::CompilerAllocCompileAndLink => "IRCompilerAllocCompileAndLink",
            Symbol::CompilerAllocCombineCompileAndLink => "IRCompilerAllocCombineCompileAndLink",
            Symbol::ObjectCreateFromDxil => "IRObjectCreateFromDXIL",
            Symbol::ObjectDestroy => "IRObjectDestroy",
            Symbol::ObjectGatherRaytracingIntrinsics => "IRObjectGatherRaytracingIntrinsics",
            Symbol::ObjectGetType => "IRObjectGetType",
            Symbol::ObjectGetMetalIrShaderStage => "IRObjectGetMetalIRShaderStage",
            Symbol::ObjectGetMetalLibBinary => "IRObjectGetMetalLibBinary",
            Symbol::ObjectGetReflection => "IRObjectGetReflection",
            Symbol::MetalLibBinaryCreate => "IRMetalLibBinaryCreate",
            Symbol::MetalLibBinaryDestroy => "IRMetalLibBinaryDestroy",
            Symbol::MetalLibGetBytecodeSize => "IRMetalLibGetBytecodeSize",
            Symbol::MetalLibGetBytecode => "IRMetalLibGetBytecode",
            Symbol::MetalLibSynthesizeStageInFunction => "IRMetalLibSynthesizeStageInFunction",
            Symbol::MetalLibSynthesizeIndirectRayDispatchFunction => "IRMetalLibSynthesizeIndirectRayDispatchFunction",
            Symbol::MetalLibSynthesizeIndirectIntersectionFunction => "IRMetalLibSynthesizeIndirectIntersectionFunction",
            Symbol::RootSignatureCreateFromDescriptor => "IRRootSignatureCreateFromDescriptor",
            Symbol::RootSignatureDestroy => "IRRootSignatureDestroy",
            Symbol::RootSignatureGetResourceCount => "IRRootSignatureGetResourceCount",
            Symbol::RootSignatureGetResourceLocations => "IRRootSignatureGetResourceLocations",
            Symbol::ShaderReflectionCreate => "IRShaderReflectionCreate",
            Symbol::ShaderReflectionDestroy => "IRShaderReflectionDestroy",
            Symbol::ShaderReflectionCopyComputeInfo => "IRShaderReflectionCopyComputeInfo",
            Symbol::ShaderReflectionReleaseComputeInfo => "IRShaderReflectionReleaseComputeInfo",
            Symbol::ShaderReflectionCopyVertexInfo => "IRShaderReflectionCopyVertexInfo",
            Symbol::ShaderReflectionReleaseVertexInfo => "IRShaderReflectionReleaseVertexInfo",
            Symbol::ShaderReflectionCopyFragmentInfo => "IRShaderReflectionCopyFragmentInfo",
            Symbol::ShaderReflectionReleaseFragmentInfo => "IRShaderReflectionReleaseFragmentInfo",
            Symbol::ShaderReflectionCopyGeometryInfo => "IRShaderReflectionCopyGeometryInfo",
            Symbol::ShaderReflectionReleaseGeometryInfo => "IRShaderReflectionReleaseGeometryInfo",
            Symbol::ShaderReflectionCopyHullInfo => "IRShaderReflectionCopyHullInfo",
            Symbol::ShaderReflectionReleaseHullInfo => "IRShaderReflectionReleaseHullInfo",
            Symbol::ShaderReflectionCopyDomainInfo => "IRShaderReflectionCopyDomainInfo",
            Symbol::ShaderReflectionReleaseDomainInfo => "IRShaderReflectionReleaseDomainInfo",
            Symbol::ShaderReflectionCopyMeshInfo => "IRShaderReflectionCopyMeshInfo",
            Symbol::ShaderReflectionReleaseMeshInfo => "IRShaderReflectionReleaseMeshInfo",
            Symbol::ShaderReflectionCopyAmplificationInfo => "IRShaderReflectionCopyAmplificationInfo",
            Symbol::ShaderReflectionReleaseAmplificationInfo => "IRShaderReflectionReleaseAmplificationInfo",
            Symbol::ShaderReflectionCopyRaytracingInfo => "IRShaderReflectionCopyRaytracingInfo",
            Symbol::ShaderReflectionReleaseRaytracingInfo => "IRShaderReflectionReleaseRaytracingInfo",
            Symbol::ErrorGetCode => "IRErrorGetCode",
            Symbol::ErrorGetPayload => "IRErrorGetPayload",
            Symbol::ErrorDestroy => "IRErrorDestroy",
        }
    }
}

/// The exported name of an entry point.
pub open spec fn spec_symbol_name(s: Symbol) -> Seq<char> {
    match s {
        Symbol::CompilerCreate => "IRCompilerCreate"@,
        Symbol::CompilerDestroy => "IRCompilerDestroy"@,
        Symbol::CompilerSetValidationFlags => "IRCompilerSetValidationFlags"@,
        Symbol::CompilerSetStageInGenerationMode => "IRCompilerSetStageInGenerationMode"@,
        Symbol::CompilerSetGlobalRootSignature => "IRCompilerSetGlobalRootSignature"@,
        Symbol::CompilerSetLocalRootSignature => "IRCompilerSetLocalRootSignature"@,
        Symbol::CompilerSetHitgroupType => "IRCompilerSetHitgroupType"@,
        Symbol::CompilerSetRayTracingPipelineArguments => "IRCompilerSetRayTracingPipelineArguments"@,
        Symbol::CompilerSetCompatibilityFlags => "IRCompilerSetCompatibilityFlags"@,
        Symbol::CompilerSetInputTopology => "IRCompilerSetInputTopology"@,
        Symbol::CompilerEnableGeometryAndTessellationEmulation => "IRCompilerEnableGeometryAndTessellationEmulation"@,
        Symbol::CompilerSetDualSourceBlendingConfiguration => "IRCompilerSetDualSourceBlendingConfiguration"@,
        Symbol::CompilerSetDepthFeedbackConfiguration => "IRCompilerSetDepthFeedbackConfiguration"@,
        Symbol::CompilerSetIntRtMask => "IRCompilerSetIntRTMask"@,
        Symbol::CompilerSetEntryPointName => "IRCompilerSetEntryPointName"@,
        Symbol::CompilerSetMinimumGpuFamily => "IRCompilerSetMinimumGPUFamily"@,
        Symbol::CompilerIgnoreRootSignature => "IRCompilerIgnoreRootSignature"@,
        Symbol::CompilerIgnoreDebugInformation => "IRCompilerIgnoreDebugInformation"@,
        Symbol::CompilerSetMinimumDeploymentTarget => "IRCompilerSetMinimumDeploymentTarget"@,
        Symbol::CompilerAllocCompileAndLink => "IRCompilerAllocCompileAndLink"@,
        Symbol::CompilerAllocCombineCompileAndLink => "IRCompilerAllocCombineCompileAndLink"@,
        Symbol::ObjectCreateFromDxil => "IRObjectCreateFromDXIL"@,
        Symbol::ObjectDestroy => "IRObjectDestroy"@,
        Symbol::ObjectGatherRaytracingIntrinsics => "IRObjectGatherRaytracingIntrinsics"@,
        Symbol::ObjectGetType => "IRObjectGetType"@,
        Symbol::ObjectGetMetalIrShaderStage => "IRObjectGetMetalIRShaderStage"@,
        Symbol::ObjectGetMetalLibBinary => "IRObjectGetMetalLibBinary"@,
        Symbol::ObjectGetReflection => "IRObjectGetReflection"@,
        Symbol::MetalLibBinaryCreate => "IRMetalLibBinaryCreate"@,
        Symbol::MetalLibBinaryDestroy => "IRMetalLibBinaryDestroy"@,
        Symbol::MetalLibGetBytecodeSize => "IRMetalLibGetBytecodeSize"@,
        Symbol::MetalLibGetBytecode => "IRMetalLibGetBytecode"@,
        Symbol::MetalLibSynthesizeStageInFunction => "IRMetalLibSynthesizeStageInFunction"@,
        Symbol::MetalLibSynthesizeIndirectRayDispatchFunction => "IRMetalLibSynthesizeIndirectRayDispatchFunction"@,
        Symbol::MetalLibSynthesizeIndirectIntersectionFunction => "IRMetalLibSynthesizeIndirectIntersectionFunction"@,
        Symbol::RootSignatureCreateFromDescriptor => "IRRootSignatureCreateFromDescriptor"@,
        Symbol::RootSignatureDestroy => "IRRootSignatureDestroy"@,
        Symbol::RootSignatureGetResourceCount => "IRRootSignatureGetResourceCount"@,
        Symbol::RootSignatureGetResourceLocations => "IRRootSignatureGetResourceLocations"@,
        Symbol::ShaderReflectionCreate => "IRShaderReflectionCreate"@,
        Symbol::ShaderReflectionDestroy => "IRShaderReflectionDestroy"@,
        Symbol::ShaderReflectionCopyComputeInfo => "IRShaderReflectionCopyComputeInfo"@,
        Symbol::ShaderReflectionReleaseComputeInfo => "IRShaderReflectionReleaseComputeInfo"@,
        Symbol::ShaderReflectionCopyVertexInfo => "IRShaderReflectionCopyVertexInfo"@,
        Symbol::ShaderReflectionReleaseVertexInfo => "IRShaderReflectionReleaseVertexInfo"@,
        Symbol::ShaderReflectionCopyFragmentInfo => "IRShaderReflectionCopyFragmentInfo"@,
        Symbol::ShaderReflectionReleaseFragmentInfo => "IRShaderReflectionReleaseFragmentInfo"@,
        Symbol::ShaderReflectionCopyGeometryInfo => "IRShaderReflectionCopyGeometryInfo"@,
        Symbol::ShaderReflectionReleaseGeometryInfo => "IRShaderReflectionReleaseGeometryInfo"@,
        Symbol::ShaderReflectionCopyHullInfo => "IRShaderReflectionCopyHullInfo"@,
        Symbol::ShaderReflectionReleaseHullInfo => "IRShaderReflectionReleaseHullInfo"@,
        Symbol::ShaderReflectionCopyDomainInfo => "IRShaderReflectionCopyDomainInfo"@,
        Symbol::ShaderReflectionReleaseDomainInfo => "IRShaderReflectionReleaseDomainInfo"@,
        Symbol::ShaderReflectionCopyMeshInfo => "IRShaderReflectionCopyMeshInfo"@,
        Symbol::ShaderReflectionReleaseMeshInfo => "IRShaderReflectionReleaseMeshInfo"@,
        Symbol::ShaderReflectionCopyAmplificationInfo => "IRShaderReflectionCopyAmplificationInfo"@,
        Symbol::ShaderReflectionReleaseAmplificationInfo => "IRShaderReflectionReleaseAmplificationInfo"@,
        Symbol::ShaderReflectionCopyRaytracingInfo => "IRShaderReflectionCopyRaytracingInfo"@,
        Symbol::ShaderReflectionReleaseRaytracingInfo => "IRShaderReflectionReleaseRaytracingInfo"@,
        Symbol::ErrorGetCode => "IRErrorGetCode"@,
        Symbol::ErrorGetPayload => "IRErrorGetPayload"@,
        Symbol::ErrorDestroy => "IRErrorDestroy"@,
    }
}

/// Why a resolved-address table was rejected.
#[derive(Clone, Copy, Debug, PartialEq, Eq, Structural)]
pub enum LoadError {
    /// The table does not have one address per required entry point.
    WrongCount {
        /// Number of addresses handed in.
        got: usize,
    },
    /// A required entry point resolved to the null address.
    MissingEntryPoint {
        /// Table position of the missing entry point.
        index: usize,
    },
}

/// The resolved native entry points of one loaded library image.
///
/// Construction is atomic: either every required entry point resolved to a
/// non-null address and the whole table is built, or no table exists at all.
#[derive(Debug)]
pub struct FunctionTable {
    addrs: Vec<u64>,
}

impl FunctionTable {
    /// The resolved addresses, one per entry point, in table order.
    pub closed spec fn spec_addrs(&self) -> Seq<u64> {
        self.addrs@
    }

    /// A table is well formed when it holds exactly one non-null address per
    /// required entry point.
    pub open spec fn wf(&self) -> bool {
        &&& self.spec_addrs().len() == SYMBOL_COUNT
        &&& forall|i: int| 0 <= i < self.spec_addrs().len() ==> self.spec_addrs()[i] != 0
    }

    /// Accept a resolved-address table, with the address at each position
    /// belonging to the entry point [`Symbol::of_index`] names for it. The
    /// table is built if and only if every required entry point is present
    /// and non-null; on failure nothing is built and the error names the
    /// first fault.
    pub fn load(resolved: Vec<u64>) -> (r: Result<FunctionTable, LoadError>)
        ensures
            match r {
                Ok(t) => {
                    &&& t.wf()
                    &&& t.spec_addrs() == resolved@
                },
                Err(LoadError::WrongCount { got }) => {
                    &&& got == resolved@.len()
                    &&& resolved@.len() != SYMBOL_COUNT
                },
                Err(LoadError::MissingEntryPoint { index }) => {
                    &&& resolved@.len() == SYMBOL_COUNT
                    &&& 0 <= index < resolved@.len()
                    &&& resolved@[index as int] == 0
                },
            },
    {
        if resolved.len() != SYMBOL_COUNT {
            return Err(LoadError::WrongCount { got: resolved.len() });
        }
        let mut i: usize = 0;
        while i < resolved.len()
            invariant
                resolved@.len() == SYMBOL_COUNT,
                i <= resolved@.len(),
                forall|j: int| 0 <= j < i ==> resolved@[j] != 0,
            decreases resolved@.len() - i,
        {
            if resolved[i] == 0 {
                return Err(LoadError::MissingEntryPoint { index: i });
            }
            i += 1;
        }
        Ok(FunctionTable { addrs: resolved })
    }

    /// The resolved address of one entry point.
    pub fn addr(&self, s: Symbol) -> (r: u64)
        requires
            self.wf(),
        ensures
            r == self.spec_addrs()[spec_symbol_index(s)],
            r != 0,
    {
        let i = s.index();
        self.addrs[i]
    }
}

impl Clone for FunctionTable {
    /// A clone is a new share of the same table.
    fn clone(&self) -> (r: Self)
        ensures
            r.spec_addrs() == self.spec_addrs(),
    {
        let mut addrs: Vec<u64> = Vec::new();
        let mut i: usize = 0;
        while i < self.addrs.len()
            invariant
                i <= self.addrs@.len(),
                addrs@ == self.addrs@.take(i as int),
            decreases self.addrs@.len() - i,
        {
            addrs.push(self.addrs[i]);
            proof {
                assert(addrs@ =~= self.addrs@.take(i + 1 as int));
            }
            i += 1;
        }
        proof {
            assert(addrs@ =~= self.addrs@);
        }
        FunctionTable { addrs }
    }
}

} // verus!
