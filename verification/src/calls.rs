//! Descriptions of native calls as plain values.
//!
//! The verified layer never invokes the native library itself: each operation
//! yields a [`NativeCall`] that pins the entry point and every argument of
//! the one invocation the unverified shim must perform. Outcomes come back as
//! plain values and are interpreted by the verified layer.

use vstd::prelude::*;

use crate::layout::IRVersionedInputLayoutDescriptor;
use crate::reflection::ReflectionStage;
use crate::reflection::spec_copy_symbol;
use crate::reflection::spec_release_symbol;
use crate::rootsig::IRVersionedRootSignatureDescriptor;
use crate::table::Symbol;

verus! {

/// One native invocation: the entry point to call and its arguments.
/// Handles are carried as the raw non-null values the native side returned.
#[derive(Clone, Debug, PartialEq, Eq)]
pub enum NativeCall {
    /// Create a compiler instance.
    CompilerCreate,
    /// Destroy a compiler instance.
    CompilerDestroy {
        /// The compiler handle.
        compiler: u64,
    },
    /// Set the compiler's validation flags.
    CompilerSetValidationFlags {
        /// The compiler handle.
        compiler: u64,
        /// Native validation-flag bits.
        flags: u32,
    },
    /// Set the compiler's stage-in code-generation mode.
    CompilerSetStageInGenerationMode {
        /// The compiler handle.
        compiler: u64,
        /// Native mode code.
        mode: u32,
    },
    /// Set the compiler's global root signature.
    CompilerSetGlobalRootSignature {
        /// The compiler handle.
        compiler: u64,
        /// The root-signature handle.
        root_signature: u64,
    },
    /// Set the compiler's local root signature.
    CompilerSetLocalRootSignature {
        /// The compiler handle.
        compiler: u64,
        /// The root-signature handle.
        root_signature: u64,
    },
    /// Set the hit-group type for ray-tracing compilation.
    CompilerSetHitgroupType {
        /// The compiler handle.
        compiler: u64,
        /// Native hit-group type code.
        hit_group_type: u32,
    },
    /// Set the ray-tracing pipeline arguments.
    CompilerSetRayTracingPipelineArguments {
        /// The compiler handle.
        compiler: u64,
        /// Largest ray-tracing attribute size, in bytes.
        max_attribute_size_in_bytes: u32,
        /// Native ray-tracing pipeline flag bits.
        raytracing_pipeline_flags: u32,
        /// Intrinsic usage mask of the closest-hit stage.
        closest_hit_intrinsics_mask: u64,
        /// Intrinsic usage mask of the miss stage.
        miss_intrinsics_mask: u64,
        /// Intrinsic usage mask of the any-hit stage.
        any_hit_intrinsics_mask: u64,
        /// Intrinsic usage mask of the callable stage.
        callable_args: u64,
        /// Largest recursion depth.
        max_recursive_depth: i32,
        /// Native ray-generation compilation mode code.
        ray_generation_compilation_mode: u32,
        /// Native intersection-function compilation mode code.
        intersection_function_compilation_mode: u32,
    },
    /// Set the compiler's compatibility flags.
    CompilerSetCompatibilityFlags {
        /// The compiler handle.
        compiler: u64,
        /// Native compatibility-flag bits.
        flags: u32,
    },
    /// Set the input topology.
    CompilerSetInputTopology {
        /// The compiler handle.
        compiler: u64,
        /// Native topology code.
        input_topology: u32,
    },
    /// Enable or disable geometry and tessellation emulation.
    CompilerEnableGeometryAndTessellationEmulation {
        /// The compiler handle.
        compiler: u64,
        /// Whether emulation is enabled.
        enable: bool,
    },
    /// Set the dual-source blending configuration.
    CompilerSetDualSourceBlendingConfiguration {
        /// The compiler handle.
        compiler: u64,
        /// Native configuration code.
        configuration: u32,
    },
    /// Set the depth feedback configuration.
    CompilerSetDepthFeedbackConfiguration {
        /// The compiler handle.
        compiler: u64,
        /// Native configuration code.
        configuration: u32,
    },
    /// Set the ray-tracing interoperability mask.
    CompilerSetIntRtMask {
        /// The compiler handle.
        compiler: u64,
        /// The mask.
        mask: u8,
    },
    /// Rename the entry point of subsequently compiled shaders.
    CompilerSetEntryPointName {
        /// The compiler handle.
        compiler: u64,
        /// New entry-point name, as bytes of its C string.
        name: Vec<u8>,
    },
    /// Set the minimum GPU family compiled for.
    CompilerSetMinimumGpuFamily {
        /// The compiler handle.
        compiler: u64,
        /// Native GPU family code.
        family: u32,
    },
    /// Ignore or honor root signatures embedded in the input.
    CompilerIgnoreRootSignature {
        /// The compiler handle.
        compiler: u64,
        /// Whether embedded root signatures are ignored.
        ignore: bool,
    },
    /// Ignore or keep debug information.
    CompilerIgnoreDebugInformation {
        /// The compiler handle.
        compiler: u64,
        /// Whether debug information is ignored.
        ignore: bool,
    },
    /// Set the minimum deployment target compiled for.
    CompilerSetMinimumDeploymentTarget {
        /// The compiler handle.
        compiler: u64,
        /// Native operating-system code.
        operating_system: u32,
        /// Version string, as bytes of its C string.
        version: Vec<u8>,
    },
    /// Compile and link one input object into a new compiled object.
    CompilerAllocCompileAndLink {
        /// The compiler handle.
        compiler: u64,
        /// Entry-point name, as bytes of its C string.
        entry_point: Vec<u8>,
        /// Handle of the input object.
        input: u64,
    },
    /// Combine an intersection and an any-hit function, then compile and
    /// link them into a new compiled object.
    CompilerAllocCombineCompileAndLink {
        /// The compiler handle.
        compiler: u64,
        /// Entry point of the intersection function, as bytes of its C string.
        intersection_function_entry_point: Vec<u8>,
        /// Handle of the object holding the intersection function.
        intersection_function_bytecode: u64,
        /// Entry point of the any-hit function, as bytes of its C string.
        any_hit_function_entry_point: Vec<u8>,
        /// Handle of the object holding the any-hit function.
        any_hit_function_bytecode: u64,
    },
    /// Create an object from raw input bytecode; the bytes are copied.
    ObjectCreateFromDxil {
        /// The input bytecode.
        bytecode: Vec<u8>,
    },
    /// Destroy an object.
    ObjectDestroy {
        /// The object handle.
        object: u64,
    },
    /// Gather the ray-tracing intrinsics an entry point uses.
    ObjectGatherRaytracingIntrinsics {
        /// The object handle.
        object: u64,
        /// Entry-point name, as bytes of its C string.
        entry_point: Vec<u8>,
    },
    /// Query an object's kind.
    ObjectGetType {
        /// The object handle.
        object: u64,
    },
    /// Query the shader stage an object was compiled for.
    ObjectGetMetalIrShaderStage {
        /// The object handle.
        object: u64,
    },
    /// Fill an output binary with an object's compiled bytecode for a stage.
    ObjectGetMetalLibBinary {
        /// The object handle.
        object: u64,
        /// Native code of the stage asked for.
        stage: u32,
        /// Handle of the output binary to fill.
        binary: u64,
    },
    /// Fill a reflection with an object's reflection data for a stage.
    ObjectGetReflection {
        /// The object handle.
        object: u64,
        /// Native code of the stage asked for.
        stage: u32,
        /// Handle of the reflection to fill.
        reflection: u64,
    },
    /// Create an empty output binary.
    MetalLibBinaryCreate,
    /// Destroy an output binary.
    MetalLibBinaryDestroy {
        /// The output-binary handle.
        binary: u64,
    },
    /// Query the byte length of an output binary.
    MetalLibGetBytecodeSize {
        /// The output-binary handle.
        binary: u64,
    },
    /// Copy the bytes out of an output binary.
    MetalLibGetBytecode {
        /// The output-binary handle.
        binary: u64,
    },
    /// Synthesize a stage-in function into an output binary.
    MetalLibSynthesizeStageInFunction {
        /// The compiler handle.
        compiler: u64,
        /// Handle of the vertex shader's reflection.
        reflection: u64,
        /// The vertex input layout.
        layout: IRVersionedInputLayoutDescriptor,
        /// Handle of the output binary to fill.
        binary: u64,
    },
    /// Synthesize an indirect ray-dispatch function into an output binary.
    MetalLibSynthesizeIndirectRayDispatchFunction {
        /// The compiler handle.
        compiler: u64,
        /// Handle of the output binary to fill.
        binary: u64,
    },
    /// Synthesize an indirect intersection function into an output binary.
    MetalLibSynthesizeIndirectIntersectionFunction {
        /// The compiler handle.
        compiler: u64,
        /// Handle of the output binary to fill.
        binary: u64,
    },
    /// Create a root signature from a descriptor.
    RootSignatureCreateFromDescriptor {
        /// The descriptor.
        descriptor: IRVersionedRootSignatureDescriptor,
    },
    /// Destroy a root signature.
    RootSignatureDestroy {
        /// The root-signature handle.
        root_signature: u64,
    },
    /// Query how many resources a root signature references.
    RootSignatureGetResourceCount {
        /// The root-signature handle.
        root_signature: u64,
    },
    /// Read the locations of every resource a root signature references.
    RootSignatureGetResourceLocations {
        /// The root-signature handle.
        root_signature: u64,
    },
    /// Create an empty reflection.
    ShaderReflectionCreate,
    /// Destroy a reflection.
    ShaderReflectionDestroy {
        /// The reflection handle.
        reflection: u64,
    },
    /// Copy one stage's versioned reflection record out of a reflection.
    ShaderReflectionCopyStageInfo {
        /// The reflection handle.
        reflection: u64,
        /// The stage whose record is copied; it fixes the entry point.
        stage: ReflectionStage,
        /// Native code of the record version asked for.
        version: u32,
    },
    /// Release one stage's versioned reflection record.
    ShaderReflectionReleaseStageInfo {
        /// The stage whose record is released; it fixes the entry point.
        stage: ReflectionStage,
        /// Identifier the shim gave the record when it was copied.
        info: u64,
    },
    /// Query an error's numeric code.
    ErrorGetCode {
        /// The error handle.
        error: u64,
    },
    /// Read an error's diagnostic payload.
    ErrorGetPayload {
        /// The error handle.
        error: u64,
    },
    /// Destroy an error.
    ErrorDestroy {
        /// The error handle.
        error: u64,
    },
}

impl NativeCall {
    /// The entry point this call drives.
    pub open spec fn symbol(&self) -> Symbol {
        match self {
            NativeCall::CompilerCreate => Symbol::CompilerCreate,
            NativeCall::CompilerDestroy { .. } => Symbol::CompilerDestroy,
            NativeCall::CompilerSetValidationFlags { .. } => Symbol::CompilerSetValidationFlags,
            NativeCall::CompilerSetStageInGenerationMode { .. } => Symbol::CompilerSetStageInGenerationMode,
            NativeCall::CompilerSetGlobalRootSignature { .. } => Symbol::CompilerSetGlobalRootSignature,
            NativeCall::CompilerSetLocalRootSignature { .. } => Symbol::CompilerSetLocalRootSignature,
            NativeCall::CompilerSetHitgroupType { .. } => Symbol::CompilerSetHitgroupType,
            NativeCall::CompilerSetRayTracingPipelineArguments { .. } => Symbol::CompilerSetRayTracingPipelineArguments,
            NativeCall::CompilerSetCompatibilityFlags { .. } => Symbol::CompilerSetCompatibilityFlags,
            NativeCall::CompilerSetInputTopology { .. } => Symbol::CompilerSetInputTopology,
            NativeCall::CompilerEnableGeometryAndTessellationEmulation { .. } => Symbol::CompilerEnableGeometryAndTessellationEmulation,
            NativeCall::CompilerSetDualSourceBlendingConfiguration { .. } => Symbol::CompilerSetDualSourceBlendingConfiguration,
            NativeCall::CompilerSetDepthFeedbackConfiguration { .. } => Symbol::CompilerSetDepthFeedbackConfiguration,
            NativeCall::CompilerSetIntRtMask { .. } => Symbol::CompilerSetIntRtMask,
            NativeCall::CompilerSetEntryPointName { .. } => Symbol::CompilerSetEntryPointName,
            NativeCall::CompilerSetMinimumGpuFamily { .. } => Symbol::CompilerSetMinimumGpuFamily,
            NativeCall::CompilerIgnoreRootSignature { .. } => Symbol::CompilerIgnoreRootSignature,
            NativeCall::CompilerIgnoreDebugInformation { .. } => Symbol::CompilerIgnoreDebugInformation,
            NativeCall::CompilerSetMinimumDeploymentTarget { .. } => Symbol::CompilerSetMinimumDeploymentTarget,
            NativeCall::CompilerAllocCompileAndLink { .. } => Symbol::CompilerAllocCompileAndLink,
            NativeCall::CompilerAllocCombineCompileAndLink { .. } => Symbol::CompilerAllocCombineCompileAndLink,
            NativeCall::ObjectCreateFromDxil { .. } => Symbol::ObjectCreateFromDxil,
            NativeCall::ObjectDestroy { .. } => Symbol::ObjectDestroy,
            NativeCall::ObjectGatherRaytracingIntrinsics { .. } => Symbol::ObjectGatherRaytracingIntrinsics,
            NativeCall::ObjectGetType { .. } => Symbol::ObjectGetType,
            NativeCall::ObjectGetMetalIrShaderStage { .. } => Symbol::ObjectGetMetalIrShaderStage,
            NativeCall::ObjectGetMetalLibBinary { .. } => Symbol::ObjectGetMetalLibBinary,
            NativeCall::ObjectGetReflection { .. } => Symbol::ObjectGetReflection,
            NativeCall::MetalLibBinaryCreate => Symbol::MetalLibBinaryCreate,
            NativeCall::MetalLibBinaryDestroy { .. } => Symbol::MetalLibBinaryDestroy,
            NativeCall::MetalLibGetBytecodeSize { .. } => Symbol::MetalLibGetBytecodeSize,
            NativeCall::MetalLibGetBytecode { .. } => Symbol::MetalLibGetBytecode,
            NativeCall::MetalLibSynthesizeStageInFunction { .. } => Symbol::MetalLibSynthesizeStageInFunction,
            NativeCall::MetalLibSynthesizeIndirectRayDispatchFunction { .. } => Symbol::MetalLibSynthesizeIndirectRayDispatchFunction,
            NativeCall::MetalLibSynthesizeIndirectIntersectionFunction { .. } => Symbol::MetalLibSynthesizeIndirectIntersectionFunction,
            NativeCall::RootSignatureCreateFromDescriptor { .. } => Symbol::RootSignatureCreateFromDescriptor,
            NativeCall::RootSignatureDestroy { .. } => Symbol::RootSignatureDestroy,
            NativeCall::RootSignatureGetResourceCount { .. } => Symbol::RootSignatureGetResourceCount,
            NativeCall::RootSignatureGetResourceLocations { .. } => Symbol::RootSignatureGetResourceLocations,
            NativeCall::ShaderReflectionCreate => Symbol::ShaderReflectionCreate,
            NativeCall::ShaderReflectionDestroy { .. } => Symbol::ShaderReflectionDestroy,
            NativeCall::ShaderReflectionCopyStageInfo { stage, .. } => spec_copy_symbol(*stage),
            NativeCall::ShaderReflectionReleaseStageInfo { stage, .. } => spec_release_symbol(*stage),
            NativeCall::ErrorGetCode { .. } => Symbol::ErrorGetCode,
            NativeCall::ErrorGetPayload { .. } => Symbol::ErrorGetPayload,
            NativeCall::ErrorDestroy { .. } => Symbol::ErrorDestroy,
        }
    }
}

} // verus!
